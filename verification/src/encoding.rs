//! Character-set translation for the printer's 8-bit code page.
//!
//! `to_bytes_with_encoding` is a total, stateless map from text to printable
//! bytes: the Euro sign goes to a model-dependent byte, twelve accented Latin
//! letters go to fixed code-page bytes, ASCII passes through, and everything
//! else degrades to `?`.

use vstd::prelude::*;

use crate::text::str_eq;

verus! {

/// The closed set of printer models the formats are keyed on.
#[derive(Clone, Copy, PartialEq, Eq, Structural, Debug)]
pub enum Model {
    Hydra,
    Bixolon,
    Epson,
    Rp850use,
    Custom,
    Generic,
}

/// The model a configuration string names; unknown strings mean `Generic`.
pub open spec fn model_of(s: Seq<char>) -> Model {
    if s == "hydra"@ {
        Model::Hydra
    } else if s == "bixolon"@ {
        Model::Bixolon
    } else if s == "epson"@ {
        Model::Epson
    } else if s == "rp850use"@ {
        Model::Rp850use
    } else if s == "custom"@ {
        Model::Custom
    } else {
        Model::Generic
    }
}

/// The byte the Euro sign prints as on a given model.
pub open spec fn spec_euro_byte(m: Model) -> u8 {
    match m {
        Model::Epson => 0x80,
        Model::Rp850use => 0x80,
        _ => 0xD5,
    }
}

/// The code-page byte of one character: Euro and twelve accented letters map
/// to fixed bytes, ASCII passes through, the rest becomes `?` (0x3F).
pub open spec fn enc_char(m: Model, c: char) -> u8 {
    if c == '\u{20AC}' {
        spec_euro_byte(m)
    } else if c == '\u{E0}' {
        0x85
    } else if c == '\u{E8}' {
        0x8A
    } else if c == '\u{E9}' {
        0x82
    } else if c == '\u{EC}' {
        0x8D
    } else if c == '\u{F2}' {
        0x95
    } else if c == '\u{F9}' {
        0x97
    } else if c == '\u{C0}' {
        0xB7
    } else if c == '\u{C8}' {
        0xD8
    } else if c == '\u{C9}' {
        0x90
    } else if c == '\u{CC}' {
        0xD6
    } else if c == '\u{D2}' {
        0xE0
    } else if c == '\u{D9}' {
        0xE3
    } else if c as int <= 0x7F {
        c as u8
    } else {
        0x3F
    }
}

/// The code-page translation of a whole text.
pub open spec fn enc(m: Model, s: Seq<char>) -> Seq<u8> {
    s.map_values(|c: char| enc_char(m, c))
}

/// Whether a character is one of the twelve mapped accented letters.
pub open spec fn is_accent_mapped(c: char) -> bool {
    c == '\u{E0}' || c == '\u{E8}' || c == '\u{E9}' || c == '\u{EC}' || c == '\u{F2}' || c
        == '\u{F9}' || c == '\u{C0}' || c == '\u{C8}' || c == '\u{C9}' || c == '\u{CC}' || c
        == '\u{D2}' || c == '\u{D9}'
}

/// Law: on every model, each of the twelve mapped accented letters encodes
/// to its fixed byte, and any character outside ASCII that is neither mapped
/// nor the Euro sign encodes to `?` (0x3F).
pub proof fn lemma_charset_mapping(m: Model)
    ensures
        enc_char(m, '\u{E0}') == 0x85,
        enc_char(m, '\u{E8}') == 0x8A,
        enc_char(m, '\u{E9}') == 0x82,
        enc_char(m, '\u{EC}') == 0x8D,
        enc_char(m, '\u{F2}') == 0x95,
        enc_char(m, '\u{F9}') == 0x97,
        enc_char(m, '\u{C0}') == 0xB7,
        enc_char(m, '\u{C8}') == 0xD8,
        enc_char(m, '\u{C9}') == 0x90,
        enc_char(m, '\u{CC}') == 0xD6,
        enc_char(m, '\u{D2}') == 0xE0,
        enc_char(m, '\u{D9}') == 0xE3,
        forall|c: char|
            (c as int > 0x7F && !is_accent_mapped(c) && c != '\u{20AC}') ==> enc_char(m, c) == 0x3F,
{
}

/// Law: the Euro byte is 0x80 exactly for the epson and rp850use model
/// strings, and 0xD5 for every other string.
pub proof fn lemma_euro_byte_selection(s: Seq<char>)
    ensures
        (s == "epson"@ || s == "rp850use"@) ==> spec_euro_byte(model_of(s)) == 0x80,
        !(s == "epson"@ || s == "rp850use"@) ==> spec_euro_byte(model_of(s)) == 0xD5,
{
    reveal_strlit("hydra");
    reveal_strlit("bixolon");
    reveal_strlit("epson");
    reveal_strlit("rp850use");
    assert("epson"@ != "hydra"@) by {
        assert("epson"@[0] == 'e' && "hydra"@[0] == 'h');
    }
    assert("epson"@ != "bixolon"@) by {
        assert("epson"@.len() == 5 && "bixolon"@.len() == 7);
    }
    assert("rp850use"@ != "hydra"@) by {
        assert("rp850use"@.len() == 8 && "hydra"@.len() == 5);
    }
    assert("rp850use"@ != "bixolon"@) by {
        assert("rp850use"@.len() == 8 && "bixolon"@.len() == 7);
    }
    assert("rp850use"@ != "epson"@) by {
        assert("rp850use"@.len() == 8 && "epson"@.len() == 5);
    }
}

/// Resolves a model string into its closed variant.
pub fn parse_model(s: &str) -> (m: Model)
    ensures
        m == model_of(s@),
{
    if str_eq(s, "hydra") {
        Model::Hydra
    } else if str_eq(s, "bixolon") {
        Model::Bixolon
    } else if str_eq(s, "epson") {
        Model::Epson
    } else if str_eq(s, "rp850use") {
        Model::Rp850use
    } else if str_eq(s, "custom") {
        Model::Custom
    } else {
        Model::Generic
    }
}

/// The byte for the Euro sign, keyed by the model string.
pub fn euro_byte_for(model: &str) -> (b: u8)
    ensures
        b == spec_euro_byte(model_of(model@)),
{
    euro_byte_of(parse_model(model))
}

/// The byte for the Euro sign, keyed by the resolved model.
pub fn euro_byte_of(m: Model) -> (b: u8)
    ensures
        b == spec_euro_byte(m),
{
    match m {
        Model::Epson => 0x80,
        Model::Rp850use => 0x80,
        _ => 0xD5,
    }
}

/// Translates one character for the printer's code page.
pub fn encode_char_exec(m: Model, c: char) -> (b: u8)
    ensures
        b == enc_char(m, c),
{
    if c == '\u{20AC}' {
        euro_byte_of(m)
    } else if c == '\u{E0}' {
        0x85
    } else if c == '\u{E8}' {
        0x8A
    } else if c == '\u{E9}' {
        0x82
    } else if c == '\u{EC}' {
        0x8D
    } else if c == '\u{F2}' {
        0x95
    } else if c == '\u{F9}' {
        0x97
    } else if c == '\u{C0}' {
        0xB7
    } else if c == '\u{C8}' {
        0xD8
    } else if c == '\u{C9}' {
        0x90
    } else if c == '\u{CC}' {
        0xD6
    } else if c == '\u{D2}' {
        0xE0
    } else if c == '\u{D9}' {
        0xE3
    } else {
        let code = c as u32;
        if code <= 0x7F {
            code as u8
        } else {
            0x3F
        }
    }
}

/// Translates a text into printer bytes, one byte per character, keyed by the
/// model string. Total: unmappable characters degrade to `?` rather than fail.
pub fn to_bytes_with_encoding(s: &str, model: &str) -> (out: Vec<u8>)
    ensures
        out@ == enc(model_of(model@), s@),
{
    let m = parse_model(model);
    encode_with_model(s, m)
}

/// Translates a text into printer bytes, keyed by the resolved model.
pub fn encode_with_model(s: &str, m: Model) -> (out: Vec<u8>)
    ensures
        out@ == enc(m, s@),
{
    let len = s.unicode_len();
    let mut out: Vec<u8> = Vec::new();
    let mut i: usize = 0;
    while i < len
        invariant
            len == s@.len(),
            i <= len,
            out@ == enc(m, s@.take(i as int)),
        decreases len - i,
    {
        let c = s.get_char(i);
        let b = encode_char_exec(m, c);
        out.push(b);
        proof {
            assert(s@.take(i + 1 as int).map_values(|c: char| enc_char(m, c)) =~= s@.take(
                i as int,
            ).map_values(|c: char| enc_char(m, c)).push(enc_char(m, s@[i as int])));
        }
        i += 1;
    }
    proof {
        assert(s@.take(len as int) =~= s@);
    }
    out
}

} // verus!
