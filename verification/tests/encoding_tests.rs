use posprint::encoding::euro_byte_for;
use posprint::encoding::to_bytes_with_encoding;

#[test]
fn accented_letters_map_to_fixed_bytes() {
    // a-grave, e-grave, e-acute, i-grave, o-grave, u-grave, then the capitals
    let text = "\u{E0}\u{E8}\u{E9}\u{EC}\u{F2}\u{F9}\u{C0}\u{C8}\u{C9}\u{CC}\u{D2}\u{D9}";
    let out = to_bytes_with_encoding(text, "generic");
    assert_eq!(
        out,
        vec![0x85, 0x8A, 0x82, 0x8D, 0x95, 0x97, 0xB7, 0xD8, 0x90, 0xD6, 0xE0, 0xE3]
    );
}

#[test]
fn ascii_passes_through() {
    let out = to_bytes_with_encoding("Hello, receipt 123!", "bixolon");
    assert_eq!(out, b"Hello, receipt 123!".to_vec());
}

#[test]
fn unmappable_characters_become_question_mark() {
    // n-tilde, a CJK character, and an emoji all fall back to '?'
    let out = to_bytes_with_encoding("\u{F1}\u{65E5}\u{1F600}", "generic");
    assert_eq!(out, vec![0x3F, 0x3F, 0x3F]);
}

#[test]
fn euro_byte_per_model() {
    assert_eq!(euro_byte_for("epson"), 0x80);
    assert_eq!(euro_byte_for("rp850use"), 0x80);
    assert_eq!(euro_byte_for("hydra"), 0xD5);
    assert_eq!(euro_byte_for("bixolon"), 0xD5);
    assert_eq!(euro_byte_for("custom"), 0xD5);
    assert_eq!(euro_byte_for("generic"), 0xD5);
    assert_eq!(euro_byte_for("anything-else"), 0xD5);
    assert_eq!(euro_byte_for(""), 0xD5);
}

#[test]
fn euro_sign_in_text_uses_model_byte() {
    assert_eq!(to_bytes_with_encoding("\u{20AC}", "epson"), vec![0x80]);
    assert_eq!(to_bytes_with_encoding("\u{20AC}", "rp850use"), vec![0x80]);
    assert_eq!(to_bytes_with_encoding("\u{20AC}", "bixolon"), vec![0xD5]);
    assert_eq!(to_bytes_with_encoding("\u{20AC}", "hydra"), vec![0xD5]);
}

#[test]
fn mixed_text_encodes_pointwise() {
    // "Caffe" with a final e-grave, then a Euro amount
    let out = to_bytes_with_encoding("Caff\u{E8} 2\u{20AC}", "generic");
    assert_eq!(out, vec![b'C', b'a', b'f', b'f', 0x8A, b' ', b'2', 0xD5]);
}
