//! The non-fiscal receipt: an exact byte stream of printer directives and
//! code-page text, assembled entirely in memory.
//!
//! The layout constants of this format version are fixed: a 24-byte name
//! column, a 3-byte quantity column, a 6-byte amount column, a totals label
//! padded to 31 columns, and a 44-dash separator.

use vstd::prelude::*;

use crate::encoding::Model;
use crate::encoding::enc;
use crate::encoding::encode_with_model;
use crate::encoding::euro_byte_of;
use crate::encoding::model_of;
use crate::encoding::parse_model;
use crate::encoding::spec_euro_byte;
use crate::numfmt::dec_bytes;
use crate::numfmt::money2_bytes;
use crate::numfmt::pad_left;
use crate::numfmt::push_dec_padded;
use crate::numfmt::push_money2_padded;
use crate::numfmt::push_repeat;
use crate::numfmt::repeat_byte;
use crate::types::PrinterConfig;
use crate::types::SaleLine;
use crate::types::profile_model;
use crate::types::resolve_model;

verus! {

/// The code-page select argument of a model.
pub open spec fn codepage(m: Model) -> u8 {
    match m {
        Model::Bixolon => 19,
        Model::Epson => 16,
        Model::Rp850use => 16,
        Model::Hydra => 0,
        _ => 19,
    }
}

/// The paper-cut directive of a model.
pub open spec fn cut_bytes(m: Model) -> Seq<u8> {
    match m {
        Model::Hydra => seq![0x1Bu8, 0x69u8],
        Model::Custom => seq![0x1Bu8, 0x6Du8],
        Model::Epson => seq![0x1Du8, 0x56u8, 66u8, 0u8],
        Model::Rp850use => seq![0x1Du8, 0x56u8, 66u8, 0u8],
        _ => seq![0x1Du8, 0x56u8, 0u8],
    }
}

/// A 44-dash separator line.
pub open spec fn sep_line() -> Seq<u8> {
    repeat_byte(0x2D, 44) + seq![0x0Au8]
}

/// An encoded text line: code-page bytes followed by a line feed.
pub open spec fn line_bytes(m: Model, s: Seq<char>) -> Seq<u8> {
    enc(m, s) + seq![0x0Au8]
}

/// The column header above the item lines, aligned with their fields.
pub open spec fn columns_header(m: Model) -> Seq<u8> {
    enc(m, "PRODUCT                 QTY   "@) + seq![spec_euro_byte(m)] + enc(m, "AMOUNT"@)
        + seq![0x0Au8]
}

/// The 24-byte name column: the encoded name truncated to 24 bytes, or
/// right-padded with spaces to exactly 24 bytes.
pub open spec fn name_field(m: Model, name: Seq<char>) -> Seq<u8> {
    let nb = enc(m, name);
    if nb.len() > 24 {
        nb.take(24)
    } else {
        nb + repeat_byte(0x20, (24 - nb.len()) as nat)
    }
}

/// One item line: name column, quantity right-justified in 3, three spaces,
/// the Euro byte, the line total right-justified in at least 6, line feed.
pub open spec fn item_line_bytes(m: Model, name: Seq<char>, qty: nat, total_cents: nat) -> Seq<
    u8,
> {
    name_field(m, name) + pad_left(dec_bytes(qty), 3) + repeat_byte(0x20, 3) + seq![
        spec_euro_byte(m),
    ] + pad_left(money2_bytes(total_cents), 6) + seq![0x0Au8]
}

/// A line's total in hundredths: unit price times quantity, as supplied by
/// the caller-visible line item.
pub open spec fn line_total(l: SaleLine) -> nat {
    (l.price * l.qty) as nat
}

/// The item lines of the first `n` sale lines, in order.
pub open spec fn items_prefix(m: Model, s: Seq<SaleLine>, n: int) -> Seq<u8>
    decreases n,
{
    if n <= 0 {
        Seq::empty()
    } else {
        items_prefix(m, s, n - 1) + item_line_bytes(
            m,
            s[n - 1].name@,
            s[n - 1].qty as nat,
            line_total(s[n - 1]),
        )
    }
}

/// The item lines of all sale lines, in order.
pub open spec fn items_bytes(m: Model, s: Seq<SaleLine>) -> Seq<u8> {
    items_prefix(m, s, s.len() as int)
}

/// The totals line: the label padded with spaces until the content before the
/// Euro byte occupies 31 columns (skipped if the label is already wider), the
/// Euro byte, the grand total right-justified in at least 6, line feed.
pub open spec fn totals_line(m: Model, total_cents: nat) -> Seq<u8> {
    let label = enc(m, "TOTAL:"@);
    let padded = if label.len() < 31 {
        label + repeat_byte(0x20, (31 - label.len()) as nat)
    } else {
        label
    };
    padded + seq![spec_euro_byte(m)] + pad_left(money2_bytes(total_cents), 6) + seq![0x0Au8]
}

/// The totals block: double-height on, the totals line, style reset.
pub open spec fn totals_block(m: Model, total_cents: nat) -> Seq<u8> {
    seq![0x1Bu8, 0x21u8, 0x10u8] + totals_line(m, total_cents) + seq![0x1Bu8, 0x21u8, 0x00u8]
}

/// Reset, code-page select, centered bold double-size header line, then the
/// address, city, phone and VAT lines, the last followed by a blank line.
pub open spec fn header_block(m: Model, p: PrinterConfig) -> Seq<u8> {
    seq![0x1Bu8, 0x40u8] + seq![0x1Bu8, 0x74u8, codepage(m)] + seq![0x1Bu8, 0x61u8, 1u8] + seq![
        0x1Bu8,
        0x45u8,
        1u8,
    ] + seq![0x1Bu8, 0x21u8, 0x30u8] + line_bytes(m, p.header@) + seq![0x1Bu8, 0x45u8, 0u8] + seq![
        0x1Bu8,
        0x21u8,
        0x00u8,
    ] + line_bytes(m, p.address@) + line_bytes(m, p.city@) + line_bytes(m, p.phone@) + line_bytes(
        m,
        p.vat@,
    ) + seq![0x0Au8]
}

/// A blank line, "Date:" and the timestamp, line feed.
pub open spec fn date_block(m: Model, ts: Seq<char>) -> Seq<u8> {
    enc(m, "\nDate: "@) + enc(m, ts) + seq![0x0Au8]
}

/// Centered non-fiscal notice and thank-you line, a 4-line feed, the cut.
pub open spec fn footer_block(m: Model) -> Seq<u8> {
    seq![0x1Bu8, 0x61u8, 1u8] + enc(m, "\nNON-FISCAL document\nThank you!\n"@) + seq![
        0x1Bu8,
        0x64u8,
        4u8,
    ] + cut_bytes(m)
}

/// The whole receipt of a profile, its sale lines, the caller-supplied grand
/// total, and a timestamp.
pub open spec fn receipt_bytes(
    m: Model,
    p: PrinterConfig,
    lines: Seq<SaleLine>,
    total_cents: nat,
    ts: Seq<char>,
) -> Seq<u8> {
    header_block(m, p) + seq![0x1Bu8, 0x61u8, 0u8] + sep_line() + columns_header(m) + sep_line()
        + items_bytes(m, lines) + sep_line() + totals_block(m, total_cents) + date_block(m, ts)
        + footer_block(m)
}

/// Law: the name column of an item line is always exactly 24 bytes — a
/// longer encoded name is truncated to 24, a shorter one is right-padded
/// with spaces — and it stands at the very front of the line.
pub proof fn lemma_item_line_layout(m: Model, name: Seq<char>, qty: nat, total_cents: nat)
    ensures
        name_field(m, name).len() == 24,
        enc(m, name).len() > 24 ==> name_field(m, name) == enc(m, name).take(24),
        enc(m, name).len() <= 24 ==> name_field(m, name) == enc(m, name) + repeat_byte(
            0x20,
            (24 - enc(m, name).len()) as nat,
        ),
        item_line_bytes(m, name, qty, total_cents).take(24) == name_field(m, name),
{
    assert(item_line_bytes(m, name, qty, total_cents).take(24) =~= name_field(m, name));
}

/// Law: the totals label "TOTAL:" is 6 bytes and is followed by exactly 25
/// spaces, so the content before the Euro byte occupies 31 columns.
pub proof fn lemma_totals_label_padding(m: Model, total_cents: nat)
    ensures
        enc(m, "TOTAL:"@).len() == 6,
        totals_line(m, total_cents) == enc(m, "TOTAL:"@) + repeat_byte(0x20, 25) + seq![
            spec_euro_byte(m),
        ] + pad_left(money2_bytes(total_cents), 6) + seq![0x0Au8],
{
    reveal_strlit("TOTAL:");
    assert("TOTAL:"@.len() == 6);
    assert(totals_line(m, total_cents) =~= enc(m, "TOTAL:"@) + repeat_byte(0x20, 25) + seq![
        spec_euro_byte(m),
    ] + pad_left(money2_bytes(total_cents), 6) + seq![0x0Au8]);
}

/// Appends two bytes.
fn push2(buf: &mut Vec<u8>, a: u8, b: u8)
    ensures
        final(buf)@ == old(buf)@ + seq![a, b],
{
    buf.push(a);
    buf.push(b);
    proof {
        assert(buf@ =~= old(buf)@ + seq![a, b]);
    }
}

/// Appends three bytes.
fn push3(buf: &mut Vec<u8>, a: u8, b: u8, c: u8)
    ensures
        final(buf)@ == old(buf)@ + seq![a, b, c],
{
    buf.push(a);
    buf.push(b);
    buf.push(c);
    proof {
        assert(buf@ =~= old(buf)@ + seq![a, b, c]);
    }
}

/// Appends an encoded text line with its line feed.
fn push_line(buf: &mut Vec<u8>, m: Model, s: &str)
    ensures
        final(buf)@ == old(buf)@ + line_bytes(m, s@),
{
    let mut eb = encode_with_model(s, m);
    buf.append(&mut eb);
    buf.push(0x0A);
    proof {
        assert(buf@ =~= old(buf)@ + line_bytes(m, s@));
    }
}

/// Appends a 44-dash separator line.
fn push_sep(buf: &mut Vec<u8>)
    ensures
        final(buf)@ == old(buf)@ + sep_line(),
{
    push_repeat(buf, 0x2D, 44);
    buf.push(0x0A);
    proof {
        assert(buf@ =~= old(buf)@ + sep_line());
    }
}

/// Appends the column header line.
fn push_columns_header(buf: &mut Vec<u8>, m: Model)
    ensures
        final(buf)@ == old(buf)@ + columns_header(m),
{
    let mut left = encode_with_model("PRODUCT                 QTY   ", m);
    buf.append(&mut left);
    buf.push(euro_byte_of(m));
    let mut right = encode_with_model("AMOUNT", m);
    buf.append(&mut right);
    buf.push(0x0A);
    proof {
        assert(buf@ =~= old(buf)@ + columns_header(m));
    }
}

/// Appends one item line, keyed by the resolved model.
pub fn push_item_line_model(buf: &mut Vec<u8>, name: &str, qty: u32, line_total_cents: u64, m: Model)
    ensures
        final(buf)@ == old(buf)@ + item_line_bytes(m, name@, qty as nat, line_total_cents as nat),
{
    let mut nb = encode_with_model(name, m);
    if nb.len() > 24 {
        nb.truncate(24);
        buf.append(&mut nb);
    } else {
        let pad = 24 - nb.len();
        buf.append(&mut nb);
        push_repeat(buf, 0x20, pad);
        proof {
            assert(buf@ =~= old(buf)@ + name_field(m, name@));
        }
    }
    push_dec_padded(buf, qty as u64, 3);
    push_repeat(buf, 0x20, 3);
    buf.push(euro_byte_of(m));
    push_money2_padded(buf, line_total_cents, 6);
    buf.push(0x0A);
    proof {
        assert(buf@ =~= old(buf)@ + item_line_bytes(m, name@, qty as nat, line_total_cents as nat));
    }
}

/// Appends one item line, keyed by the model string.
pub fn push_item_line(buf: &mut Vec<u8>, name: &str, qty: u32, line_total_cents: u64, model: &str)
    ensures
        final(buf)@ == old(buf)@ + item_line_bytes(
            model_of(model@),
            name@,
            qty as nat,
            line_total_cents as nat,
        ),
{
    let m = parse_model(model);
    push_item_line_model(buf, name, qty, line_total_cents, m);
}

/// Appends the item lines of all sale lines, in order.
fn push_items(buf: &mut Vec<u8>, m: Model, lines: &Vec<SaleLine>)
    requires
        forall|i: int| 0 <= i < lines@.len() ==> lines@[i].price * lines@[i].qty <= u64::MAX,
    ensures
        final(buf)@ == old(buf)@ + items_bytes(m, lines@),
{
    let n = lines.len();
    let mut i: usize = 0;
    while i < n
        invariant
            n == lines@.len(),
            i <= n,
            forall|j: int| 0 <= j < lines@.len() ==> lines@[j].price * lines@[j].qty <= u64::MAX,
            buf@ == old(buf)@ + items_prefix(m, lines@, i as int),
        decreases n - i,
    {
        let l = &lines[i];
        assert(lines@[i as int].price * lines@[i as int].qty <= u64::MAX);
        let lt: u64 = l.price * (l.qty as u64);
        push_item_line_model(buf, l.name.as_str(), l.qty, lt, m);
        proof {
            assert(buf@ =~= old(buf)@ + items_prefix(m, lines@, i + 1 as int));
        }
        i += 1;
    }
}

/// Appends the totals block.
fn push_totals_block(buf: &mut Vec<u8>, m: Model, total_cents: u64)
    ensures
        final(buf)@ == old(buf)@ + totals_block(m, total_cents as nat),
{
    push3(buf, 0x1B, 0x21, 0x10);
    let mut label = encode_with_model("TOTAL:", m);
    let label_len = label.len();
    buf.append(&mut label);
    if label_len < 31 {
        push_repeat(buf, 0x20, 31 - label_len);
    }
    buf.push(euro_byte_of(m));
    push_money2_padded(buf, total_cents, 6);
    buf.push(0x0A);
    push3(buf, 0x1B, 0x21, 0x00);
    proof {
        assert(buf@ =~= old(buf)@ + totals_block(m, total_cents as nat));
    }
}

/// Appends the header block of a profile.
fn push_header_block(buf: &mut Vec<u8>, m: Model, p: &PrinterConfig)
    ensures
        final(buf)@ == old(buf)@ + header_block(m, *p),
{
    push2(buf, 0x1B, 0x40);
    push3(buf, 0x1B, 0x74, codepage_of(m));
    push3(buf, 0x1B, 0x61, 1);
    push3(buf, 0x1B, 0x45, 1);
    push3(buf, 0x1B, 0x21, 0x30);
    push_line(buf, m, p.header.as_str());
    push3(buf, 0x1B, 0x45, 0);
    push3(buf, 0x1B, 0x21, 0x00);
    push_line(buf, m, p.address.as_str());
    push_line(buf, m, p.city.as_str());
    push_line(buf, m, p.phone.as_str());
    push_line(buf, m, p.vat.as_str());
    buf.push(0x0A);
    proof {
        assert(buf@ =~= old(buf)@ + header_block(m, *p));
    }
}

/// The code-page select argument, executable.
pub fn codepage_of(m: Model) -> (b: u8)
    ensures
        b == codepage(m),
{
    match m {
        Model::Bixolon => 19,
        Model::Epson => 16,
        Model::Rp850use => 16,
        Model::Hydra => 0,
        _ => 19,
    }
}

/// Appends the date block.
fn push_date_block(buf: &mut Vec<u8>, m: Model, ts: &str)
    ensures
        final(buf)@ == old(buf)@ + date_block(m, ts@),
{
    let mut pre = encode_with_model("\nDate: ", m);
    buf.append(&mut pre);
    let mut tb = encode_with_model(ts, m);
    buf.append(&mut tb);
    buf.push(0x0A);
    proof {
        assert(buf@ =~= old(buf)@ + date_block(m, ts@));
    }
}

/// Appends the footer block with the model's cut directive.
fn push_footer_block(buf: &mut Vec<u8>, m: Model)
    ensures
        final(buf)@ == old(buf)@ + footer_block(m),
{
    push3(buf, 0x1B, 0x61, 1);
    let mut notice = encode_with_model("\nNON-FISCAL document\nThank you!\n", m);
    buf.append(&mut notice);
    push3(buf, 0x1B, 0x64, 4);
    match m {
        Model::Hydra => push2(buf, 0x1B, 0x69),
        Model::Custom => push2(buf, 0x1B, 0x6D),
        Model::Epson => {
            push3(buf, 0x1D, 0x56, 66);
            buf.push(0);
        },
        Model::Rp850use => {
            push3(buf, 0x1D, 0x56, 66);
            buf.push(0);
        },
        _ => push3(buf, 0x1D, 0x56, 0),
    }
    proof {
        assert(buf@ =~= old(buf)@ + footer_block(m));
    }
}

/// Builds the whole receipt byte buffer for a profile, its sale lines, the
/// caller-supplied grand total (in hundredths; not recomputed here), and the
/// timestamp text of the date line.
pub fn build_receipt(
    printer: &PrinterConfig,
    lines: &Vec<SaleLine>,
    total_cents: u64,
    timestamp: &str,
) -> (buf: Vec<u8>)
    requires
        forall|i: int| 0 <= i < lines@.len() ==> lines@[i].price * lines@[i].qty <= u64::MAX,
    ensures
        buf@ == receipt_bytes(
            profile_model(*printer),
            *printer,
            lines@,
            total_cents as nat,
            timestamp@,
        ),
{
    let m = resolve_model(printer);
    let mut buf: Vec<u8> = Vec::new();
    push_header_block(&mut buf, m, printer);
    push3(&mut buf, 0x1B, 0x61, 0);
    push_sep(&mut buf);
    push_columns_header(&mut buf, m);
    push_sep(&mut buf);
    push_items(&mut buf, m, lines);
    push_sep(&mut buf);
    push_totals_block(&mut buf, m, total_cents);
    push_date_block(&mut buf, m, timestamp);
    push_footer_block(&mut buf, m);
    proof {
        assert(buf@ =~= receipt_bytes(
            profile_model(*printer),
            *printer,
            lines@,
            total_cents as nat,
            timestamp@,
        ));
    }
    buf
}

/// Builds the receipt with the current local time on the date line.
pub fn build_receipt_now(printer: &PrinterConfig, lines: &Vec<SaleLine>, total_cents: u64) -> (buf:
    Vec<u8>)
    requires
        forall|i: int| 0 <= i < lines@.len() ==> lines@[i].price * lines@[i].qty <= u64::MAX,
    ensures
        exists|ts: Seq<char>|
            buf@ == receipt_bytes(
                profile_model(*printer),
                *printer,
                lines@,
                total_cents as nat,
                ts,
            ),
{
    let ts = crate::clock::current_timestamp();
    let buf = build_receipt(printer, lines, total_cents, ts.as_str());
    proof {
        assert(buf@ == receipt_bytes(
            profile_model(*printer),
            *printer,
            lines@,
            total_cents as nat,
            ts@,
        ));
    }
    buf
}

} // verus!
