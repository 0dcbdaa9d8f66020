//! Verified decimal rendering: plain integers, fixed-point amounts with two
//! or three fractional digits, and right-justified padding.

use vstd::prelude::*;

verus! {

/// The ASCII byte of one decimal digit.
pub open spec fn digit_byte(d: nat) -> u8
    recommends
        d < 10,
{
    (d + 0x30) as u8
}

/// The ASCII bytes of `n` in decimal, no sign, no leading zeros (except "0").
pub open spec fn dec_bytes(n: nat) -> Seq<u8>
    decreases n,
{
    if n < 10 {
        seq![digit_byte(n)]
    } else {
        dec_bytes(n / 10).push(digit_byte(n % 10))
    }
}

/// The same digits as characters.
pub open spec fn dec_chars(n: nat) -> Seq<char> {
    dec_bytes(n).map_values(|b: u8| b as char)
}

/// `n` copies of one byte.
pub open spec fn repeat_byte(b: u8, n: nat) -> Seq<u8> {
    Seq::new(n, |i: int| b)
}

/// `s` right-justified in a field of `w` bytes, filled with spaces; wider
/// content is kept whole.
pub open spec fn pad_left(s: Seq<u8>, w: nat) -> Seq<u8> {
    if s.len() >= w {
        s
    } else {
        repeat_byte(0x20, (w - s.len()) as nat) + s
    }
}

/// A fixed-point amount in hundredths, rendered with exactly two fractional
/// digits: `1250 -> "12.50"`.
pub open spec fn money2_bytes(cents: nat) -> Seq<u8> {
    dec_bytes(cents / 100) + seq![
        0x2Eu8,
        digit_byte((cents % 100) / 10),
        digit_byte(cents % 10),
    ]
}

/// The same amount as characters.
pub open spec fn money2_chars(cents: nat) -> Seq<char> {
    dec_chars(cents / 100) + seq![
        '.',
        digit_byte((cents % 100) / 10) as char,
        digit_byte(cents % 10) as char,
    ]
}

/// A quantity in thousandths, rendered with exactly three fractional digits:
/// `1000 -> "1.000"`.
pub open spec fn qty3_chars(thousandths: nat) -> Seq<char> {
    dec_chars(thousandths / 1000) + seq![
        '.',
        digit_byte((thousandths % 1000) / 100) as char,
        digit_byte((thousandths % 100) / 10) as char,
        digit_byte(thousandths % 10) as char,
    ]
}

/// Appends the decimal digits of `n`.
pub fn push_dec(buf: &mut Vec<u8>, n: u64)
    ensures
        final(buf)@ == old(buf)@ + dec_bytes(n as nat),
    decreases n,
{
    if n >= 10 {
        push_dec(buf, n / 10);
    }
    let ghost pre = buf@;
    buf.push((n % 10) as u8 + 0x30);
    proof {
        if n < 10 {
            assert(buf@ =~= old(buf)@ + dec_bytes(n as nat));
        } else {
            assert(pre == old(buf)@ + dec_bytes(n as nat / 10));
            assert(buf@ =~= old(buf)@ + dec_bytes(n as nat));
        }
    }
}

/// Appends `count` copies of `b`.
pub fn push_repeat(buf: &mut Vec<u8>, b: u8, count: usize)
    ensures
        final(buf)@ == old(buf)@ + repeat_byte(b, count as nat),
{
    let mut i: usize = 0;
    while i < count
        invariant
            i <= count,
            buf@ == old(buf)@ + repeat_byte(b, i as nat),
        decreases count - i,
    {
        buf.push(b);
        proof {
            assert(buf@ =~= old(buf)@ + repeat_byte(b, (i + 1) as nat));
        }
        i += 1;
    }
}

/// Appends the digits of `n` right-justified in a field of `width` bytes.
pub fn push_dec_padded(buf: &mut Vec<u8>, n: u64, width: usize)
    ensures
        final(buf)@ == old(buf)@ + pad_left(dec_bytes(n as nat), width as nat),
{
    let mut tmp: Vec<u8> = Vec::new();
    push_dec(&mut tmp, n);
    if tmp.len() < width {
        push_repeat(buf, 0x20, width - tmp.len());
    }
    buf.append(&mut tmp);
    proof {
        assert(buf@ =~= old(buf)@ + pad_left(dec_bytes(n as nat), width as nat));
    }
}

/// Appends `cents` as a fixed-point amount with two fractional digits.
pub fn push_money2(buf: &mut Vec<u8>, cents: u64)
    ensures
        final(buf)@ == old(buf)@ + money2_bytes(cents as nat),
{
    push_dec(buf, cents / 100);
    buf.push(0x2E);
    buf.push(((cents % 100) / 10) as u8 + 0x30);
    buf.push((cents % 10) as u8 + 0x30);
    proof {
        assert(buf@ =~= old(buf)@ + money2_bytes(cents as nat));
    }
}

/// One unfolding step of the digit characters.
pub proof fn lemma_dec_chars_unfold(n: nat)
    ensures
        n < 10 ==> dec_chars(n) =~= seq![digit_byte(n) as char],
        n >= 10 ==> dec_chars(n) =~= dec_chars(n / 10).push(digit_byte(n % 10) as char),
{
}

/// Appends the decimal digit characters of `n`.
pub fn push_dec_str(out: &mut String, n: u64)
    ensures
        final(out)@ == old(out)@ + dec_chars(n as nat),
    decreases n,
{
    if n >= 10 {
        push_dec_str(out, n / 10);
    }
    let ghost pre = out@;
    out.push(((n % 10) as u8 + 0x30) as char);
    proof {
        lemma_dec_chars_unfold(n as nat);
        if n < 10 {
            assert(out@ =~= old(out)@ + dec_chars(n as nat));
        } else {
            assert(pre == old(out)@ + dec_chars(n as nat / 10));
            assert(out@ =~= old(out)@ + dec_chars(n as nat));
        }
    }
}

/// Appends the amount characters with two fractional digits.
pub fn push_money2_str(out: &mut String, cents: u64)
    ensures
        final(out)@ == old(out)@ + money2_chars(cents as nat),
{
    push_dec_str(out, cents / 100);
    out.push('.');
    out.push((((cents % 100) / 10) as u8 + 0x30) as char);
    out.push(((cents % 10) as u8 + 0x30) as char);
    proof {
        assert(out@ =~= old(out)@ + money2_chars(cents as nat));
    }
}

/// Appends the quantity characters with three fractional digits.
pub fn push_qty3_str(out: &mut String, thousandths: u64)
    ensures
        final(out)@ == old(out)@ + qty3_chars(thousandths as nat),
{
    push_dec_str(out, thousandths / 1000);
    out.push('.');
    out.push((((thousandths % 1000) / 100) as u8 + 0x30) as char);
    out.push((((thousandths % 100) / 10) as u8 + 0x30) as char);
    out.push(((thousandths % 10) as u8 + 0x30) as char);
    proof {
        assert(out@ =~= old(out)@ + qty3_chars(thousandths as nat));
    }
}

/// Appends the amount right-justified in a field of `width` bytes.
pub fn push_money2_padded(buf: &mut Vec<u8>, cents: u64, width: usize)
    ensures
        final(buf)@ == old(buf)@ + pad_left(money2_bytes(cents as nat), width as nat),
{
    let mut tmp: Vec<u8> = Vec::new();
    push_money2(&mut tmp, cents);
    if tmp.len() < width {
        push_repeat(buf, 0x20, width - tmp.len());
    }
    buf.append(&mut tmp);
    proof {
        assert(buf@ =~= old(buf)@ + pad_left(money2_bytes(cents as nat), width as nat));
    }
}

} // verus!
