//! Building identifier strings: hexadecimal and decimal renderings of
//! integers, stated as sequences of characters.
use vstd::prelude::*;

verus! {

/// The upper-case hexadecimal digit of `d < 16`.
pub open spec fn hex_digit(d: nat) -> char {
    if d < 10 {
        (48 + d) as char
    } else {
        (55 + d) as char
    }
}

/// The decimal digit of `d < 10`.
pub open spec fn dec_digit(d: nat) -> char {
    (48 + d) as char
}

/// The lowest `n` hexadecimal digits of `v`, most significant first.
pub open spec fn hex_fixed(v: nat, n: nat) -> Seq<char>
    decreases n,
{
    if n == 0 {
        Seq::empty()
    } else {
        hex_fixed(v / 16, (n - 1) as nat).push(hex_digit(v % 16))
    }
}

/// How many hexadecimal digits `v` has (at least one).
pub open spec fn hex_len(v: nat) -> nat
    decreases v,
{
    if v < 16 {
        1
    } else {
        1 + hex_len(v / 16)
    }
}

/// `v` in upper-case hexadecimal, padded with zeros to at least `width` digits.
pub open spec fn hex_text(v: nat, width: nat) -> Seq<char> {
    hex_fixed(v, if hex_len(v) < width { width } else { hex_len(v) })
}

/// `v` in decimal, without leading zeros.
pub open spec fn dec_text(v: nat) -> Seq<char>
    decreases v,
{
    if v < 10 {
        seq![dec_digit(v)]
    } else {
        dec_text(v / 10).push(dec_digit(v % 10))
    }
}

/// Relies on String::push: the character is appended at the end.
#[verifier::external_body]
pub(crate) fn push_char(s: &mut String, c: char)
    ensures
        final(s)@ == old(s)@.push(c),
{
    s.push(c)
}

fn hex_digit_char(d: u64) -> (c: char)
    requires
        d < 16,
    ensures
        c == hex_digit(d as nat),
{
    if d < 10 {
        ((48 + d) as u8) as char
    } else {
        ((55 + d) as u8) as char
    }
}

fn push_hex_fixed(s: &mut String, v: u64, n: u64)
    ensures
        final(s)@ == old(s)@ + hex_fixed(v as nat, n as nat),
    decreases n,
{
    if n > 0 {
        push_hex_fixed(s, v / 16, n - 1);
        push_char(s, hex_digit_char(v % 16));
        proof {
            assert(old(s)@ + hex_fixed(v as nat, n as nat) =~= old(s)@ + hex_fixed(
                (v / 16) as nat,
                (n - 1) as nat,
            ) + seq![hex_digit((v % 16) as nat)]);
        }
    } else {
        assert(old(s)@ + hex_fixed(v as nat, 0) =~= old(s)@);
    }
}

fn hex_digit_count(v: u64) -> (r: u64)
    ensures
        r as nat == hex_len(v as nat),
        r <= v + 1,
    decreases v,
{
    if v < 16 {
        1
    } else {
        let r = hex_digit_count(v / 16);
        assert(v / 16 <= 0x0fff_ffff_ffff_ffff);
        1 + r
    }
}

/// Appends `v` in upper-case hexadecimal, zero-padded to at least `width` digits.
pub fn push_hex(s: &mut String, v: u64, width: u64)
    ensures
        final(s)@ == old(s)@ + hex_text(v as nat, width as nat),
{
    let len = hex_digit_count(v);
    let n = if len < width {
        width
    } else {
        len
    };
    push_hex_fixed(s, v, n);
}

/// Appends `v` in decimal.
pub fn push_decimal(s: &mut String, v: u64)
    ensures
        final(s)@ == old(s)@ + dec_text(v as nat),
    decreases v,
{
    if v >= 10 {
        push_decimal(s, v / 10);
    }
    push_char(s, ((48 + v % 10) as u8) as char);
    proof {
        if v >= 10 {
            assert(old(s)@ + dec_text(v as nat) =~= old(s)@ + dec_text((v / 10) as nat) + seq![
                dec_digit((v % 10) as nat),
            ]);
        } else {
            assert(old(s)@ + dec_text(v as nat) =~= old(s)@.push(dec_digit(v as nat)));
        }
    }
}

/// Appends the characters of `t`.
pub fn push_text(s: &mut String, t: &str)
    ensures
        final(s)@ == old(s)@ + t@,
{
    s.append(t);
}

} // verus!
