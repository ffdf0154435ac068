//! Integers as text: plain decimal (`{}`) and zero-padded lower-case
//! hexadecimal (`{:016x}`).

use vstd::prelude::*;
use crate::text::string_of;

verus! {

/// The sixteen digit characters, lower case.
pub open spec fn digit_chars() -> Seq<char> {
    seq!['0', '1', '2', '3', '4', '5', '6', '7', '8', '9', 'a', 'b', 'c', 'd', 'e', 'f']
}

/// `n` in decimal, without sign or leading zeros.
pub open spec fn decimal(n: nat) -> Seq<char>
    decreases n,
{
    if n < 10 {
        seq![digit_chars()[n as int]]
    } else {
        decimal(n / 10).push(digit_chars()[(n % 10) as int])
    }
}

/// `v` in decimal, with a leading `-` when it is negative.
pub open spec fn signed_decimal(v: int) -> Seq<char> {
    if v < 0 {
        seq!['-'] + decimal((-v) as nat)
    } else {
        decimal(v as nat)
    }
}

/// The last `width` hexadecimal digits of `n`, lower case, zero-padded.
pub open spec fn hex_padded(n: nat, width: nat) -> Seq<char>
    decreases width,
{
    if width == 0 {
        Seq::empty()
    } else {
        hex_padded(n / 16, (width - 1) as nat).push(digit_chars()[(n % 16) as int])
    }
}

/// The last `width` decimal digits of `n`, zero-padded.
pub open spec fn decimal_padded(n: nat, width: nat) -> Seq<char>
    decreases width,
{
    if width == 0 {
        Seq::empty()
    } else {
        decimal_padded(n / 10, (width - 1) as nat).push(digit_chars()[(n % 10) as int])
    }
}

pub(crate) fn push_decimal_padded(out: &mut Vec<char>, n: u128, width: u32)
    ensures
        final(out)@ == old(out)@ + decimal_padded(n as nat, width as nat),
    decreases width,
{
    if width == 0 {
        assert(old(out)@ + decimal_padded(n as nat, 0) =~= old(out)@);
        return;
    }
    let table = digit_table();
    push_decimal_padded(out, n / 10, width - 1);
    out.push(table[(n % 10) as usize]);
    assert(old(out)@ + decimal_padded((n / 10) as nat, (width - 1) as nat).push(digit_chars()[(n % 10) as int])
        =~= (old(out)@ + decimal_padded((n / 10) as nat, (width - 1) as nat)).push(digit_chars()[(n % 10) as int]));
}

fn digit_table() -> (t: Vec<char>)
    ensures
        t@ == digit_chars(),
{
    let t = vec!['0', '1', '2', '3', '4', '5', '6', '7', '8', '9', 'a', 'b', 'c', 'd', 'e', 'f'];
    assert(t@ =~= digit_chars());
    t
}

pub(crate) fn push_decimal(out: &mut Vec<char>, n: u128)
    ensures
        final(out)@ == old(out)@ + decimal(n as nat),
    decreases n,
{
    let table = digit_table();
    if n >= 10 {
        push_decimal(out, n / 10);
        out.push(table[(n % 10) as usize]);
        assert(decimal(n as nat) == decimal((n / 10) as nat).push(digit_chars()[(n % 10) as int]));
    } else {
        out.push(table[n as usize]);
    }
    assert(final(out)@ =~= old(out)@ + decimal(n as nat)) by {
        if n >= 10 {
            assert(old(out)@ + decimal((n / 10) as nat).push(digit_chars()[(n % 10) as int])
                =~= (old(out)@ + decimal((n / 10) as nat)).push(digit_chars()[(n % 10) as int]));
        }
    }
}

fn push_hex(out: &mut Vec<char>, n: u64, width: u32)
    ensures
        final(out)@ == old(out)@ + hex_padded(n as nat, width as nat),
    decreases width,
{
    if width == 0 {
        assert(old(out)@ + hex_padded(n as nat, 0) =~= old(out)@);
        return;
    }
    let table = digit_table();
    push_hex(out, n / 16, width - 1);
    out.push(table[(n % 16) as usize]);
    assert(old(out)@ + hex_padded((n / 16) as nat, (width - 1) as nat).push(digit_chars()[(n % 16) as int])
        =~= (old(out)@ + hex_padded((n / 16) as nat, (width - 1) as nat)).push(digit_chars()[(n % 16) as int]));
}

/// `n` in decimal, as `format!("{}", n)` writes it.
pub fn decimal_string(n: u64) -> (s: String)
    ensures
        s@ == decimal(n as nat),
{
    let mut v: Vec<char> = Vec::new();
    push_decimal(&mut v, n as u128);
    assert(v@ =~= decimal(n as nat));
    string_of(&v)
}

/// `v` in decimal, as `format!("{}", v)` writes it.
pub fn signed_decimal_string(v: i64) -> (s: String)
    ensures
        s@ == signed_decimal(v as int),
{
    let mut out: Vec<char> = Vec::new();
    if v < 0 {
        out.push('-');
        let magnitude: u128 = (0i128 - (v as i128)) as u128;
        push_decimal(&mut out, magnitude);
        assert(out@ =~= seq!['-'] + decimal((-v) as nat));
    } else {
        push_decimal(&mut out, v as u128);
        assert(out@ =~= decimal(v as nat));
    }
    string_of(&out)
}

/// `n` in sixteen lower-case hexadecimal digits, as `format!("{:016x}", n)`
/// writes it.
pub fn hex16_string(n: u64) -> (s: String)
    ensures
        s@ == hex_padded(n as nat, 16),
{
    let mut v: Vec<char> = Vec::new();
    push_hex(&mut v, n, 16);
    assert(v@ =~= hex_padded(n as nat, 16));
    string_of(&v)
}

/// The last `width` octal digits of `n`, zero-padded.
pub open spec fn octal_padded(n: nat, width: nat) -> Seq<char>
    decreases width,
{
    if width == 0 {
        Seq::empty()
    } else {
        octal_padded(n / 8, (width - 1) as nat).push(digit_chars()[(n % 8) as int])
    }
}

/// How many octal digits `{:04o}` writes for `m`: at least four.
pub open spec fn octal_width(m: u16) -> nat {
    if m < 4096 {
        4
    } else if m < 32768 {
        5
    } else {
        6
    }
}

fn push_octal(out: &mut Vec<char>, n: u16, width: u32)
    ensures
        final(out)@ == old(out)@ + octal_padded(n as nat, width as nat),
    decreases width,
{
    if width == 0 {
        assert(old(out)@ + octal_padded(n as nat, 0) =~= old(out)@);
        return;
    }
    let table = digit_table();
    push_octal(out, n / 8, width - 1);
    out.push(table[(n % 8) as usize]);
    assert(old(out)@ + octal_padded((n / 8) as nat, (width - 1) as nat).push(digit_chars()[(n % 8) as int])
        =~= (old(out)@ + octal_padded((n / 8) as nat, (width - 1) as nat)).push(digit_chars()[(n % 8) as int]));
}

/// Permission bits in octal, as `format!("{:04o}", m)` writes them.
pub fn mode_octal(m: u16) -> (s: String)
    ensures
        s@ == octal_padded(m as nat, octal_width(m)),
{
    let width: u32 = if m < 4096 { 4 } else if m < 32768 { 5 } else { 6 };
    let mut v: Vec<char> = Vec::new();
    push_octal(&mut v, m, width);
    assert(v@ =~= octal_padded(m as nat, octal_width(m)));
    string_of(&v)
}

} // verus!
