//! Byte counts as people read them: `1.50 GB`, `2.4 MB`, `12.0 KiB`, `512 B`.
//!
//! The sizes are divided as `f64` values and printed with a fixed number of
//! decimals. Both steps are exact here in integers: the count is first
//! rounded to the 53 significant bits that an `f64` keeps (nearest, ties to
//! even), the division by a power of two loses nothing, and the printed
//! decimals are the exact quotient rounded to nearest, ties to even.

use vstd::prelude::*;
use crate::numfmt::{decimal, decimal_padded, push_decimal, push_decimal_padded};
use crate::text::{append_chars, chars_of, string_of};

verus! {

/// `2^e`.
pub open spec fn pow2n(e: nat) -> nat
    decreases e,
{
    if e == 0 {
        1
    } else {
        2 * pow2n((e - 1) as nat)
    }
}

/// `10^e`.
pub open spec fn pow10n(e: nat) -> nat
    decreases e,
{
    if e == 0 {
        1
    } else {
        10 * pow10n((e - 1) as nat)
    }
}

/// The integers below `2^53` are held exactly by an `f64`.
pub open spec fn f64_exact_limit() -> nat {
    9007199254740992
}

/// How many low bits of `n` an `f64` cannot hold.
pub open spec fn f64_shift(n: nat) -> nat
    decreases n,
{
    if n < f64_exact_limit() {
        0
    } else {
        1 + f64_shift(n / 2)
    }
}

/// `a / d` rounded to the nearest integer, ties to the even one.
pub open spec fn round_div(a: nat, d: nat) -> nat {
    let q = a / d;
    let r = a % d;
    if 2 * r > d || (2 * r == d && q % 2 == 1) {
        q + 1
    } else {
        q
    }
}

/// The value of `n as f64`: `n` rounded to a multiple of its last kept bit.
pub open spec fn f64_value(n: nat) -> nat {
    let u = pow2n(f64_shift(n));
    round_div(n, u) * u
}

/// `x / d` written with `places` decimals, as `{:.places}` writes the
/// quotient.
pub open spec fn fixed_text(x: nat, d: nat, places: nat) -> Seq<char> {
    let q = round_div(x * pow10n(places), d);
    decimal(q / pow10n(places)) + seq!['.'] + decimal_padded(q % pow10n(places), places)
}

/// The size text of the listings: two decimals for GB, one for MB and KB,
/// a plain count of bytes below that (binary multiples throughout).
pub open spec fn bytes_text(n: u64) -> Seq<char> {
    let v = f64_value(n as nat);
    if n >= 1073741824 {
        fixed_text(v, 1073741824, 2) + " GB"@
    } else if n >= 1048576 {
        fixed_text(v, 1048576, 1) + " MB"@
    } else if n >= 1024 {
        fixed_text(v, 1024, 1) + " KB"@
    } else {
        decimal(n as nat) + " B"@
    }
}

/// The short size text of the safety prompts: one decimal and binary unit
/// names.
pub open spec fn bytes_brief_text(n: u64) -> Seq<char> {
    let v = f64_value(n as nat);
    if n >= 1073741824 {
        fixed_text(v, 1073741824, 1) + " GiB"@
    } else if n >= 1048576 {
        fixed_text(v, 1048576, 1) + " MiB"@
    } else if n >= 1024 {
        fixed_text(v, 1024, 1) + " KiB"@
    } else {
        decimal(n as nat) + " B"@
    }
}

fn round_div_exec(a: u128, d: u128) -> (r: u128)
    requires
        d > 0,
        d < 0x1_0000_0000_0000_0000,
        a < 0x1_0000_0000_0000_0000_0000_0000_0000,
    ensures
        r == round_div(a as nat, d as nat),
{
    let q = a / d;
    let r = a % d;
    assert(r < d);
    assert(q <= a) by (nonlinear_arith)
        requires
            q == a / d,
            d > 0,
    ;
    if 2 * r > d || (2 * r == d && q % 2 == 1) {
        q + 1
    } else {
        q
    }
}

proof fn lemma_pow2_positive(e: nat)
    ensures
        pow2n(e) >= 1,
    decreases e,
{
    if e > 0 {
        lemma_pow2_positive((e - 1) as nat);
    }
}

/// The value of `n as f64` (see `f64_value`).
fn f64_value_of(n: u64) -> (r: u128)
    ensures
        r == f64_value(n as nat),
        r <= 0x1_0000_0000_0000_1000,
{
    let mut m: u128 = n as u128;
    let mut unit: u128 = 1;
    let ghost mut shift: nat = 0;
    assert(m == (n as nat) / 1);
    while m >= 9007199254740992
        invariant
            unit == pow2n(shift),
            1 <= unit <= 4096,
            m == (n as nat) / (unit as nat),
            f64_shift(n as nat) == shift + f64_shift(m as nat),
        decreases m,
    {
        proof {
            vstd::arithmetic::div_mod::lemma_fundamental_div_mod(n as int, unit as int);
            vstd::arithmetic::div_mod::lemma_div_denominator(n as int, unit as int, 2);
        }
        assert(unit < 2048) by (nonlinear_arith)
            requires
                unit * m <= n,
                m >= 9007199254740992,
                n < 0x1_0000_0000_0000_0000,
        ;
        m = m / 2;
        unit = unit * 2;
        proof {
            shift = shift + 1;
        }
    }
    proof {
        vstd::arithmetic::div_mod::lemma_fundamental_div_mod(n as int, unit as int);
    }
    assert(f64_shift(m as nat) == 0);
    let q = round_div_exec(n as u128, unit);
    assert(q <= m + 1);
    assert(q * unit <= 0x1_0000_0000_0000_1000) by (nonlinear_arith)
        requires
            q <= m + 1,
            unit * m <= n,
            n < 0x1_0000_0000_0000_0000,
            unit <= 4096,
            unit >= 1,
    {
        assert(q * unit <= (m + 1) * unit);
    }
    q * unit
}

/// Writes `x / d` with `places` decimals (see `fixed_text`).
fn push_fixed(out: &mut Vec<char>, x: u128, d: u128, places: u32)
    requires
        d > 0,
        d < 0x1_0000_0000_0000_0000,
        places <= 2,
        x <= 0x1_0000_0000_0000_1000,
    ensures
        final(out)@ == old(out)@ + fixed_text(x as nat, d as nat, places as nat),
{
    let scale: u128 = if places == 0 { 1 } else if places == 1 { 10 } else { 100 };
    assert(scale == pow10n(places as nat)) by {
        reveal_with_fuel(pow10n, 3);
    }
    let q = round_div_exec(x * scale, d);
    push_decimal(out, q / scale);
    out.push('.');
    push_decimal_padded(out, q % scale, places);
    assert(final(out)@ =~= old(out)@ + fixed_text(x as nat, d as nat, places as nat));
}

/// The size text of the listings (see `bytes_text`).
pub fn format_bytes(bytes: u64) -> (r: String)
    ensures
        r@ == bytes_text(bytes),
{
    let mut out: Vec<char> = Vec::new();
    if bytes >= 1073741824 {
        let v = f64_value_of(bytes);
        push_fixed(&mut out, v, 1073741824, 2);
        let unit = chars_of(" GB");
        append_chars(&mut out, unit.as_slice());
    } else if bytes >= 1048576 {
        let v = f64_value_of(bytes);
        push_fixed(&mut out, v, 1048576, 1);
        let unit = chars_of(" MB");
        append_chars(&mut out, unit.as_slice());
    } else if bytes >= 1024 {
        let v = f64_value_of(bytes);
        push_fixed(&mut out, v, 1024, 1);
        let unit = chars_of(" KB");
        append_chars(&mut out, unit.as_slice());
    } else {
        push_decimal(&mut out, bytes as u128);
        let unit = chars_of(" B");
        append_chars(&mut out, unit.as_slice());
    }
    string_of(out.as_slice())
}

/// The short size text of the safety prompts (see `bytes_brief_text`).
pub fn format_bytes_brief(bytes: u64) -> (r: String)
    ensures
        r@ == bytes_brief_text(bytes),
{
    let mut out: Vec<char> = Vec::new();
    if bytes >= 1073741824 {
        let v = f64_value_of(bytes);
        push_fixed(&mut out, v, 1073741824, 1);
        let unit = chars_of(" GiB");
        append_chars(&mut out, unit.as_slice());
    } else if bytes >= 1048576 {
        let v = f64_value_of(bytes);
        push_fixed(&mut out, v, 1048576, 1);
        let unit = chars_of(" MiB");
        append_chars(&mut out, unit.as_slice());
    } else if bytes >= 1024 {
        let v = f64_value_of(bytes);
        push_fixed(&mut out, v, 1024, 1);
        let unit = chars_of(" KiB");
        append_chars(&mut out, unit.as_slice());
    } else {
        push_decimal(&mut out, bytes as u128);
        let unit = chars_of(" B");
        append_chars(&mut out, unit.as_slice());
    }
    string_of(out.as_slice())
}

/// Counts that an `f64` holds exactly keep their value.
pub proof fn small_counts_are_exact(n: nat)
    requires
        n < f64_exact_limit(),
    ensures
        f64_value(n) == n,
{
    assert(f64_shift(n) == 0);
    assert(pow2n(0) == 1);
    assert(n / 1 == n);
    assert(n % 1 == 0);
    assert(round_div(n, 1) == n);
    assert(f64_value(n) == round_div(n, 1) * 1);
}

} // verus!
