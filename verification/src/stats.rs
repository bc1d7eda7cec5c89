//! Process and host statistics reported by nodes, and their text rendering.
use crate::text::{decimal, decimal_pad2, push_decimal, push_decimal_pad2};
use vstd::prelude::*;

verus! {

/// A snapshot of process and host statistics.
///
/// The fractional readings (CPU shares and load averages) are held as the bit patterns of
/// their IEEE-754 values (`f32::to_bits`, `f64::to_bits`), which carry them one for one.
#[derive(Clone, Debug, PartialEq, Eq)]
pub struct Stats {
    pub proc_id: String,
    pub proc_threads: usize,
    pub proc_cpu_bits: u32,
    pub proc_mem_bytes: u64,
    pub proc_uptime_secs: u64,
    pub host_name: String,
    pub host_ip: String,
    pub host_mac: String,
    pub host_cpu_bits: u32,
    pub host_mem_used_bytes: u64,
    pub host_mem_total_bytes: u64,
    pub host_uptime_secs: u64,
    pub host_load_average_bits: [u64; 3],
    pub host_os_info: String,
    pub host_connections: usize,
    pub host_processes: usize,
}

/// `secs` as `HH:MM:SS`, each field at least two digits wide.
pub open spec fn spec_format_duration(secs: nat) -> Seq<char> {
    decimal_pad2(secs / 3600) + seq![':'] + decimal_pad2((secs % 3600) / 60) + seq![':']
        + decimal_pad2(secs % 60)
}

/// Renders a number of seconds as hours, minutes and seconds: `HH:MM:SS`.
pub fn format_duration(secs: u64) -> (r: String)
    ensures
        r@ == spec_format_duration(secs as nat),
{
    let hours = secs / 3600;
    let minutes = (secs % 3600) / 60;
    let seconds = secs % 60;
    let mut out = String::new();
    push_decimal_pad2(&mut out, hours);
    proof {
        reveal_strlit(":");
    }
    out.append(":");
    push_decimal_pad2(&mut out, minutes);
    out.append(":");
    push_decimal_pad2(&mut out, seconds);
    assert(out@ =~= spec_format_duration(secs as nat));
    out
}

/// `2^n`.
pub open spec fn two_pow(n: nat) -> nat
    decreases n,
{
    if n == 0 {
        1
    } else {
        2 * two_pow((n - 1) as nat)
    }
}

/// `1024^k`.
pub open spec fn pow1024(k: nat) -> nat
    decreases k,
{
    if k == 0 {
        1
    } else {
        1024 * pow1024((k - 1) as nat)
    }
}

/// `n / d` rounded to the nearest integer, a tie to the even one.
pub open spec fn div_round_even(n: nat, d: nat) -> nat {
    let q = n / d;
    let r = n % d;
    if 2 * r > d || (2 * r == d && q % 2 == 1) {
        q + 1
    } else {
        q
    }
}

/// How many low bits of `n` an `f64` cannot hold, counting up from `s`: the least shift
/// (at most 11) that leaves `n` below `2^(53 + shift)`.
pub open spec fn f64_shift(n: nat, s: nat) -> nat
    decreases 11 - s,
{
    if s >= 11 || n < two_pow(53 + s) {
        s
    } else {
        f64_shift(n, s + 1)
    }
}

/// The value of `n as f64` for `n < 2^64`: `n` rounded to 53 significant bits, a tie to
/// the even significand.
pub open spec fn f64_value(n: nat) -> nat {
    let d = two_pow(f64_shift(n, 0));
    div_round_even(n, d) * d
}

/// How many times, from `k` on and at most five in all, a size of `b` bytes is divided by
/// 1024 before it is below 1024.
pub open spec fn mem_unit_index(b: nat, k: nat) -> nat
    decreases 5 - k,
{
    if k >= 5 || b < pow1024(k + 1) {
        k
    } else {
        mem_unit_index(b, k + 1)
    }
}

/// The binary unit of a size divided `k` times by 1024.
pub open spec fn mem_unit_name(k: nat) -> Seq<char> {
    if k == 0 {
        "B"@
    } else if k == 1 {
        "KiB"@
    } else if k == 2 {
        "MiB"@
    } else if k == 3 {
        "GiB"@
    } else if k == 4 {
        "TiB"@
    } else {
        "PiB"@
    }
}

/// A byte count in the largest binary unit (up to PiB) that leaves it at least 1 (or in
/// bytes), with one decimal rounded to nearest, a tie to even, then a space and the unit.
/// The count is first taken as an `f64`, so counts above `2^53` are rounded to 53
/// significant bits.
pub open spec fn spec_format_mem(bytes: nat) -> Seq<char> {
    let b = f64_value(bytes);
    let k = mem_unit_index(b, 0);
    let t = div_round_even(10 * b, pow1024(k));
    decimal(t / 10) + seq!['.'] + decimal(t % 10) + seq![' '] + mem_unit_name(k)
}

/// `two_pow` grows with its exponent.
proof fn lemma_two_pow_le(a: nat, b: nat)
    requires
        a <= b,
    ensures
        1 <= two_pow(a) <= two_pow(b),
    decreases b,
{
    if a < b {
        lemma_two_pow_le(a, (b - 1) as nat);
    } else if b > 0 {
        lemma_two_pow_le(0, (b - 1) as nat);
    }
}

/// `n / d` rounded to nearest, a tie to even.
fn div_round_even_u128(n: u128, d: u128) -> (r: u128)
    requires
        0 < d <= 0x1_0000_0000_0000_0000,
        n <= 0x10_0000_0000_0000_0000,
    ensures
        r as nat == div_round_even(n as nat, d as nat),
        r <= n / d + 1,
{
    let q = n / d;
    let r = n % d;
    if 2 * r > d || (2 * r == d && q % 2 == 1) {
        q + 1
    } else {
        q
    }
}

/// The value of `n as f64`, as an integer.
fn f64_value_u64(n: u64) -> (r: u128)
    ensures
        r as nat == f64_value(n as nat),
        r <= 0x1_0000_0000_0000_0000,
{
    let mut s: u64 = 0;
    let mut d: u128 = 1;
    let mut lim: u128 = 0x20_0000_0000_0000;
    assert(two_pow(53) == 0x20_0000_0000_0000 && two_pow(10) == 1024) by {
        reveal_with_fuel(two_pow, 54);
    }
    while s < 11 && (n as u128) >= lim
        invariant
            s <= 11,
            d == two_pow(s as nat),
            lim == two_pow((53 + s) as nat),
            lim == 0x20_0000_0000_0000 * d,
            d <= 2048,
            f64_shift(n as nat, 0) == f64_shift(n as nat, s as nat),
            two_pow(10) == 1024,
        decreases 11 - s,
    {
        proof {
            lemma_two_pow_le(s as nat, 10);
        }
        lim = lim * 2;
        d = d * 2;
        s = s + 1;
    }
    assert(f64_shift(n as nat, s as nat) == s);
    assert(n < lim) by {
        if s == 11 {
            assert(d == 2048) by {
                reveal_with_fuel(two_pow, 12);
            }
        }
    }
    let q = div_round_even_u128(n as u128, d);
    assert(n as nat / d as nat <= 0x20_0000_0000_0000 - 1) by {
        assert(d * 0x20_0000_0000_0000 == 0x20_0000_0000_0000 * d);
        vstd::arithmetic::div_mod::lemma_multiply_divide_lt(n as int, d as int, 0x20_0000_0000_0000);
    }
    assert(q * d <= 0x20_0000_0000_0000 * d) by (nonlinear_arith)
        requires
            q <= 0x20_0000_0000_0000,
            d >= 1,
    ;
    q * d
}

/// The unit name of a size divided `k` times by 1024.
fn mem_unit(k: u64) -> (r: &'static str)
    requires
        k <= 5,
    ensures
        r@ == mem_unit_name(k as nat),
{
    if k == 0 {
        "B"
    } else if k == 1 {
        "KiB"
    } else if k == 2 {
        "MiB"
    } else if k == 3 {
        "GiB"
    } else if k == 4 {
        "TiB"
    } else {
        "PiB"
    }
}

/// Renders a byte count in binary units with one decimal, such as `1.5 KiB`.
pub fn format_mem(bytes: u64) -> (r: String)
    ensures
        r@ == spec_format_mem(bytes as nat),
{
    let b = f64_value_u64(bytes);
    let mut k: u64 = 0;
    let mut den: u128 = 1;
    assert(pow1024(1) == 1024 && pow1024(2) == 0x10_0000 && pow1024(3) == 0x4000_0000 && pow1024(4)
        == 0x100_0000_0000 && pow1024(5) == 0x4_0000_0000_0000) by {
        reveal_with_fuel(pow1024, 6);
    }
    while k < 5 && b >= den * 1024
        invariant
            k <= 5,
            den == pow1024(k as nat),
            pow1024(1) == 1024 && pow1024(2) == 0x10_0000 && pow1024(3) == 0x4000_0000 && pow1024(4)
                == 0x100_0000_0000 && pow1024(5) == 0x4_0000_0000_0000,
            mem_unit_index(b as nat, 0) == mem_unit_index(b as nat, k as nat),
        decreases 5 - k,
    {
        den = den * 1024;
        k = k + 1;
    }
    assert(mem_unit_index(b as nat, k as nat) == k);
    let t = div_round_even_u128(10 * b, den);
    assert(t / 10 < 0x1_0000_0000_0000_0000) by {
        if k == 0 {
            assert(b < 1024);
        } else {
            assert(den >= 1024);
            vstd::arithmetic::div_mod::lemma_div_is_ordered_by_denominator((10 * b) as int, 2, den as int);
        }
    }
    let mut out = String::new();
    push_decimal(&mut out, (t / 10) as u64);
    proof {
        reveal_strlit(".");
        reveal_strlit(" ");
    }
    out.append(".");
    push_decimal(&mut out, (t % 10) as u64);
    out.append(" ");
    out.append(mem_unit(k));
    assert(out@ =~= spec_format_mem(bytes as nat));
    out
}

} // verus!
