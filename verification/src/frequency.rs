//! How a waveform frequency becomes the byte that the device expects for it.

use vstd::prelude::*;

verus! {

/// The compressed period for a waveform period of `t` milliseconds.
///
/// Short periods pass unchanged, longer ones are squeezed into what is left of one byte.
pub open spec fn compressed_period(t: real) -> real {
    if t < 5 as real {
        5 as real
    } else if t < 100 as real {
        t
    } else if t < 600 as real {
        (t - 100 as real) / 5 as real + 100 as real
    } else if t < 1000 as real {
        (t - 600 as real) / 10 as real + 200 as real
    } else {
        240 as real
    }
}

/// The period of a waveform of `frequency` Hz, in milliseconds.
pub open spec fn period(frequency: u8) -> real
    recommends
        frequency > 0,
{
    1000 as real / frequency as int as real
}

/// The whole part of the compressed period for a waveform period of `n / d` milliseconds.
pub open spec fn whole_compressed_period(n: int, d: int) -> int
    recommends
        0 <= n,
        0 < d,
{
    if n < 5 * d {
        5
    } else if n < 100 * d {
        n / d
    } else if n < 600 * d {
        (n - 100 * d) / (5 * d) + 100
    } else if n < 1000 * d {
        (n - 600 * d) / (10 * d) + 200
    } else {
        240
    }
}

/// The byte that stands for `frequency` Hz: the whole part of the compressed period, and 0 for
/// no frequency at all.
pub open spec fn frequency_byte(frequency: u8) -> u8 {
    if frequency == 0 {
        0
    } else {
        whole_compressed_period(1000, frequency as int) as u8
    }
}

/// A quotient, multiplied by its divisor, is the dividend.
proof fn lemma_quotient(n: real, d: real)
    by (nonlinear_arith)
    requires
        d > 0 as real,
    ensures
        (n / d) * d == n,
{
}

/// Integer division gives the whole part of the quotient.
proof fn lemma_division_is_floor(n: int, d: int)
    requires
        0 <= n,
        0 < d,
    ensures
        (n as real / d as real).floor() == n / d,
{
    let q = n / d;
    let x = n as real / d as real;
    lemma_quotient(n as real, d as real);
    assert(q * d <= n < (q + 1) * d) by (nonlinear_arith)
        requires
            0 <= n,
            0 < d,
            q == n / d,
    ;
    assert(q as real <= x < (q + 1) as real) by (nonlinear_arith)
        requires
            x * d as real == n as real,
            0 < d,
            q * d <= n < (q + 1) * d,
    ;
}

/// Comparing a quotient with a whole number is comparing the dividend with their product.
proof fn lemma_quotient_below(n: int, d: int, bound: int)
    requires
        0 < d,
    ensures
        (n as real / (d as real) < bound as real) <==> n < bound * d,
{
    let x = n as real / d as real;
    lemma_quotient(n as real, d as real);
    assert(x < bound as real <==> n < bound * d) by (nonlinear_arith)
        requires
            x * d as real == n as real,
            0 < d,
    ;
}

/// Taking `offset` off a quotient and dividing by `scale` can be done in one division.
proof fn lemma_quotient_rescaled(n: int, d: int, offset: int, scale: int)
    requires
        0 < d,
        0 < scale,
    ensures
        (n as real / d as real - offset as real) / scale as real == (n - offset * d) as real / (
        scale * d) as real,
{
    let x = n as real / d as real;
    let y = (x - offset as real) / scale as real;
    let m = (n - offset * d) as real;
    let p = (scale * d) as real;
    lemma_quotient(n as real, d as real);
    lemma_quotient(x - offset as real, scale as real);
    assert(p == scale as real * d as real && p > 0 as real) by (nonlinear_arith)
        requires
            p == (scale * d) as real,
            scale > 0,
            d > 0,
    ;
    assert(m == n as real - offset as real * d as real) by (nonlinear_arith)
        requires
            m == (n - offset * d) as real,
    ;
    assert(y * p == m) by (nonlinear_arith)
        requires
            y * scale as real == x - offset as real,
            x * d as real == n as real,
            p == scale as real * d as real,
            m == n as real - offset as real * d as real,
    ;
    assert(y == m / p) by (nonlinear_arith)
        requires
            y * p == m,
            p > 0 as real,
    ;
}

/// A division by an integer keeps within the bounds of the quotient.
proof fn lemma_division_bounds(n: int, d: int, lower: int, upper: int)
    requires
        0 < d,
        lower * d <= n < upper * d,
    ensures
        lower <= n / d < upper,
{
    let q = n / d;
    assert(lower <= q < upper) by (nonlinear_arith)
        requires
            0 < d,
            q == n / d,
            lower * d <= n < upper * d,
    ;
}

/// The compressed period fits into a byte.
pub proof fn lemma_whole_compressed_period_range(n: int, d: int)
    requires
        0 <= n,
        0 < d,
    ensures
        5 <= whole_compressed_period(n, d) <= 240,
{
    if n < 5 * d {
    } else if n < 100 * d {
        lemma_division_bounds(n, d, 5, 100);
    } else if n < 600 * d {
        lemma_division_bounds(n - 100 * d, 5 * d, 0, 100);
    } else if n < 1000 * d {
        lemma_division_bounds(n - 600 * d, 10 * d, 0, 40);
    }
}

/// The compressed period in whole numbers is the whole part of the compressed period.
pub proof fn law_whole_compressed_period(n: int, d: int)
    requires
        0 <= n,
        0 < d,
    ensures
        whole_compressed_period(n, d) == compressed_period(n as real / d as real).floor(),
{
    lemma_quotient_below(n, d, 5);
    lemma_quotient_below(n, d, 100);
    lemma_quotient_below(n, d, 600);
    lemma_quotient_below(n, d, 1000);
    if 5 * d <= n < 100 * d {
        lemma_division_is_floor(n, d);
    } else if 100 * d <= n < 600 * d {
        lemma_quotient_rescaled(n, d, 100, 5);
        lemma_division_is_floor(n - 100 * d, 5 * d);
    } else if 600 * d <= n < 1000 * d {
        lemma_quotient_rescaled(n, d, 600, 10);
        lemma_division_is_floor(n - 600 * d, 10 * d);
    }
}

/// The byte of a frequency is the whole part of the compressed period of that frequency.
pub proof fn law_frequency_byte_is_compressed_period(frequency: u8)
    requires
        frequency > 0,
    ensures
        frequency_byte(frequency) == compressed_period(period(frequency)).floor(),
{
    lemma_whole_compressed_period_range(1000, frequency as int);
    law_whole_compressed_period(1000, frequency as int);
}

/// A longer period never has a shorter compressed period.
pub proof fn law_compression_is_monotonic(t1: real, t2: real)
    requires
        t1 <= t2,
    ensures
        compressed_period(t1) <= compressed_period(t2),
{
}

/// A higher frequency never has a larger byte.
pub proof fn law_higher_frequency_has_no_larger_byte(f1: u8, f2: u8)
    requires
        0 < f1 <= f2,
    ensures
        frequency_byte(f2) <= frequency_byte(f1),
{
    law_frequency_byte_is_compressed_period(f1);
    law_frequency_byte_is_compressed_period(f2);
    let t1 = period(f1);
    let t2 = period(f2);
    let d1 = f1 as int as real;
    let d2 = f2 as int as real;
    lemma_quotient(1000 as real, d1);
    lemma_quotient(1000 as real, d2);
    assert(t2 <= t1) by (nonlinear_arith)
        requires
            t1 * d1 == 1000 as real,
            t2 * d2 == 1000 as real,
            d1 > 0 as real,
            d1 <= d2,
    ;
    law_compression_is_monotonic(t2, t1);
}

/// The byte of a frequency lies between 5 and 240; only the absent frequency has the byte 0.
pub proof fn law_frequency_byte_range(frequency: u8)
    ensures
        frequency_byte(frequency) == 0 <==> frequency == 0,
        frequency > 0 ==> 5 <= frequency_byte(frequency) <= 240,
{
    if frequency > 0 {
        lemma_whole_compressed_period_range(1000, frequency as int);
    }
}

/// Above the actual maximum of 200 Hz every frequency is sent like 200 Hz.
pub proof fn law_frequency_maximum(frequency: u8)
    requires
        200 <= frequency,
    ensures
        frequency_byte(frequency) == frequency_byte(200),
{
}

/// The byte of a frequency on whole numbers alone: no frequency has the byte 0, at 1 Hz the longest
/// period has the byte 240, from 2 to 10 Hz the period is 100 ms and five times what the byte has
/// above 100, from 11 to 200 Hz the byte is the period, and above that it is 5. A period between two
/// bytes has the lower one.
pub proof fn law_frequency_byte_bounds_the_period(frequency: u8)
    ensures
        ({
            let f = frequency as int;
            let r = frequency_byte(frequency) as int;
            &&& f == 0 ==> r == 0
            &&& f == 1 ==> r == 240
            &&& 2 <= f <= 10 ==> 100 <= r && (100 + 5 * (r - 100)) * f <= 1000 < (100 + 5 * (r
                - 99)) * f
            &&& 11 <= f <= 200 ==> r * f <= 1000 < (r + 1) * f
            &&& 200 < f ==> r == 5
        }),
{
    let f = frequency as int;
    let r = frequency_byte(frequency) as int;
    if f > 0 {
        lemma_whole_compressed_period_range(1000, f);
    }
    if 2 <= f <= 10 {
        let q = (1000 - 100 * f) / (5 * f);
        assert(q * (5 * f) <= 1000 - 100 * f < (q + 1) * (5 * f)) by (nonlinear_arith)
            requires
                2 <= f <= 10,
                q == (1000 - 100 * f) / (5 * f),
        ;
        assert(0 <= q) by (nonlinear_arith)
            requires
                2 <= f <= 10,
                q == (1000 - 100 * f) / (5 * f),
        ;
        assert(r == q + 100);
        assert((100 + 5 * (r - 100)) * f <= 1000 < (100 + 5 * (r - 99)) * f) by (nonlinear_arith)
            requires
                q * (5 * f) <= 1000 - 100 * f < (q + 1) * (5 * f),
                r == q + 100,
        ;
    } else if 11 <= f <= 200 {
        assert(r == 1000int / f);
        assert(r * f <= 1000 < (r + 1) * f) by (nonlinear_arith)
            requires
                11 <= f <= 200,
                r == 1000int / f,
        ;
    }
}

} // verus!
