//! Standard Morse timing relations.
//!
//! The PARIS convention puts 50 dit lengths in one word, so a sender doing
//! `wpm` words per minute keys a dit of `1200 / wpm` milliseconds. All
//! durations here are in microseconds; speeds are in thousandths of a WPM.

use vstd::prelude::*;

verus! {

/// Dit duration in microseconds for a given speed in words per minute.
pub open spec fn dit_duration_us_spec(wpm: int) -> int
    recommends
        wpm >= 1,
{
    1_200_000int / wpm
}

/// Speed in thousandths of a WPM for a given dit duration in microseconds.
pub open spec fn wpm_milli_from_dit_spec(dit_us: int) -> int
    recommends
        dit_us >= 1,
{
    1_200_000_000int / dit_us
}

/// Dit duration in microseconds from WPM (PARIS standard: 1200 ms per WPM).
pub fn calculate_dit_duration(wpm: u32) -> (r: u64)
    requires
        wpm >= 1,
    ensures
        r == dit_duration_us_spec(wpm as int),
        r <= 1_200_000,
{
    1_200_000u64 / (wpm as u64)
}

/// Dah duration: three dit lengths.
pub fn calculate_dah_duration(wpm: u32) -> (r: u64)
    requires
        wpm >= 1,
    ensures
        r == 3 * dit_duration_us_spec(wpm as int),
{
    calculate_dit_duration(wpm) * 3
}

/// Gap between the elements of one character: one dit length.
pub fn calculate_element_gap(wpm: u32) -> (r: u64)
    requires
        wpm >= 1,
    ensures
        r == dit_duration_us_spec(wpm as int),
{
    calculate_dit_duration(wpm)
}

/// Gap between characters: three dit lengths.
pub fn calculate_character_gap(wpm: u32) -> (r: u64)
    requires
        wpm >= 1,
    ensures
        r == 3 * dit_duration_us_spec(wpm as int),
{
    calculate_dit_duration(wpm) * 3
}

/// Gap between words: seven dit lengths.
pub fn calculate_word_gap(wpm: u32) -> (r: u64)
    requires
        wpm >= 1,
    ensures
        r == 7 * dit_duration_us_spec(wpm as int),
{
    calculate_dit_duration(wpm) * 7
}

/// Speed estimate in thousandths of a WPM from a dit duration in microseconds.
pub fn estimate_wpm_from_dit(dit_us: u64) -> (r: u64)
    requires
        dit_us >= 1,
    ensures
        r == wpm_milli_from_dit_spec(dit_us as int),
{
    1_200_000_000u64 / dit_us
}

/// The timing relations hold together: the dah is exactly three dits by
/// the contract of `calculate_dah_duration`, and converting a speed to its
/// dit duration and back returns the speed, up to three thousandths of a
/// WPM lost to the microsecond grid.
pub proof fn lemma_wpm_dit_round_trip(wpm: int)
    requires
        5 <= wpm <= 60,
    ensures
        1000 * wpm <= wpm_milli_from_dit_spec(dit_duration_us_spec(wpm)) <= 1000 * wpm + 3,
{
    let d = dit_duration_us_spec(wpm);
    assert(d == 1_200_000int / wpm);
    assert(d * wpm <= 1_200_000 < (d + 1) * wpm) by (nonlinear_arith)
        requires
            5 <= wpm <= 60,
            d == 1_200_000int / wpm,
    ;
    assert(20_000 <= d <= 240_000) by (nonlinear_arith)
        requires
            5 <= wpm <= 60,
            d * wpm <= 1_200_000 < (d + 1) * wpm,
    ;
    let e = wpm_milli_from_dit_spec(d);
    assert(e == 1_200_000_000int / d);
    assert(e * d <= 1_200_000_000 < (e + 1) * d) by (nonlinear_arith)
        requires
            20_000 <= d <= 240_000,
            e == 1_200_000_000int / d,
    ;
    // Lower bound: d * (1000 * wpm) <= 1000 * 1_200_000 means e >= 1000 * wpm.
    assert(e >= 1000 * wpm) by (nonlinear_arith)
        requires
            d * wpm <= 1_200_000,
            e * d <= 1_200_000_000 < (e + 1) * d,
            5 <= wpm <= 60,
            20_000 <= d <= 240_000,
    ;
    // Upper bound: d > 1_200_000int / wpm - 1 gives d * (1000 * wpm + 4) > 1_200_000_000.
    assert(e <= 1000 * wpm + 3) by (nonlinear_arith)
        requires
            1_200_000 < (d + 1) * wpm,
            e * d <= 1_200_000_000,
            5 <= wpm <= 60,
            20_000 <= d <= 240_000,
    ;
}

} // verus!
