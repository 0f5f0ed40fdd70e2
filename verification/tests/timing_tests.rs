use vail_zoomer::timing::{
    calculate_character_gap, calculate_dah_duration, calculate_dit_duration,
    calculate_element_gap, calculate_word_gap, estimate_wpm_from_dit,
};

#[test]
fn test_dit_duration_at_common_speeds() {
    // At 12 WPM, dit should be 100 ms (durations are microseconds).
    assert_eq!(calculate_dit_duration(12), 100_000);

    // At 20 WPM, dit should be 60 ms.
    assert_eq!(calculate_dit_duration(20), 60_000);

    // At 25 WPM, dit should be 48 ms.
    assert_eq!(calculate_dit_duration(25), 48_000);
}

#[test]
fn test_dah_is_3x_dit() {
    for wpm in [10, 15, 20, 25, 30] {
        let dit = calculate_dit_duration(wpm);
        let dah = calculate_dah_duration(wpm);
        assert_eq!(dah, dit * 3);
    }
}

#[test]
fn test_gap_multiples() {
    let dit = calculate_dit_duration(18);
    assert_eq!(calculate_element_gap(18), dit);
    assert_eq!(calculate_character_gap(18), 3 * dit);
    assert_eq!(calculate_word_gap(18), 7 * dit);
}

#[test]
fn test_wpm_round_trip_across_the_range() {
    // wpm == 1200 / dit holds to within three thousandths of a WPM for
    // every speed in the working range.
    for wpm in 5u32..=60 {
        let dit = calculate_dit_duration(wpm);
        let est = estimate_wpm_from_dit(dit);
        let exact = (wpm as u64) * 1000;
        assert!(est >= exact && est <= exact + 3, "wpm {wpm}: est {est}");
    }
    assert_eq!(estimate_wpm_from_dit(60_000), 20_000);
}
