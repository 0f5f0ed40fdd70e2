use vail_zoomer::decoder::CwDecoder;

#[test]
fn test_lookup_common_letters() {
    let decoder = CwDecoder::new();
    assert_eq!(decoder.lookup_pattern("."), Some('E'));
    assert_eq!(decoder.lookup_pattern("-"), Some('T'));
    assert_eq!(decoder.lookup_pattern(".-"), Some('A'));
    assert_eq!(decoder.lookup_pattern("..."), Some('S'));
    assert_eq!(decoder.lookup_pattern("---"), Some('O'));
}

#[test]
fn test_decode_sos() {
    // Completed characters are handed back as soon as a boundary closes
    // them, so the round trip collects output while feeding.
    let mut decoder = CwDecoder::new();
    let mut result = String::new();
    let timings: [i64; 17] = [
        60, -60, 60, -60, 60, -180, // S: three dits, then a char gap
        180, -60, 180, -60, 180, -180, // O: three dahs, then a char gap
        60, -60, 60, -60, 60, // S: three dits
    ];
    for t in timings {
        if let Some(out) = decoder.add_timing(t) {
            result.push_str(&out);
        }
    }
    if let Some(out) = decoder.flush() {
        result.push_str(&out);
    }
    assert_eq!(result, "SOS".to_string());
}

#[test]
fn test_lookup_rejects_foreign_marks() {
    let decoder = CwDecoder::new();
    assert_eq!(decoder.lookup_pattern(""), None);
    assert_eq!(decoder.lookup_pattern("x"), None);
    assert_eq!(decoder.lookup_pattern(".........."), None);
    assert_eq!(decoder.lookup_pattern("...-..-"), Some('$'));
}

#[test]
fn test_noise_is_discarded() {
    let mut decoder = CwDecoder::new();
    // Below the 2 ms noise threshold: no effect at all.
    assert_eq!(decoder.add_timing(1), None);
    assert_eq!(decoder.add_timing(-1), None);
    assert_eq!(decoder.add_timing(0), None);
    assert_eq!(decoder.current_pattern(), "");
    // A dit then appears alone.
    decoder.add_timing(60);
    assert_eq!(decoder.current_pattern(), ".");
}

#[test]
fn test_word_gap_adds_single_space() {
    let mut decoder = CwDecoder::new();
    decoder.add_timing(60); // E
    // 400 ms is past both the character (120 ms) and word (300 ms) bounds.
    let out = decoder.add_timing(-400);
    assert_eq!(out, Some("E ".to_string()));
    decoder.add_timing(60); // E
    let out = decoder.flush();
    assert_eq!(out, Some("E".to_string()));
}

#[test]
fn test_unknown_pattern_is_silently_discarded() {
    let mut decoder = CwDecoder::new();
    // Ten dits name no table entry.
    for _ in 0..10 {
        decoder.add_timing(60);
        decoder.add_timing(-60);
    }
    assert_eq!(decoder.add_timing(-200), None);
    assert_eq!(decoder.flush(), None);
}

#[test]
fn test_estimate_wpm_converges_to_20() {
    let mut decoder = CwDecoder::new();
    // Default estimate is exactly 20 WPM (in thousandths).
    assert_eq!(decoder.estimate_wpm(), 20_000);
    // Only 60 ms dit samples keep it at exactly 20 WPM.
    for _ in 0..10 {
        decoder.add_timing(60);
        decoder.add_timing(-60);
    }
    let wpm = decoder.estimate_wpm();
    assert!(wpm >= 19_500 && wpm <= 20_500);
    assert_eq!(wpm, 20_000);
}

#[test]
fn test_outlier_samples_do_not_move_the_estimate() {
    let mut decoder = CwDecoder::new();
    assert_eq!(decoder.dit_length_ms(), 60);
    // A five-second tone is a dah, but 5000/3 ms is outside the 10..500 ms
    // sanity window, so it leaves the estimate alone.
    decoder.add_timing(5000);
    assert_eq!(decoder.dit_length_ms(), 60);
    // An in-window dah of 180 ms contributes a 60 ms dit estimate.
    decoder.add_timing(-700);
    decoder.add_timing(180);
    assert_eq!(decoder.dit_length_ms(), 60);
}

#[test]
fn test_reset_keeps_speed_memory() {
    let mut decoder = CwDecoder::new();
    decoder.add_timing(100); // dit of 100 ms
    assert_eq!(decoder.current_pattern(), ".");
    assert_eq!(decoder.dit_length_ms(), 100);
    decoder.reset();
    assert_eq!(decoder.current_pattern(), "");
    // The dit-length history survives a reset, deliberately.
    assert_eq!(decoder.dit_length_ms(), 100);
}
