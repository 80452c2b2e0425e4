use midi_cw_keyer::audio::fade_length;
use midi_cw_keyer::audio::fade_out_index;
use midi_cw_keyer::keyer::Keyer;
use midi_cw_keyer::timing::dit_length;
use midi_cw_keyer::Mode;

#[test]
fn dit_length_at_common_speeds() {
    assert_eq!(dit_length(1), 1200);
    assert_eq!(dit_length(5), 240);
    assert_eq!(dit_length(12), 100);
    assert_eq!(dit_length(20), 60);
    assert_eq!(dit_length(25), 48);
    assert_eq!(dit_length(40), 30);
}

#[test]
fn dit_length_rounds_to_nearest() {
    // 1200 / 7 = 171.43, 1200 / 13 = 92.31, 1200 / 17 = 70.59
    assert_eq!(dit_length(7), 171);
    assert_eq!(dit_length(13), 92);
    assert_eq!(dit_length(17), 71);
    assert_eq!(dit_length(255), 5);
    assert_eq!(dit_length(254), 5);
}

#[test]
fn dit_length_rounds_halves_up() {
    // 1200 / 32 = 37.5, 1200 / 96 = 12.5, 1200 / 160 = 7.5
    assert_eq!(dit_length(32), 38);
    assert_eq!(dit_length(96), 13);
    assert_eq!(dit_length(160), 8);
}

#[test]
fn dit_length_matches_rounded_quotient_at_every_speed() {
    for wpm in 1..=255u8 {
        let expected = (1200.0_f64 / f64::from(wpm)).round() as u64;
        assert_eq!(dit_length(wpm), expected, "at {} wpm", wpm);
        let single = (1200.0_f32 / f32::from(wpm)).round() as u64;
        assert_eq!(dit_length(wpm), single, "at {} wpm", wpm);
    }
}

#[test]
fn dah_is_three_dits_at_every_speed() {
    for wpm in 1..=255u8 {
        let keyer = Keyer::new(wpm, Mode::IambicA, 1);
        let settings = keyer.settings();
        assert_eq!(settings.dit_length, dit_length(wpm));
        assert_eq!(settings.dah_length, 3 * settings.dit_length);
    }
}

#[test]
fn fade_takes_a_fifteenth() {
    assert_eq!(fade_length(0), 0);
    assert_eq!(fade_length(14), 0);
    assert_eq!(fade_length(15), 1);
    assert_eq!(fade_length(29), 1);
    assert_eq!(fade_length(30), 2);
    assert_eq!(fade_length(2646), 176);
    assert_eq!(fade_length(usize::MAX), usize::MAX / 15);
}

#[test]
fn fade_out_ends_with_the_tone() {
    assert_eq!(fade_out_index(15, 0), 14);
    assert_eq!(fade_out_index(30, 0), 28);
    assert_eq!(fade_out_index(30, 1), 29);
    assert_eq!(fade_out_index(2646, 0), 2470);
    assert_eq!(fade_out_index(2646, 175), 2645);
}
