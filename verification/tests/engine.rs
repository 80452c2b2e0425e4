use midi_cw_keyer::keyer::print_sign;
use midi_cw_keyer::keyer::Input;
use midi_cw_keyer::keyer::Keyer;
use midi_cw_keyer::keyer::KeyerSettings;
use midi_cw_keyer::keyer::KeyerState;
use midi_cw_keyer::keyer::PaddleState;
use midi_cw_keyer::Mode;
use midi_cw_keyer::MorseSign;

use midi_cw_keyer::keyer::Input::Paddle;
use midi_cw_keyer::keyer::Input::WindowEnd;
use midi_cw_keyer::MorseSign::Dah;
use midi_cw_keyer::MorseSign::Dit;

fn traced(keyer: &mut Keyer, inputs: &[Input]) -> String {
    let mut out = String::new();
    keyer.run(inputs, &mut out);
    out
}

#[test]
fn new_engine_is_idle_and_released() {
    let keyer = Keyer::new(20, Mode::Ultimatic, 1);
    assert_eq!(keyer.state(), KeyerState::Idle);
    assert_eq!(keyer.paddle(), PaddleState { dit: false, dah: false });
    assert_eq!(keyer.buffer_size(), 1);
    assert_eq!(keyer.settings().mode, Mode::Ultimatic);
    assert_eq!(keyer.settings().dit_length, 60);
    assert_eq!(keyer.settings().dah_length, 180);
}

#[test]
fn single_dit_traces_dot_then_gap() {
    let mut keyer = Keyer::new(20, Mode::IambicA, 1);
    let out = traced(&mut keyer, &[Paddle(Dit, true), Paddle(Dit, false), WindowEnd]);
    assert_eq!(out, ". ");
    assert_eq!(keyer.state(), KeyerState::Idle);
    assert_eq!(keyer.paddle(), PaddleState { dit: false, dah: false });
}

#[test]
fn single_dit_step_by_step() {
    let mut keyer = Keyer::new(20, Mode::IambicA, 1);
    assert_eq!(keyer.step(Paddle(Dit, true)), Some(KeyerState::Dit));
    assert_eq!(keyer.state(), KeyerState::Dit);
    assert_eq!(keyer.step(Paddle(Dit, false)), None);
    assert_eq!(keyer.state(), KeyerState::Dit);
    assert_eq!(keyer.step(WindowEnd), Some(KeyerState::Idle));
    assert_eq!(keyer.state(), KeyerState::Idle);
    assert_eq!(keyer.step(WindowEnd), None);
    assert_eq!(keyer.state(), KeyerState::Idle);
}

#[test]
fn single_dah_traces_dash_then_gap() {
    let mut keyer = Keyer::new(20, Mode::Ultimatic, 1);
    let out = traced(&mut keyer, &[Paddle(Dah, true), Paddle(Dah, false), WindowEnd]);
    assert_eq!(out, "- ");
    assert_eq!(keyer.state(), KeyerState::Idle);
}

#[test]
fn gap_is_traced_once() {
    let mut keyer = Keyer::new(20, Mode::Ultimatic, 1);
    let out = traced(
        &mut keyer,
        &[Paddle(Dit, true), Paddle(Dit, false), WindowEnd, WindowEnd, WindowEnd, Paddle(Dit, false)],
    );
    assert_eq!(out, ". ");
}

#[test]
fn release_while_idle_starts_nothing() {
    let mut keyer = Keyer::new(20, Mode::IambicA, 1);
    keyer.key(Dit, false);
    keyer.key(Dah, false);
    assert_eq!(keyer.state(), KeyerState::Idle);
    assert_eq!(keyer.paddle(), PaddleState { dit: false, dah: false });
    assert_eq!(keyer.advance(), KeyerState::Idle);
}

#[test]
fn held_dit_repeats_in_iambic_a() {
    let mut keyer = Keyer::new(20, Mode::IambicA, 1);
    keyer.key(Dit, true);
    assert_eq!(keyer.state(), KeyerState::Dit);
    for _ in 0..50 {
        assert_eq!(keyer.advance(), KeyerState::Dit);
        assert_eq!(keyer.paddle(), PaddleState { dit: true, dah: false });
    }
}

#[test]
fn held_dah_repeats_in_ultimatic() {
    let mut keyer = Keyer::new(20, Mode::Ultimatic, 1);
    let out = traced(&mut keyer, &[Paddle(Dah, true), WindowEnd, WindowEnd, WindowEnd]);
    assert_eq!(out, "----");
    assert_eq!(keyer.state(), KeyerState::Dah);
}

#[test]
fn held_paddle_takes_over_after_other_element() {
    let mut keyer = Keyer::new(20, Mode::IambicA, 1);
    let out = traced(
        &mut keyer,
        &[Paddle(Dah, true), Paddle(Dah, false), Paddle(Dit, true), WindowEnd, WindowEnd, WindowEnd],
    );
    assert_eq!(out, "-...");
}

#[test]
fn iambic_squeeze_alternates() {
    let mut keyer = Keyer::new(20, Mode::IambicA, 1);
    keyer.key(Dit, true);
    assert_eq!(keyer.state(), KeyerState::Dit);
    keyer.key(Dah, true);
    assert_eq!(keyer.state(), KeyerState::Dit);
    let mut expected = KeyerState::Dah;
    for _ in 0..20 {
        assert_eq!(keyer.advance(), expected);
        expected = expected.opposite();
    }
}

#[test]
fn iambic_squeeze_starts_with_first_press() {
    let mut keyer = Keyer::new(20, Mode::IambicA, 1);
    let out = traced(
        &mut keyer,
        &[Paddle(Dah, true), Paddle(Dit, true), WindowEnd, WindowEnd, WindowEnd, WindowEnd],
    );
    assert_eq!(out, "-.-.-");
}

#[test]
fn iambic_squeeze_ends_when_released() {
    let mut keyer = Keyer::new(20, Mode::IambicA, 1);
    let out = traced(
        &mut keyer,
        &[
            Paddle(Dit, true),
            Paddle(Dah, true),
            WindowEnd,
            WindowEnd,
            Paddle(Dit, false),
            Paddle(Dah, false),
            WindowEnd,
        ],
    );
    assert_eq!(out, ".-. ");
    assert_eq!(keyer.state(), KeyerState::Idle);
}

#[test]
fn ultimatic_squeeze_repeats() {
    let mut keyer = Keyer::new(20, Mode::Ultimatic, 1);
    keyer.key(Dit, true);
    keyer.key(Dah, true);
    assert_eq!(keyer.state(), KeyerState::Dit);
    for _ in 0..20 {
        assert_eq!(keyer.advance(), KeyerState::Dah);
    }
    let mut keyer = Keyer::new(20, Mode::Ultimatic, 1);
    let out = traced(
        &mut keyer,
        &[Paddle(Dah, true), Paddle(Dit, true), WindowEnd, WindowEnd, WindowEnd],
    );
    assert_eq!(out, "-...");
}

#[test]
fn ultimatic_squeeze_without_queue_keeps_element() {
    // The second paddle goes down in one window and is taken from the queue
    // at its end; from then on nothing is queued and the squeeze holds.
    let mut keyer = Keyer::new(20, Mode::Ultimatic, 4);
    keyer.key(Dah, true);
    keyer.key(Dit, true);
    assert_eq!(keyer.advance(), KeyerState::Dit);
    keyer.key(Dah, false);
    keyer.key(Dah, true);
    assert_eq!(keyer.advance(), KeyerState::Dah);
    assert_eq!(keyer.advance(), KeyerState::Dah);
    assert_eq!(keyer.advance(), KeyerState::Dah);
}

#[test]
fn tap_during_element_is_next() {
    for mode in [Mode::IambicA, Mode::Ultimatic] {
        let mut keyer = Keyer::new(20, mode, 1);
        let out = traced(
            &mut keyer,
            &[
                Paddle(Dit, true),
                Paddle(Dit, false),
                Paddle(Dah, true),
                Paddle(Dah, false),
                WindowEnd,
                WindowEnd,
            ],
        );
        assert_eq!(out, ".- ");
        assert_eq!(keyer.state(), KeyerState::Idle);
    }
}

#[test]
fn queued_press_beats_held_paddle() {
    let mut keyer = Keyer::new(20, Mode::Ultimatic, 1);
    keyer.key(Dit, true);
    keyer.key(Dah, true);
    keyer.key(Dah, false);
    assert_eq!(keyer.paddle(), PaddleState { dit: true, dah: false });
    assert_eq!(keyer.advance(), KeyerState::Dah);
    assert_eq!(keyer.advance(), KeyerState::Dit);
}

#[test]
fn release_of_released_paddle_is_noop() {
    let mut paddle = PaddleState { dit: false, dah: true };
    paddle.key(Dit, false);
    assert_eq!(paddle, PaddleState { dit: false, dah: true });
    let mut paddle = PaddleState { dit: true, dah: false };
    paddle.key(Dah, false);
    assert_eq!(paddle, PaddleState { dit: true, dah: false });

    let mut keyer = Keyer::new(20, Mode::IambicA, 1);
    keyer.key(Dit, true);
    keyer.key(Dah, false);
    keyer.key(Dah, false);
    assert_eq!(keyer.state(), KeyerState::Dit);
    assert_eq!(keyer.paddle(), PaddleState { dit: true, dah: false });
    // Nothing was queued: the held dit decides.
    assert_eq!(keyer.advance(), KeyerState::Dit);
    keyer.key(Dit, false);
    assert_eq!(keyer.advance(), KeyerState::Idle);
}

#[test]
fn paddle_key_sets_one_side() {
    let mut paddle = PaddleState::default();
    assert_eq!(paddle, PaddleState { dit: false, dah: false });
    paddle.key(Dit, true);
    assert_eq!(paddle, PaddleState { dit: true, dah: false });
    paddle.key(Dah, true);
    assert_eq!(paddle, PaddleState { dit: true, dah: true });
    paddle.key(Dit, true);
    assert_eq!(paddle, PaddleState { dit: true, dah: true });
    paddle.key(Dit, false);
    assert_eq!(paddle, PaddleState { dit: false, dah: true });
    paddle.key(Dah, false);
    assert_eq!(paddle, PaddleState { dit: false, dah: false });
}

#[test]
fn paddle_follows_events_while_sending() {
    let mut keyer = Keyer::new(20, Mode::IambicA, 2);
    keyer.key(Dit, true);
    keyer.key(Dah, true);
    assert_eq!(keyer.paddle(), PaddleState { dit: true, dah: true });
    keyer.key(Dit, false);
    assert_eq!(keyer.paddle(), PaddleState { dit: false, dah: true });
    keyer.advance();
    assert_eq!(keyer.paddle(), PaddleState { dit: false, dah: true });
}

#[test]
fn queue_of_one_keeps_latest_press() {
    let mut keyer = Keyer::new(20, Mode::Ultimatic, 1);
    keyer.key(Dit, true);
    keyer.key(Dit, false);
    keyer.key(Dah, true);
    keyer.key(Dah, false);
    keyer.key(Dit, true);
    keyer.key(Dit, false);
    // Only the dit is left: the dah was overwritten.
    assert_eq!(keyer.advance(), KeyerState::Dit);
    assert_eq!(keyer.advance(), KeyerState::Idle);

    let mut keyer = Keyer::new(20, Mode::Ultimatic, 1);
    keyer.key(Dit, true);
    keyer.key(Dit, false);
    keyer.key(Dit, true);
    keyer.key(Dit, false);
    keyer.key(Dah, true);
    keyer.key(Dah, false);
    assert_eq!(keyer.advance(), KeyerState::Dah);
    assert_eq!(keyer.advance(), KeyerState::Idle);
}

#[test]
fn queue_is_first_in_first_out() {
    let mut keyer = Keyer::new(20, Mode::Ultimatic, 3);
    let out = traced(
        &mut keyer,
        &[
            Paddle(Dit, true),
            Paddle(Dit, false),
            Paddle(Dah, true),
            Paddle(Dah, false),
            Paddle(Dah, true),
            Paddle(Dah, false),
            Paddle(Dit, true),
            Paddle(Dit, false),
            WindowEnd,
            WindowEnd,
            WindowEnd,
            WindowEnd,
        ],
    );
    assert_eq!(out, ".--. ");
}

#[test]
fn full_queue_drops_oldest_press() {
    let mut keyer = Keyer::new(20, Mode::Ultimatic, 2);
    let out = traced(
        &mut keyer,
        &[
            Paddle(Dit, true),
            Paddle(Dit, false),
            Paddle(Dah, true),
            Paddle(Dah, false),
            Paddle(Dit, true),
            Paddle(Dit, false),
            Paddle(Dit, true),
            Paddle(Dit, false),
            WindowEnd,
            WindowEnd,
            WindowEnd,
        ],
    );
    // Three presses were made while the first dit was sent; the dah, the
    // oldest of them, did not fit.
    assert_eq!(out, "... ");
}

#[test]
fn one_dequeue_per_window() {
    let mut keyer = Keyer::new(20, Mode::IambicA, 2);
    keyer.key(Dah, true);
    keyer.key(Dah, false);
    keyer.key(Dit, true);
    keyer.key(Dit, false);
    keyer.key(Dah, true);
    keyer.key(Dah, false);
    assert_eq!(keyer.advance(), KeyerState::Dit);
    // The second press is still queued and comes after the first.
    assert_eq!(keyer.advance(), KeyerState::Dah);
    assert_eq!(keyer.advance(), KeyerState::Idle);
}

#[test]
fn press_while_idle_is_not_queued() {
    let mut keyer = Keyer::new(20, Mode::IambicA, 4);
    keyer.key(Dah, true);
    keyer.key(Dah, false);
    assert_eq!(keyer.state(), KeyerState::Dah);
    // Had the press been queued as well, another dah would follow.
    assert_eq!(keyer.advance(), KeyerState::Idle);
}

#[test]
fn window_is_element_plus_one_dit() {
    let mut keyer = Keyer::new(20, Mode::IambicA, 1);
    keyer.key(Dit, true);
    assert_eq!(keyer.window_ms(), 120);
    keyer.key(Dah, true);
    assert_eq!(keyer.advance(), KeyerState::Dah);
    assert_eq!(keyer.window_ms(), 240);

    let mut keyer = Keyer::new(13, Mode::IambicA, 1);
    keyer.key(Dah, true);
    assert_eq!(keyer.settings().dit_length, 92);
    assert_eq!(keyer.settings().dah_length, 276);
    assert_eq!(keyer.window_ms(), 368);
}

#[test]
fn settings_make_dah_three_dits() {
    let settings = KeyerSettings::new(Mode::IambicA, 60);
    assert_eq!(settings.mode, Mode::IambicA);
    assert_eq!(settings.dit_length, 60);
    assert_eq!(settings.dah_length, 180);
    let settings = KeyerSettings::new(Mode::Ultimatic, 0);
    assert_eq!(settings.dah_length, 0);
    let settings = KeyerSettings::new(Mode::Ultimatic, u64::MAX / 4);
    assert_eq!(settings.dah_length, (u64::MAX / 4) * 3);
}

#[test]
fn opposite_swaps_elements() {
    assert_eq!(KeyerState::Dit.opposite(), KeyerState::Dah);
    assert_eq!(KeyerState::Dah.opposite(), KeyerState::Dit);
}

#[test]
fn states_and_signs_convert() {
    assert_eq!(KeyerState::from(Dit), KeyerState::Dit);
    assert_eq!(KeyerState::from(Dah), KeyerState::Dah);
    let state: KeyerState = Dah.into();
    assert_eq!(state, KeyerState::Dah);
    assert_eq!(MorseSign::from_state(KeyerState::Dit), Dit);
    assert_eq!(MorseSign::from_state(KeyerState::Dah), Dah);
}

#[test]
fn defaults_are_idle_and_dit() {
    assert_eq!(KeyerState::default(), KeyerState::Idle);
    assert_eq!(MorseSign::default(), Dit);
    assert_eq!(PaddleState::default(), PaddleState { dit: false, dah: false });
}

#[test]
fn print_sign_appends_symbol() {
    let mut out = String::new();
    print_sign(&mut out, KeyerState::Dit);
    assert_eq!(out, ".");
    print_sign(&mut out, KeyerState::Dah);
    assert_eq!(out, ".-");
    print_sign(&mut out, KeyerState::Idle);
    assert_eq!(out, ".- ");
    let mut out = String::from("sos: ");
    print_sign(&mut out, KeyerState::Dit);
    assert_eq!(out, "sos: .");
}

#[test]
fn run_appends_to_what_was_traced() {
    let mut keyer = Keyer::new(25, Mode::IambicA, 1);
    let mut out = String::from(">");
    keyer.run(&[], &mut out);
    assert_eq!(out, ">");
    keyer.run(&[Paddle(Dit, true)], &mut out);
    assert_eq!(out, ">.");
    keyer.run(&[Paddle(Dah, true), WindowEnd], &mut out);
    assert_eq!(out, ">.-");
    keyer.run(&[Paddle(Dit, false), Paddle(Dah, false), WindowEnd], &mut out);
    assert_eq!(out, ">.- ");
}
