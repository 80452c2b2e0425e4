//! What follows from the engine's rules, proved over its model.

use crate::keyer::Input;
use crate::keyer::KeyerModel;
use crate::keyer::KeyerState;
use crate::keyer::PaddleState;
use crate::Mode;
use crate::MorseSign;
use vstd::prelude::*;

verus! {

/// The engine after `n` windows have run out with no event in between.
pub open spec fn after_windows(m: KeyerModel, n: nat) -> KeyerModel
    decreases n,
{
    if n == 0 {
        m
    } else {
        after_windows(m, (n - 1) as nat).advance()
    }
}

/// A paddle event keeps a well-formed engine well-formed.
pub proof fn lemma_key_keeps_wf(m: KeyerModel, sign: MorseSign, pressed: bool)
    requires
        m.wf(),
    ensures
        m.key(sign, pressed).wf(),
{
}

/// The end of a window keeps a well-formed engine well-formed, and only an
/// engine with both paddles up and nothing queued goes idle.
pub proof fn lemma_advance_keeps_wf(m: KeyerModel)
    requires
        m.wf(),
    ensures
        m.advance().wf(),
        m.advance().state == KeyerState::Idle <==> m.queue.len() == 0 && m.paddle
            == PaddleState::released(),
{
}

/// Whatever the inputs, the engine stays well-formed: from its making on, a
/// dah is three dits, the queue respects its capacity, and an idle engine
/// has both paddles up and nothing queued.
pub proof fn lemma_run_keeps_wf(m: KeyerModel, inputs: Seq<Input>)
    requires
        m.wf(),
    ensures
        m.run(inputs).wf(),
        m.run(inputs).settings == m.settings,
        m.run(inputs).capacity == m.capacity,
    decreases inputs.len(),
{
    if inputs.len() > 0 {
        lemma_run_keeps_wf(m, inputs.drop_last());
    }
}

/// Neither an event nor the end of a window changes the settings or the
/// queue's capacity: a dah stays three dits long.
pub proof fn lemma_settings_are_fixed(m: KeyerModel, sign: MorseSign, pressed: bool)
    ensures
        m.key(sign, pressed).settings == m.settings,
        m.key(sign, pressed).capacity == m.capacity,
        m.advance().settings == m.settings,
        m.advance().capacity == m.capacity,
{
}

/// The paddle state always shows the latest event of each side, whatever
/// the engine is doing, and the end of a window leaves it alone.
pub proof fn lemma_paddle_follows_events(m: KeyerModel, sign: MorseSign, pressed: bool)
    ensures
        m.key(sign, pressed).paddle.holds(sign) == pressed,
        forall|other: MorseSign|
            other != sign ==> m.key(sign, pressed).paddle.holds(other) == m.paddle.holds(other),
        m.advance().paddle == m.paddle,
{
}

/// The queue gains entries only while an element is sent, and only from
/// presses; the end of a window takes at most the oldest entry out.
pub proof fn lemma_queue_changes(m: KeyerModel, sign: MorseSign, pressed: bool)
    ensures
        m.state == KeyerState::Idle || !pressed ==> m.key(sign, pressed).queue == m.queue,
        m.queue.len() == 0 ==> m.advance().queue == m.queue,
        m.queue.len() > 0 ==> m.advance().queue == m.queue.drop_first(),
{
}

/// Releasing a paddle that is not down changes nothing: not the paddle
/// state, not the queue, not the engine's state.
pub proof fn lemma_release_of_released_paddle(m: KeyerModel, sign: MorseSign)
    requires
        !m.paddle.holds(sign),
    ensures
        m.paddle.keyed(sign, false) == m.paddle,
        m.key(sign, false) == m,
{
}

/// From idle, one press and its release give one element and then the gap:
/// the engine is back where it was, and what it traced is the element's
/// symbol and a blank.
pub proof fn lemma_single_element(m: KeyerModel, sign: MorseSign)
    requires
        m.wf(),
        m.state == KeyerState::Idle,
    ensures
        m.key(sign, true).state == KeyerState::of(sign),
        m.key(sign, true).key(sign, false).advance() == m,
        m.run(seq![Input::Paddle(sign, true), Input::Paddle(sign, false), Input::WindowEnd]) == m,
        m.trace(seq![Input::Paddle(sign, true), Input::Paddle(sign, false), Input::WindowEnd])
            == seq![KeyerState::of(sign).symbol(), ' '],
{
    let press = Input::Paddle(sign, true);
    let release = Input::Paddle(sign, false);
    let none = Seq::<Input>::empty();
    let one = seq![press];
    let two = seq![press, release];
    let three = seq![press, release, Input::WindowEnd];
    assert(one.drop_last() =~= none);
    assert(two.drop_last() =~= one);
    assert(three.drop_last() =~= two);
    assert(m.run(none) == m);
    assert(m.run(one) == m.key(sign, true));
    assert(m.run(two) == m.key(sign, true).key(sign, false));
    assert(m.run(three) == m);
    assert(m.trace(none) =~= Seq::<char>::empty());
    assert(m.trace(one) =~= seq![KeyerState::of(sign).symbol()]);
    assert(m.trace(two) =~= seq![KeyerState::of(sign).symbol()]);
    assert(m.trace(three) =~= seq![KeyerState::of(sign).symbol(), ' ']);
}

/// With one paddle held down and nothing queued, every window ends in that
/// paddle's element, in either mode.
pub proof fn lemma_held_paddle_repeats(m: KeyerModel, sign: MorseSign, n: nat)
    requires
        m.queue.len() == 0,
        m.paddle == PaddleState::released().keyed(sign, true),
        n >= 1,
    ensures
        after_windows(m, n) == (KeyerModel { state: KeyerState::of(sign), ..m }),
    decreases n,
{
    if n > 1 {
        lemma_held_paddle_repeats(m, sign, (n - 1) as nat);
    } else {
        assert(after_windows(m, 0) == m);
    }
}

/// From idle, pressing one paddle and holding it sends that paddle's
/// element over and over.
pub proof fn lemma_press_and_hold(m: KeyerModel, sign: MorseSign, n: nat)
    requires
        m.wf(),
        m.state == KeyerState::Idle,
    ensures
        after_windows(m.key(sign, true), n).state == KeyerState::of(sign),
{
    if n >= 1 {
        lemma_held_paddle_repeats(m.key(sign, true), sign, n);
    }
}

/// In iambic A, with both paddles held down and nothing queued, the
/// elements alternate.
pub proof fn lemma_iambic_squeeze_alternates(m: KeyerModel, n: nat)
    requires
        m.settings.mode == Mode::IambicA,
        m.state != KeyerState::Idle,
        m.paddle.dit && m.paddle.dah,
        m.queue.len() == 0,
    ensures
        after_windows(m, n) == (KeyerModel {
            state: if n % 2 == 0 {
                m.state
            } else {
                m.state.flipped()
            },
            ..m
        }),
    decreases n,
{
    if n >= 1 {
        lemma_iambic_squeeze_alternates(m, (n - 1) as nat);
    }
}

/// In ultimatic, with both paddles held down and nothing queued, the same
/// element repeats.
pub proof fn lemma_ultimatic_squeeze_repeats(m: KeyerModel, n: nat)
    requires
        m.settings.mode == Mode::Ultimatic,
        m.paddle.dit && m.paddle.dah,
        m.queue.len() == 0,
    ensures
        after_windows(m, n) == m,
    decreases n,
{
    if n >= 1 {
        lemma_ultimatic_squeeze_repeats(m, (n - 1) as nat);
    }
}

/// A squeeze from idle: the side whose press comes first is sent first, the
/// other side second. From there iambic A alternates, and ultimatic stays
/// with the second side.
pub proof fn lemma_squeeze_from_idle(m: KeyerModel, first: MorseSign, second: MorseSign, n: nat)
    requires
        m.wf(),
        m.state == KeyerState::Idle,
        first != second,
    ensures
        ({
            let squeezed = m.key(first, true).key(second, true);
            &&& squeezed.state == KeyerState::of(first)
            &&& m.settings.mode == Mode::IambicA ==> after_windows(squeezed, n).state == if n % 2
                == 0 {
                KeyerState::of(first)
            } else {
                KeyerState::of(second)
            }
            &&& m.settings.mode == Mode::Ultimatic && n >= 1 ==> after_windows(squeezed, n).state
                == KeyerState::of(second)
        }),
{
    let squeezed = m.key(first, true).key(second, true);
    assert(squeezed.queue =~= seq![second]);
    let sent = squeezed.advance();
    assert(sent.queue.len() == 0);
    assert(sent.state == KeyerState::of(second));
    assert(sent.paddle.dit && sent.paddle.dah);
    if n >= 1 {
        lemma_windows_shift(squeezed, (n - 1) as nat);
        match m.settings.mode {
            Mode::IambicA => lemma_iambic_squeeze_alternates(sent, (n - 1) as nat),
            Mode::Ultimatic => lemma_ultimatic_squeeze_repeats(sent, (n - 1) as nat),
        }
    }
}

/// `n` window ends in a row, as inputs.
pub open spec fn windows(n: nat) -> Seq<Input> {
    Seq::new(n, |i: int| Input::WindowEnd)
}

/// Inputs are taken in order: running two sequences one after the other is
/// running them joined, and traces what each of them traces.
pub proof fn lemma_run_in_order(m: KeyerModel, first: Seq<Input>, second: Seq<Input>)
    ensures
        m.run(first + second) == m.run(first).run(second),
        m.trace(first + second) == m.trace(first) + m.run(first).trace(second),
    decreases second.len(),
{
    if second.len() == 0 {
        assert(first + second =~= first);
    } else {
        lemma_run_in_order(m, first, second.drop_last());
        assert((first + second).drop_last() =~= first + second.drop_last());
        assert((first + second).last() == second.last());
    }
}

/// Running `n` window ends is letting `n` windows run out, and every
/// window that ends while an element is sent traces the state it ends in.
pub proof fn lemma_run_of_windows(m: KeyerModel, n: nat)
    requires
        m.wf(),
    ensures
        m.run(windows(n)) == after_windows(m, n),
        after_windows(m, n).wf(),
        (forall|k: nat| k < n ==> (#[trigger] after_windows(m, k)).state != KeyerState::Idle)
            ==> m.trace(windows(n)) == Seq::new(
            n,
            |k: int| after_windows(m, (k + 1) as nat).state.symbol(),
        ),
    decreases n,
{
    if n >= 1 {
        let before = (n - 1) as nat;
        lemma_run_of_windows(m, before);
        lemma_advance_keeps_wf(after_windows(m, before));
        assert(windows(n).drop_last() =~= windows(before));
        if forall|k: nat| k < n ==> (#[trigger] after_windows(m, k)).state != KeyerState::Idle {
            assert(after_windows(m, before).state != KeyerState::Idle);
            assert(m.trace(windows(n)) =~= Seq::new(
                n,
                |k: int| after_windows(m, (k + 1) as nat).state.symbol(),
            ));
        }
    } else {
        assert(m.trace(windows(n)) =~= Seq::new(
            n,
            |k: int| after_windows(m, (k + 1) as nat).state.symbol(),
        ));
    }
}

/// Letting one window run out and then `n` more is letting `n + 1` run out.
pub proof fn lemma_windows_shift(m: KeyerModel, n: nat)
    ensures
        after_windows(m.advance(), n) == after_windows(m, n + 1),
    decreases n,
{
    if n >= 1 {
        lemma_windows_shift(m, (n - 1) as nat);
    } else {
        assert(after_windows(m, 0) == m);
    }
}

/// A queued press decides the next element, whatever the paddles are doing
/// when the window runs out.
pub proof fn lemma_queue_comes_first(m: KeyerModel)
    requires
        m.queue.len() > 0,
    ensures
        m.advance().state == KeyerState::of(m.queue[0]),
{
}

/// A press made and released while an element is sent, with nothing queued
/// before it, makes that side the next element, whichever paddles are down
/// when the window runs out.
pub proof fn lemma_tap_during_element_is_next(m: KeyerModel, sign: MorseSign)
    requires
        m.wf(),
        m.state != KeyerState::Idle,
        m.queue.len() == 0,
    ensures
        m.key(sign, true).key(sign, false).advance().state == KeyerState::of(sign),
{
}

/// A queue that is full drops its oldest entry for a new press, and so
/// stays full.
pub proof fn lemma_full_queue_overwrites_oldest(m: KeyerModel, sign: MorseSign)
    requires
        m.wf(),
        m.state != KeyerState::Idle,
        m.queue.len() == m.capacity,
    ensures
        m.key(sign, true).queue == m.queue.drop_first().push(sign),
        m.key(sign, true).queue.len() == m.capacity,
{
}

/// A queue of capacity one holds the latest press made while an element is
/// sent, and nothing else.
pub proof fn lemma_capacity_one_keeps_latest(m: KeyerModel, earlier: MorseSign, latest: MorseSign)
    requires
        m.wf(),
        m.state != KeyerState::Idle,
        m.capacity == 1,
    ensures
        m.key(latest, true).queue == seq![latest],
        m.key(earlier, true).key(latest, true).queue == seq![latest],
{
    lemma_key_keeps_wf(m, earlier, true);
}

} // verus!
