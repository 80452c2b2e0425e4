//! The keyer engine: a state machine over paddle events and elapsed windows.
//!
//! The engine is either idle or sending an element. While it is idle, a press
//! starts that side's element at once. While it sends, every event is recorded
//! and every press is queued; when the element's window has run out, the
//! engine decides what comes next. It never waits or plays a tone itself: the
//! caller feeds it events with [`Keyer::key`], lets the window of
//! [`Keyer::window_ms`] pass, and then calls [`Keyer::advance`]. The same can
//! be done one [`Input`] at a time with [`Keyer::step`], or for a recorded
//! sequence of inputs with [`Keyer::run`].
//!
//! Every contract speaks of the engine's model, [`KeyerModel`], whose
//! functions are the rules of the keyer written out.

use crate::queue::pushed;
use crate::queue::ElementQueue;
use crate::timing::dah_millis;
use crate::timing::dit_length;
use crate::timing::dit_millis;
use crate::Mode;
use crate::MorseSign;
use vstd::prelude::*;
use vstd::std_specs::convert::FromSpecImpl;
use vstd::string::StringExecFns;

verus! {

/// Which paddles are held down right now.
#[derive(Clone, Copy, Debug, PartialEq, Eq, Structural)]
pub struct PaddleState {
    pub dit: bool,
    pub dah: bool,
}

impl PaddleState {
    /// Both paddles up.
    pub open spec fn released() -> PaddleState {
        PaddleState { dit: false, dah: false }
    }

    /// Whether the paddle of the given side is down.
    pub open spec fn holds(self, sign: MorseSign) -> bool {
        match sign {
            MorseSign::Dit => self.dit,
            MorseSign::Dah => self.dah,
        }
    }

    /// The state after the paddle of the given side went down or up: that
    /// side is overwritten, the other side is kept.
    pub open spec fn keyed(self, sign: MorseSign, pressed: bool) -> PaddleState {
        match sign {
            MorseSign::Dit => PaddleState { dit: pressed, dah: self.dah },
            MorseSign::Dah => PaddleState { dit: self.dit, dah: pressed },
        }
    }

    /// Records that the paddle of the given side went down or up.
    pub fn key(&mut self, sign: MorseSign, pressed: bool)
        ensures
            *final(self) == old(self).keyed(sign, pressed),
    {
        match sign {
            MorseSign::Dit => self.dit = pressed,
            MorseSign::Dah => self.dah = pressed,
        }
    }
}

impl Default for PaddleState {
    fn default() -> (paddle: Self)
        ensures
            paddle == PaddleState::released(),
    {
        PaddleState { dit: false, dah: false }
    }
}

/// What the engine is doing: waiting for a first contact, or sending an
/// element and running its window.
#[derive(Clone, Copy, Debug, PartialEq, Eq, Structural)]
pub enum KeyerState {
    Idle,
    Dit,
    Dah,
}

impl KeyerState {
    /// The state in which the element of the given side is sent.
    pub open spec fn of(sign: MorseSign) -> KeyerState {
        match sign {
            MorseSign::Dit => KeyerState::Dit,
            MorseSign::Dah => KeyerState::Dah,
        }
    }

    /// Dit for dah and dah for dit. Idle has no opposite and stands for
    /// itself here.
    pub open spec fn flipped(self) -> KeyerState {
        match self {
            KeyerState::Dit => KeyerState::Dah,
            KeyerState::Dah => KeyerState::Dit,
            KeyerState::Idle => KeyerState::Idle,
        }
    }

    /// The character that traces the state: a dot, a dash, or a blank for
    /// the gap.
    pub open spec fn symbol(self) -> char {
        match self {
            KeyerState::Dit => '.',
            KeyerState::Dah => '-',
            KeyerState::Idle => ' ',
        }
    }

    /// The other element. Only an element has an opposite.
    pub fn opposite(&self) -> (other: Self)
        requires
            *self != KeyerState::Idle,
        ensures
            other == self.flipped(),
            other != KeyerState::Idle,
    {
        match self {
            KeyerState::Dit => KeyerState::Dah,
            _ => KeyerState::Dit,
        }
    }
}

impl Default for KeyerState {
    fn default() -> (state: Self)
        ensures
            state == KeyerState::Idle,
    {
        KeyerState::Idle
    }
}

impl From<MorseSign> for KeyerState {
    fn from(sign: MorseSign) -> (state: Self) {
        match sign {
            MorseSign::Dit => KeyerState::Dit,
            MorseSign::Dah => KeyerState::Dah,
        }
    }
}

impl FromSpecImpl<MorseSign> for KeyerState {
    open spec fn obeys_from_spec() -> bool {
        true
    }

    open spec fn from_spec(sign: MorseSign) -> KeyerState {
        KeyerState::of(sign)
    }
}

impl MorseSign {
    /// The element that is sent in the given state. Idle sends none.
    pub fn from_state(state: KeyerState) -> (sign: MorseSign)
        requires
            state != KeyerState::Idle,
        ensures
            KeyerState::of(sign) == state,
    {
        match state {
            KeyerState::Dit => MorseSign::Dit,
            _ => MorseSign::Dah,
        }
    }
}

/// Appends the character that traces `state` to `out`.
pub fn print_sign(out: &mut String, state: KeyerState)
    ensures
        final(out)@ == old(out)@.push(state.symbol()),
{
    let symbol = match state {
        KeyerState::Dit => {
            proof {
                reveal_strlit(".");
            }
            "."
        },
        KeyerState::Dah => {
            proof {
                reveal_strlit("-");
            }
            "-"
        },
        KeyerState::Idle => {
            proof {
                reveal_strlit(" ");
            }
            " "
        },
    };
    assert(symbol@ =~= seq![state.symbol()]);
    out.append(symbol);
}

/// What is fixed when the engine is made: the squeeze mode and the element
/// lengths, in milliseconds.
#[derive(Clone, Copy, Debug, PartialEq, Eq, Structural)]
pub struct KeyerSettings {
    pub mode: Mode,
    pub dit_length: u64,
    pub dah_length: u64,
}

impl KeyerSettings {
    /// A dah lasts exactly three dits, and the longest window, a dah and
    /// its space, fits the machine's integers.
    pub open spec fn wf(self) -> bool {
        &&& self.dah_length == 3 * self.dit_length
        &&& self.dah_length + self.dit_length <= u64::MAX
    }

    /// Settings for a dit of `dit_length` milliseconds.
    pub fn new(mode: Mode, dit_length: u64) -> (settings: Self)
        requires
            4 * dit_length <= u64::MAX,
        ensures
            settings.wf(),
            settings.mode == mode,
            settings.dit_length == dit_length,
            settings.dah_length == 3 * dit_length,
    {
        KeyerSettings { mode, dit_length, dah_length: dit_length * 3 }
    }
}

/// What can happen to the engine: a paddle goes down or up, or the window
/// of the element being sent runs out.
#[derive(Clone, Copy, Debug, PartialEq, Eq, Structural)]
pub enum Input {
    /// The paddle of the given side went down (`true`) or up (`false`).
    Paddle(MorseSign, bool),
    /// The window of the element being sent has run out.
    WindowEnd,
}

/// The engine as a mathematical value: what its contracts speak of.
pub struct KeyerModel {
    pub settings: KeyerSettings,
    pub state: KeyerState,
    pub paddle: PaddleState,
    /// Presses made during the current element, oldest first.
    pub queue: Seq<MorseSign>,
    /// The most presses the queue remembers.
    pub capacity: nat,
}

impl KeyerModel {
    /// An engine at rest: idle, both paddles up, nothing queued.
    pub open spec fn initial(settings: KeyerSettings, capacity: nat) -> KeyerModel {
        KeyerModel {
            settings,
            state: KeyerState::Idle,
            paddle: PaddleState::released(),
            queue: Seq::empty(),
            capacity,
        }
    }

    /// What holds of every engine: the queue respects its capacity, and an
    /// idle engine has both paddles up and nothing queued.
    pub open spec fn wf(self) -> bool {
        &&& self.settings.wf()
        &&& 1 <= self.capacity
        &&& self.queue.len() <= self.capacity
        &&& self.state == KeyerState::Idle ==> self.queue.len() == 0 && self.paddle
            == PaddleState::released()
    }

    /// The engine after one paddle event. The paddle state always follows the
    /// event. A press starts its element if the engine is idle, and is queued
    /// if an element is being sent; a release does neither.
    pub open spec fn key(self, sign: MorseSign, pressed: bool) -> KeyerModel {
        let paddle = self.paddle.keyed(sign, pressed);
        if !pressed {
            KeyerModel { paddle, ..self }
        } else if self.state == KeyerState::Idle {
            KeyerModel { paddle, state: KeyerState::of(sign), ..self }
        } else {
            KeyerModel { paddle, queue: pushed(self.queue, self.capacity, sign), ..self }
        }
    }

    /// The state that follows the current element. In this order: the oldest
    /// queued press; with both paddles down, the mode's choice (the opposite
    /// element in iambic A, the same element in ultimatic); the one paddle
    /// that is down; idle.
    pub open spec fn decided(self) -> KeyerState {
        if self.queue.len() > 0 {
            KeyerState::of(self.queue[0])
        } else if self.paddle.dit && self.paddle.dah {
            match self.settings.mode {
                Mode::IambicA => self.state.flipped(),
                Mode::Ultimatic => self.state,
            }
        } else if self.paddle.dit {
            KeyerState::Dit
        } else if self.paddle.dah {
            KeyerState::Dah
        } else {
            KeyerState::Idle
        }
    }

    /// The engine after the window of the current element has run out: it
    /// is in the decided state, and the press that decided it, if one did,
    /// has left the queue.
    pub open spec fn advance(self) -> KeyerModel {
        KeyerModel {
            state: self.decided(),
            queue: if self.queue.len() > 0 {
                self.queue.drop_first()
            } else {
                self.queue
            },
            ..self
        }
    }

    /// The length in milliseconds of the current element's window: the
    /// element and one dit of silence. There is no window while idle.
    pub open spec fn window(self) -> nat {
        match self.state {
            KeyerState::Dit => (2 * self.settings.dit_length) as nat,
            KeyerState::Dah => (self.settings.dah_length + self.settings.dit_length) as nat,
            KeyerState::Idle => 0,
        }
    }

    /// The engine after one input. No window runs while the engine is
    /// idle, so the end of one means nothing to it then.
    pub open spec fn step(self, input: Input) -> KeyerModel {
        match input {
            Input::Paddle(sign, pressed) => self.key(sign, pressed),
            Input::WindowEnd => if self.state == KeyerState::Idle {
                self
            } else {
                self.advance()
            },
        }
    }

    /// The state that an input makes the engine enter, if it enters one: an
    /// element that starts, from idle or after another element, or the gap
    /// after the last element.
    pub open spec fn entered(self, input: Input) -> Option<KeyerState> {
        match input {
            Input::Paddle(sign, pressed) => if self.state == KeyerState::Idle && pressed {
                Some(KeyerState::of(sign))
            } else {
                None
            },
            Input::WindowEnd => if self.state == KeyerState::Idle {
                None
            } else {
                Some(self.decided())
            },
        }
    }

    /// The engine after a sequence of inputs, taken in order.
    pub open spec fn run(self, inputs: Seq<Input>) -> KeyerModel
        decreases inputs.len(),
    {
        if inputs.len() == 0 {
            self
        } else {
            self.run(inputs.drop_last()).step(inputs.last())
        }
    }

    /// What a sequence of inputs traces: the symbol of every state entered,
    /// in order.
    pub open spec fn trace(self, inputs: Seq<Input>) -> Seq<char>
        decreases inputs.len(),
    {
        if inputs.len() == 0 {
            Seq::empty()
        } else {
            let before = self.trace(inputs.drop_last());
            match self.run(inputs.drop_last()).entered(inputs.last()) {
                Some(state) => before.push(state.symbol()),
                None => before,
            }
        }
    }
}

/// The keyer engine.
pub struct Keyer {
    settings: KeyerSettings,
    state: KeyerState,
    paddle: PaddleState,
    queue: ElementQueue,
}

impl View for Keyer {
    type V = KeyerModel;

    closed spec fn view(&self) -> KeyerModel {
        KeyerModel {
            settings: self.settings,
            state: self.state,
            paddle: self.paddle,
            queue: self.queue@,
            capacity: self.queue.limit(),
        }
    }
}

impl Keyer {
    /// The engine's invariant: the queue and the settings are well-formed,
    /// and an idle engine has both paddles up and nothing queued.
    pub closed spec fn wf(&self) -> bool {
        &&& self.queue.wf()
        &&& self.settings.wf()
        &&& self.state == KeyerState::Idle ==> self.queue@.len() == 0 && self.paddle
            == PaddleState::released()
    }

    /// A well-formed engine has a well-formed model.
    pub proof fn lemma_wf_model(&self)
        requires
            self.wf(),
        ensures
            self@.wf(),
    {
        self.queue.lemma_wf_bounds();
    }

    /// An idle engine for `wpm` words per minute that remembers up to
    /// `buffer_size` presses made while an element is sent.
    pub fn new(wpm: u8, mode: Mode, buffer_size: u8) -> (keyer: Self)
        requires
            wpm >= 1,
            buffer_size >= 1,
        ensures
            keyer.wf(),
            keyer@.settings.mode == mode,
            keyer@.settings.dit_length == dit_millis(wpm as nat),
            keyer@.settings.dah_length == dah_millis(wpm as nat),
            2 * 1200 - wpm < 2 * wpm * keyer@.settings.dit_length <= 2 * 1200 + wpm,
            keyer@ == KeyerModel::initial(keyer@.settings, buffer_size as nat),
    {
        let settings = KeyerSettings::new(mode, dit_length(wpm));
        Keyer {
            settings,
            state: KeyerState::Idle,
            paddle: PaddleState { dit: false, dah: false },
            queue: ElementQueue::new(buffer_size),
        }
    }

    /// The squeeze mode and the element lengths.
    pub fn settings(&self) -> (settings: KeyerSettings)
        ensures
            settings == self@.settings,
    {
        self.settings
    }

    /// What the engine is doing.
    pub fn state(&self) -> (state: KeyerState)
        ensures
            state == self@.state,
    {
        self.state
    }

    /// Which paddles are down.
    pub fn paddle(&self) -> (paddle: PaddleState)
        ensures
            paddle == self@.paddle,
    {
        self.paddle
    }

    /// The most presses the queue remembers.
    pub fn buffer_size(&self) -> (capacity: u8)
        ensures
            capacity == self@.capacity,
    {
        self.queue.capacity()
    }

    /// The length in milliseconds of the window of the element being sent.
    pub fn window_ms(&self) -> (ms: u64)
        requires
            self.wf(),
            self@.state != KeyerState::Idle,
        ensures
            ms == self@.window(),
    {
        match self.state {
            KeyerState::Dit => self.settings.dit_length + self.settings.dit_length,
            _ => self.settings.dah_length + self.settings.dit_length,
        }
    }

    /// Takes in one paddle event.
    pub fn key(&mut self, sign: MorseSign, pressed: bool)
        requires
            old(self).wf(),
        ensures
            final(self).wf(),
            final(self)@ == old(self)@.key(sign, pressed),
    {
        self.paddle.key(sign, pressed);
        if pressed {
            match self.state {
                KeyerState::Idle => {
                    self.state = KeyerState::from(sign);
                },
                _ => {
                    self.queue.enqueue(sign);
                },
            }
        }
    }

    /// Ends the current element's window and moves to the state that
    /// follows, which it returns.
    pub fn advance(&mut self) -> (next: KeyerState)
        requires
            old(self).wf(),
        ensures
            final(self).wf(),
            final(self)@ == old(self)@.advance(),
            next == old(self)@.decided(),
    {
        let next = match self.queue.dequeue() {
            Some(sign) => KeyerState::from(sign),
            None => {
                if self.paddle.dit && self.paddle.dah {
                    match self.settings.mode {
                        Mode::IambicA => self.state.opposite(),
                        Mode::Ultimatic => self.state,
                    }
                } else if self.paddle.dit {
                    KeyerState::Dit
                } else if self.paddle.dah {
                    KeyerState::Dah
                } else {
                    KeyerState::Idle
                }
            },
        };
        self.state = next;
        next
    }

    /// Takes in one input and returns the state that the engine enters by
    /// it, if it enters one. For an element that is the moment to sound its
    /// tone, trace its symbol and start its window; for idle, to trace the
    /// gap.
    pub fn step(&mut self, input: Input) -> (entered: Option<KeyerState>)
        requires
            old(self).wf(),
        ensures
            final(self).wf(),
            final(self)@ == old(self)@.step(input),
            entered == old(self)@.entered(input),
    {
        match input {
            Input::Paddle(sign, pressed) => {
                let idle = self.state == KeyerState::Idle;
                self.key(sign, pressed);
                if idle && pressed {
                    Some(self.state)
                } else {
                    None
                }
            },
            Input::WindowEnd => {
                if self.state == KeyerState::Idle {
                    None
                } else {
                    Some(self.advance())
                }
            },
        }
    }

    /// Takes in a sequence of inputs, in order, and appends to `out` the
    /// symbol of every state entered on the way.
    pub fn run(&mut self, inputs: &[Input], out: &mut String)
        requires
            old(self).wf(),
        ensures
            final(self).wf(),
            final(self)@ == old(self)@.run(inputs@),
            final(out)@ == old(out)@ + old(self)@.trace(inputs@),
    {
        let ghost start = self@;
        let ghost printed = out@;
        let mut i: usize = 0;
        assert(inputs@.take(0) =~= Seq::<Input>::empty());
        while i < inputs.len()
            invariant
                i <= inputs.len(),
                self.wf(),
                self@ == start.run(inputs@.take(i as int)),
                out@ == printed + start.trace(inputs@.take(i as int)),
            decreases inputs.len() - i,
        {
            let ghost before = inputs@.take(i as int);
            let ghost now = inputs@.take(i + 1);
            assert(now.drop_last() =~= before);
            assert(now.last() == inputs@[i as int]);
            match self.step(inputs[i]) {
                Some(state) => print_sign(out, state),
                None => {},
            }
            i = i + 1;
        }
        assert(inputs@.take(i as int) =~= inputs@);
    }
}

} // verus!
