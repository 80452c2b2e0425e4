//! An iambic Morse keyer: paddle contacts in, timed dits and dahs out.
//!
//! The crate holds the keyer's state machine and the rules around it. Audio,
//! the console and the input device are driven by the program that embeds it.

use std::str::FromStr;
use vstd::prelude::*;

pub mod audio;
pub mod keyer;
pub mod laws;
pub mod midi;
pub mod options;
pub mod queue;
pub mod timing;

verus! {

/// How a squeeze (both paddles held, nothing queued) is resolved.
#[derive(Clone, Copy, Debug, PartialEq, Eq, Structural)]
pub enum Mode {
    /// Alternate: the next element is the opposite of the one just sent.
    IambicA,
    /// Hold: the next element repeats the one just sent.
    Ultimatic,
}

/// A paddle side, which is also the element that side keys.
#[derive(Clone, Copy, Debug, PartialEq, Eq, Structural)]
pub enum MorseSign {
    Dit,
    Dah,
}

impl Default for MorseSign {
    fn default() -> (sign: Self)
        ensures
            sign == MorseSign::Dit,
    {
        MorseSign::Dit
    }
}

impl Mode {
    /// The mode that a one-letter name stands for, if any.
    pub open spec fn named(name: Seq<char>) -> Option<Mode> {
        if name.len() == 1 && name[0] == 'a' {
            Some(Mode::IambicA)
        } else if name.len() == 1 && name[0] == 'u' {
            Some(Mode::Ultimatic)
        } else {
            None
        }
    }
}

impl FromStr for Mode {
    type Err = &'static str;

    fn from_str(s: &str) -> (parsed: Result<Self, Self::Err>)
        ensures
            match Mode::named(s@) {
                Some(mode) => parsed is Ok && parsed->Ok_0 == mode,
                None => parsed is Err && parsed->Err_0@ == "invalid mode"@,
            },
    {
        if s.unicode_len() == 1 {
            let c = s.get_char(0);
            if c == 'a' {
                return Ok(Mode::IambicA);
            }
            if c == 'u' {
                return Ok(Mode::Ultimatic);
            }
        }
        Err("invalid mode")
    }
}

} // verus!
