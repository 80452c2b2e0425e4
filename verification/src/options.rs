//! The keyer's command-line options: their names and their defaults.
//!
//! Walking the argument list and reading numbers is the program's part. The
//! library says which option a name stands for and what holds when an option
//! is not given.

use crate::Mode;
use vstd::prelude::*;

verus! {

/// An option of the command line.
#[derive(Clone, Copy, Debug, PartialEq, Eq, Structural)]
pub enum Opt {
    /// `-h`, `--help`: show the help text.
    Help,
    /// `--version`: show the version.
    Version,
    /// `-f`, `--freq`: the sidetone's frequency.
    Freq,
    /// `-w`, `--wpm`: the speed in words per minute.
    Wpm,
    /// `-m`, `--mode`: the squeeze mode.
    Mode,
    /// `-b`, `--buffer`: how many presses the queue remembers.
    Buffer,
}

/// The option that a single letter stands for.
pub open spec fn short_name(letter: char) -> Option<Opt> {
    if letter == 'h' {
        Some(Opt::Help)
    } else if letter == 'f' {
        Some(Opt::Freq)
    } else if letter == 'w' {
        Some(Opt::Wpm)
    } else if letter == 'm' {
        Some(Opt::Mode)
    } else if letter == 'b' {
        Some(Opt::Buffer)
    } else {
        None
    }
}

/// The option that a long name stands for.
pub open spec fn long_name(name: Seq<char>) -> Option<Opt> {
    if name == "help"@ {
        Some(Opt::Help)
    } else if name == "version"@ {
        Some(Opt::Version)
    } else if name == "freq"@ {
        Some(Opt::Freq)
    } else if name == "wpm"@ {
        Some(Opt::Wpm)
    } else if name == "mode"@ {
        Some(Opt::Mode)
    } else if name == "buffer"@ {
        Some(Opt::Buffer)
    } else {
        None
    }
}

/// Whether two strings hold the same characters.
fn same_text(a: &str, b: &str) -> (same: bool)
    ensures
        same == (a@ == b@),
{
    let n = a.unicode_len();
    if n != b.unicode_len() {
        return false;
    }
    let mut i: usize = 0;
    while i < n
        invariant
            n == a@.len(),
            n == b@.len(),
            i <= n,
            forall|j: int| 0 <= j < i ==> a@[j] == b@[j],
        decreases n - i,
    {
        if a.get_char(i) != b.get_char(i) {
            return false;
        }
        i = i + 1;
    }
    assert(a@ =~= b@);
    true
}

/// The option that a single letter stands for, if any.
pub fn short_option(letter: char) -> (opt: Option<Opt>)
    ensures
        opt == short_name(letter),
{
    if letter == 'h' {
        Some(Opt::Help)
    } else if letter == 'f' {
        Some(Opt::Freq)
    } else if letter == 'w' {
        Some(Opt::Wpm)
    } else if letter == 'm' {
        Some(Opt::Mode)
    } else if letter == 'b' {
        Some(Opt::Buffer)
    } else {
        None
    }
}

/// The option that a long name stands for, if any.
pub fn long_option(name: &str) -> (opt: Option<Opt>)
    ensures
        opt == long_name(name@),
{
    if same_text(name, "help") {
        Some(Opt::Help)
    } else if same_text(name, "version") {
        Some(Opt::Version)
    } else if same_text(name, "freq") {
        Some(Opt::Freq)
    } else if same_text(name, "wpm") {
        Some(Opt::Wpm)
    } else if same_text(name, "mode") {
        Some(Opt::Mode)
    } else if same_text(name, "buffer") {
        Some(Opt::Buffer)
    } else {
        None
    }
}

/// What the command line settles of the engine.
#[derive(Clone, Copy, Debug, PartialEq, Eq, Structural)]
pub struct Args {
    /// Speed in words per minute.
    pub wpm: u8,
    /// The squeeze mode.
    pub mode: Mode,
    /// How many presses the queue remembers.
    pub buffer_size: u8,
}

impl Args {
    /// What holds when no option is given: 20 words per minute, ultimatic,
    /// a queue of one.
    pub open spec fn defaults() -> Args {
        Args { wpm: 20, mode: Mode::Ultimatic, buffer_size: 1 }
    }

    /// Whether an engine can be made of these: the speed and the queue's
    /// size are at least one.
    pub open spec fn usable(self) -> bool {
        self.wpm >= 1 && self.buffer_size >= 1
    }

    /// Whether an engine can be made of these.
    pub fn is_usable(&self) -> (usable: bool)
        ensures
            usable == self.usable(),
    {
        self.wpm >= 1 && self.buffer_size >= 1
    }
}

impl Default for Args {
    fn default() -> (args: Self)
        ensures
            args == Args::defaults(),
    {
        Args { wpm: 20, mode: Mode::Ultimatic, buffer_size: 1 }
    }
}

} // verus!
