//! The sidetone's envelope: where a tone fades in and out.
//!
//! A tone that starts or stops at full level clicks. So the first and the
//! last fifteenth of its samples are ramped. The samples themselves are the
//! program's part; the library says which of them belong to a ramp.

use vstd::prelude::*;

verus! {

/// How many samples each ramp takes of a tone of `len` samples.
pub open spec fn ramp_len(len: nat) -> nat {
    len / 15
}

/// How many samples each ramp takes of a tone of `len` samples. The two
/// ramps never overlap.
pub fn fade_length(len: usize) -> (fade: usize)
    ensures
        fade == ramp_len(len as nat),
        2 * fade <= len,
{
    len / 15
}

/// The sample that step `step` of the fade-out falls on: the fade-out ends
/// with the tone's last sample.
pub fn fade_out_index(len: usize, step: usize) -> (index: usize)
    requires
        step < ramp_len(len as nat),
    ensures
        index == len - ramp_len(len as nat) + step,
        ramp_len(len as nat) <= index < len,
{
    len - len / 15 + step
}

} // verus!
