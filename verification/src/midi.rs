//! Paddle events from MIDI: the paddles arrive as notes.
//!
//! The dit paddle is note 1 and the dah paddle is note 2, on any channel. A
//! note-on is a press and a note-off is a release. The bytes are decoded by
//! the `wmidi` crate, which is not verified here.

use crate::MorseSign;
use vstd::prelude::*;
use wmidi::FromBytesError;
use wmidi::MidiMessage;

verus! {

/// `wmidi::FromBytesError`, opaque to the verifier.
#[verifier::external_type_specification]
#[verifier::external_body]
pub struct ExFromBytesError(FromBytesError);

/// A MIDI message, as far as the keyer reads it: the note of a note-on or a
/// note-off, and nothing of any other message.
#[derive(Clone, Copy, Debug, PartialEq, Eq, Structural)]
pub enum NoteMessage {
    NoteOn(u8),
    NoteOff(u8),
    Other,
}

/// Why no event was read from the bytes.
#[derive(Clone, Copy, Debug, PartialEq, Eq, Structural)]
pub enum MidiError {
    /// The bytes are not a MIDI message.
    Malformed,
}

/// What `wmidi` makes of the bytes, read as a [`NoteMessage`].
pub uninterp spec fn decoded(bytes: Seq<u8>) -> Result<NoteMessage, FromBytesError>;

/// Whether the bytes begin with a channel voice message of the given kind:
/// a status byte whose high half is `kind`, the low half being the channel,
/// and then two data bytes, which have their top bit clear.
pub open spec fn is_voice_frame(bytes: Seq<u8>, kind: u8) -> bool {
    &&& bytes.len() >= 3
    &&& kind <= bytes[0] <= kind + 0x0f
    &&& bytes[1] < 0x80
    &&& bytes[2] < 0x80
}

/// What a note-off or a note-on is read as: `0x8n` is a note-off, and `0x9n`
/// is a note-on unless its velocity is zero, which makes it a note-off.
pub open spec fn note_frame(bytes: Seq<u8>) -> Option<NoteMessage> {
    if is_voice_frame(bytes, 0x80) {
        Some(NoteMessage::NoteOff(bytes[1]))
    } else if is_voice_frame(bytes, 0x90) {
        if bytes[2] == 0 {
            Some(NoteMessage::NoteOff(bytes[1]))
        } else {
            Some(NoteMessage::NoteOn(bytes[1]))
        }
    } else {
        None
    }
}

/// `MidiMessage::try_from` on a byte slice, with the message it gives read
/// as a [`NoteMessage`]: the note number of a note-on or a note-off is kept,
/// the channel and the velocity are dropped, and so is all of any other
/// message. The result is a function of the bytes, named [`decoded`]. Of the
/// two kinds of message that the keyer acts on, the contract also says when
/// they are read, as `wmidi` does it: see [`note_frame`].
#[verifier::external_body]
pub(crate) fn decode(bytes: &[u8]) -> (message: Result<NoteMessage, FromBytesError>)
    ensures
        message == decoded(bytes@),
        note_frame(bytes@) matches Some(note) ==> message is Ok && message->Ok_0 == note,
{
    match MidiMessage::try_from(bytes) {
        Ok(MidiMessage::NoteOn(_, note, _)) => Ok(NoteMessage::NoteOn(u8::from(note))),
        Ok(MidiMessage::NoteOff(_, note, _)) => Ok(NoteMessage::NoteOff(u8::from(note))),
        Ok(_) => Ok(NoteMessage::Other),
        Err(error) => Err(error),
    }
}

/// The paddle that a note stands for.
pub open spec fn paddle_of(note: u8) -> Option<MorseSign> {
    if note == 1 {
        Some(MorseSign::Dit)
    } else if note == 2 {
        Some(MorseSign::Dah)
    } else {
        None
    }
}

/// The paddle event that a message stands for: the side, and whether it
/// was pressed. Other notes and other messages stand for none.
pub open spec fn paddle_event_of(message: NoteMessage) -> Option<(MorseSign, bool)> {
    match message {
        NoteMessage::NoteOn(note) => match paddle_of(note) {
            Some(sign) => Some((sign, true)),
            None => None,
        },
        NoteMessage::NoteOff(note) => match paddle_of(note) {
            Some(sign) => Some((sign, false)),
            None => None,
        },
        NoteMessage::Other => None,
    }
}

/// What reading the bytes comes to, given what `wmidi` makes of them.
pub open spec fn event_of(message: Result<NoteMessage, FromBytesError>) -> Result<
    Option<(MorseSign, bool)>,
    MidiError,
> {
    match message {
        Ok(message) => Ok(paddle_event_of(message)),
        Err(_) => Err(MidiError::Malformed),
    }
}

/// The paddle that a note stands for.
pub fn paddle(note: u8) -> (sign: Option<MorseSign>)
    ensures
        sign == paddle_of(note),
{
    if note == 1 {
        Some(MorseSign::Dit)
    } else if note == 2 {
        Some(MorseSign::Dah)
    } else {
        None
    }
}

/// The paddle event that a message stands for, if any.
pub fn paddle_event(message: NoteMessage) -> (event: Option<(MorseSign, bool)>)
    ensures
        event == paddle_event_of(message),
{
    match message {
        NoteMessage::NoteOn(note) => match paddle(note) {
            Some(sign) => Some((sign, true)),
            None => None,
        },
        NoteMessage::NoteOff(note) => match paddle(note) {
            Some(sign) => Some((sign, false)),
            None => None,
        },
        NoteMessage::Other => None,
    }
}

/// Reads one MIDI message and gives the paddle event it stands for, if
/// any. Bytes that are no MIDI message are an error.
pub fn process_midi_message(bytes: &[u8]) -> (event: Result<Option<(MorseSign, bool)>, MidiError>)
    ensures
        event == event_of(decoded(bytes@)),
        note_frame(bytes@) matches Some(note) ==> event is Ok && event->Ok_0 == paddle_event_of(
            note,
        ),
{
    match decode(bytes) {
        Ok(message) => Ok(paddle_event(message)),
        Err(_) => Err(MidiError::Malformed),
    }
}

} // verus!
