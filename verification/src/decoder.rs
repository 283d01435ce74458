//! Stateless classification of raw note-control messages.
//!
//! A message is a sequence of up to three bytes.  The high nibble of the
//! first byte selects the kind, its low nibble is the channel; the remaining
//! bytes carry the payload.  An empty message produces no event; a message
//! that is shorter than its kind requires is rejected as invalid rather than
//! read past its end.

use vstd::prelude::*;

verus! {

/// A typed event extracted from a raw message.
#[derive(Clone, Copy, Debug, PartialEq, Eq, Structural)]
#[allow(inconsistent_fields)]
pub enum ClassifiedEvent {
    NoteOff { channel: u8, note: u8, velocity: u8 },
    NoteOn { channel: u8, note: u8, velocity: u8 },
    PolyPressure { channel: u8, note: u8, pressure: u8 },
    ControlChange { channel: u8, controller: u8, value: u8 },
    ProgramChange { channel: u8, program: u8 },
    ChannelPressure { channel: u8, pressure: u8 },
    PitchBend { channel: u8, value: u16 },
    Unknown,
}

/// A message too short for the kind its first byte claims.
#[derive(Clone, Copy, Debug, PartialEq, Eq, Structural)]
pub struct InvalidEvent;

/// How many bytes a message whose first byte is `status` must hold.
pub open spec fn required_len(status: u8) -> int {
    if status < 0x80 || status >= 0xF0 {
        1
    } else if 0xC0 <= status && status <= 0xDF {
        2
    } else {
        3
    }
}

/// The channel encoded in a status byte: its low nibble, which is its value
/// modulo 16.
pub open spec fn channel_of(status: u8) -> u8 {
    status % 16
}

/// The event encoded by a non-empty message of sufficient length.
pub open spec fn event_of(bytes: Seq<u8>) -> ClassifiedEvent
    recommends
        1 <= bytes.len(),
        required_len(bytes[0]) <= bytes.len(),
{
    let status = bytes[0];
    if status < 0x80 || status >= 0xF0 {
        ClassifiedEvent::Unknown
    } else if status <= 0x8F {
        ClassifiedEvent::NoteOff { channel: channel_of(status), note: bytes[1], velocity: bytes[2] }
    } else if status <= 0x9F {
        ClassifiedEvent::NoteOn { channel: channel_of(status), note: bytes[1], velocity: bytes[2] }
    } else if status <= 0xAF {
        ClassifiedEvent::PolyPressure {
            channel: channel_of(status),
            note: bytes[1],
            pressure: bytes[2],
        }
    } else if status <= 0xBF {
        ClassifiedEvent::ControlChange {
            channel: channel_of(status),
            controller: bytes[1],
            value: bytes[2],
        }
    } else if status <= 0xCF {
        ClassifiedEvent::ProgramChange { channel: channel_of(status), program: bytes[1] }
    } else if status <= 0xDF {
        ClassifiedEvent::ChannelPressure { channel: channel_of(status), pressure: bytes[1] }
    } else {
        ClassifiedEvent::PitchBend {
            channel: channel_of(status),
            value: ((bytes[2] as u16) << 7) | (bytes[1] as u16),
        }
    }
}

/// What decoding a raw message yields: no event for an empty message, an
/// error for a truncated one, and otherwise the event it encodes.
pub open spec fn classify(bytes: Seq<u8>) -> Result<Option<ClassifiedEvent>, InvalidEvent> {
    if bytes.len() == 0 {
        Ok(None)
    } else if bytes.len() < required_len(bytes[0]) {
        Err(InvalidEvent)
    } else {
        Ok(Some(event_of(bytes)))
    }
}

impl ClassifiedEvent {
    /// Whether every payload field is in its encoded range: data bytes are
    /// seven-bit values and a bend value is a fourteen-bit value.
    pub open spec fn in_range(self) -> bool {
        match self {
            ClassifiedEvent::NoteOff { note, velocity, .. } => note < 128 && velocity < 128,
            ClassifiedEvent::NoteOn { note, velocity, .. } => note < 128 && velocity < 128,
            ClassifiedEvent::PolyPressure { note, pressure, .. } => note < 128 && pressure < 128,
            ClassifiedEvent::ControlChange { controller, value, .. } => controller < 128 && value
                < 128,
            ClassifiedEvent::ProgramChange { program, .. } => program < 128,
            ClassifiedEvent::ChannelPressure { pressure, .. } => pressure < 128,
            ClassifiedEvent::PitchBend { value, .. } => value < 16384,
            ClassifiedEvent::Unknown => true,
        }
    }

    /// Runtime check of `in_range`, for callers that receive messages from
    /// sources that do not promise seven-bit data bytes.
    pub fn check_in_range(&self) -> (b: bool)
        ensures
            b == self.in_range(),
    {
        match *self {
            ClassifiedEvent::NoteOff { note, velocity, .. } => note < 128 && velocity < 128,
            ClassifiedEvent::NoteOn { note, velocity, .. } => note < 128 && velocity < 128,
            ClassifiedEvent::PolyPressure { note, pressure, .. } => note < 128 && pressure < 128,
            ClassifiedEvent::ControlChange { controller, value, .. } => controller < 128 && value
                < 128,
            ClassifiedEvent::ProgramChange { program, .. } => program < 128,
            ClassifiedEvent::ChannelPressure { pressure, .. } => pressure < 128,
            ClassifiedEvent::PitchBend { value, .. } => value < 16384,
            ClassifiedEvent::Unknown => true,
        }
    }
}

/// Classify a raw message.  Empty input yields no event; a first byte that
/// claims a kind needing more bytes than were supplied yields `InvalidEvent`;
/// otherwise the typed event, with the channel from the low nibble of the
/// status byte and the payload fields from the remaining bytes.
pub fn decode(bytes: &[u8]) -> (r: Result<Option<ClassifiedEvent>, InvalidEvent>)
    ensures
        r == classify(bytes@),
{
    let n = bytes.len();
    if n == 0 {
        return Ok(None);
    }
    let status = bytes[0];
    if status < 0x80 || status >= 0xF0 {
        return Ok(Some(ClassifiedEvent::Unknown));
    }
    let channel = status & 0x0F;
    proof {
        assert(status & 0x0F == status % 16) by (bit_vector);
    }
    if 0xC0 <= status && status <= 0xDF {
        if n < 2 {
            return Err(InvalidEvent);
        }
        if status <= 0xCF {
            return Ok(Some(ClassifiedEvent::ProgramChange { channel, program: bytes[1] }));
        }
        return Ok(Some(ClassifiedEvent::ChannelPressure { channel, pressure: bytes[1] }));
    }
    if n < 3 {
        return Err(InvalidEvent);
    }
    let d1 = bytes[1];
    let d2 = bytes[2];
    if status <= 0x8F {
        Ok(Some(ClassifiedEvent::NoteOff { channel, note: d1, velocity: d2 }))
    } else if status <= 0x9F {
        Ok(Some(ClassifiedEvent::NoteOn { channel, note: d1, velocity: d2 }))
    } else if status <= 0xAF {
        Ok(Some(ClassifiedEvent::PolyPressure { channel, note: d1, pressure: d2 }))
    } else if status <= 0xBF {
        Ok(Some(ClassifiedEvent::ControlChange { channel, controller: d1, value: d2 }))
    } else {
        let value = ((d2 as u16) << 7) | (d1 as u16);
        Ok(Some(ClassifiedEvent::PitchBend { channel, value }))
    }
}

/// For seven-bit data bytes the encoded 14-bit bend value is the arithmetic
/// combination `d2 * 128 + d1`, the first data byte being the
/// least-significant seven bits, and it lies below 16384.
pub proof fn lemma_bend_value_arith(d1: u8, d2: u8)
    requires
        d1 < 128,
        d2 < 128,
    ensures
        ((d2 as u16) << 7) | (d1 as u16) == 128 * (d2 as u16) + (d1 as u16),
        ((d2 as u16) << 7) | (d1 as u16) < 16384,
{
    assert(((d2 as u16) << 7) | (d1 as u16) == 128 * (d2 as u16) + (d1 as u16)
        && ((d2 as u16) << 7) | (d1 as u16) < 16384) by (bit_vector)
        requires
            d1 < 128,
            d2 < 128,
    ;
}

/// A message whose data bytes are seven-bit values classifies to an event
/// whose every payload field is in range.
pub proof fn lemma_classify_in_range(bytes: Seq<u8>)
    requires
        forall|i: int| 1 <= i < bytes.len() ==> bytes[i] < 128,
    ensures
        (classify(bytes) matches Ok(Some(ev)) ==> ev.in_range()),
{
    if bytes.len() > 0 && required_len(bytes[0]) <= bytes.len() {
        let status = bytes[0];
        if 0xE0 <= status && status <= 0xEF {
            lemma_bend_value_arith(bytes[1], bytes[2]);
        }
    }
}

} // verus!
