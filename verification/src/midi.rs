//! Note events and the MIDI configuration of a plugin.
//!
//! Every event carries the sample offset within the current block at which it
//! takes effect. Channel, note and controller numbers are passed through as
//! they came; the continuous value of an event is kept as the bit pattern of
//! a single-precision float.

use vstd::prelude::*;

pub use midi_consts::channel_event::control_change;

verus! {

/// Determines which note events a plugin receives.
#[derive(Debug, Clone, Copy, PartialEq, Eq, PartialOrd, Ord)]
pub enum MidiConfig {
    /// The plugin has no note input port and receives no note events.
    NoNotes,
    /// The plugin receives note on/off events, pressure, and the standardized
    /// per-note expressions the host offers.
    Basic,
    /// The plugin also receives MIDI CCs, pitch bend and channel pressure.
    MidiCCs,
}

/// Event for (incoming) notes. All timings are sample offsets within the
/// current block; sample, channel and note numbers are zero-indexed.
#[derive(Debug, Clone, Copy, PartialEq, Eq, Structural)]
#[non_exhaustive]
pub enum NoteEvent {
    /// A note on event.
    NoteOn {
        timing: u32,
        channel: u8,
        note: u8,
        velocity: u32,
    },
    /// A note off event.
    NoteOff {
        timing: u32,
        channel: u8,
        note: u8,
        velocity: u32,
    },
    /// A polyphonic note pressure/aftertouch event.
    PolyPressure {
        timing: u32,
        channel: u8,
        note: u8,
        pressure: u32,
    },
    /// A volume expression event; the gain is a voltage ratio where 1.0 is unity.
    PolyVolume {
        timing: u32,
        channel: u8,
        note: u8,
        gain: u32,
    },
    /// A panning expression event, from -1 (hard left) to 1 (hard right).
    PolyPan {
        timing: u32,
        channel: u8,
        note: u8,
        pan: u32,
    },
    /// A tuning expression event, in semitones from -120 to 120.
    PolyTuning {
        timing: u32,
        channel: u8,
        note: u8,
        tuning: u32,
    },
    /// A vibrato expression event, from 0 to 1.
    PolyVibrato {
        timing: u32,
        channel: u8,
        note: u8,
        vibrato: u32,
    },
    /// An expression expression event, from 0 to 1.
    PolyExpression {
        timing: u32,
        channel: u8,
        note: u8,
        expression: u32,
    },
    /// A brightness expression event, from 0 to 1.
    PolyBrightness {
        timing: u32,
        channel: u8,
        note: u8,
        brightness: u32,
    },
    /// A MIDI channel pressure event, normalized to `[0, 1]`.
    MidiChannelPressure {
        timing: u32,
        channel: u8,
        pressure: u32,
    },
    /// A MIDI pitch bend, normalized to `[0, 1]`; 0.5 means no bend.
    MidiPitchBend {
        timing: u32,
        channel: u8,
        value: u32,
    },
    /// A MIDI control change event; the value is normalized to `[0, 1]`.
    MidiCC {
        timing: u32,
        channel: u8,
        cc: u8,
        value: u32,
    },
}

impl NoteEvent {
    /// The sample offset of this event within the current block.
    pub open spec fn timing_of(self) -> u32 {
        match self {
            NoteEvent::NoteOn { timing, .. } => timing,
            NoteEvent::NoteOff { timing, .. } => timing,
            NoteEvent::PolyPressure { timing, .. } => timing,
            NoteEvent::PolyVolume { timing, .. } => timing,
            NoteEvent::PolyPan { timing, .. } => timing,
            NoteEvent::PolyTuning { timing, .. } => timing,
            NoteEvent::PolyVibrato { timing, .. } => timing,
            NoteEvent::PolyExpression { timing, .. } => timing,
            NoteEvent::PolyBrightness { timing, .. } => timing,
            NoteEvent::MidiChannelPressure { timing, .. } => timing,
            NoteEvent::MidiPitchBend { timing, .. } => timing,
            NoteEvent::MidiCC { timing, .. } => timing,
        }
    }

    /// This event with its sample offset replaced by `t` and everything else kept.
    pub open spec fn with_timing(self, t: u32) -> NoteEvent {
        match self {
            NoteEvent::NoteOn { timing: _, channel, note, velocity } => NoteEvent::NoteOn {
                timing: t,
                channel,
                note,
                velocity,
            },
            NoteEvent::NoteOff { timing: _, channel, note, velocity } => NoteEvent::NoteOff {
                timing: t,
                channel,
                note,
                velocity,
            },
            NoteEvent::PolyPressure { timing: _, channel, note, pressure } => NoteEvent::PolyPressure {
                timing: t,
                channel,
                note,
                pressure,
            },
            NoteEvent::PolyVolume { timing: _, channel, note, gain } => NoteEvent::PolyVolume {
                timing: t,
                channel,
                note,
                gain,
            },
            NoteEvent::PolyPan { timing: _, channel, note, pan } => NoteEvent::PolyPan {
                timing: t,
                channel,
                note,
                pan,
            },
            NoteEvent::PolyTuning { timing: _, channel, note, tuning } => NoteEvent::PolyTuning {
                timing: t,
                channel,
                note,
                tuning,
            },
            NoteEvent::PolyVibrato { timing: _, channel, note, vibrato } => NoteEvent::PolyVibrato {
                timing: t,
                channel,
                note,
                vibrato,
            },
            NoteEvent::PolyExpression { timing: _, channel, note, expression } => NoteEvent::PolyExpression {
                timing: t,
                channel,
                note,
                expression,
            },
            NoteEvent::PolyBrightness { timing: _, channel, note, brightness } => NoteEvent::PolyBrightness {
                timing: t,
                channel,
                note,
                brightness,
            },
            NoteEvent::MidiChannelPressure { timing: _, channel, pressure } => NoteEvent::MidiChannelPressure {
                timing: t,
                channel,
                pressure,
            },
            NoteEvent::MidiPitchBend { timing: _, channel, value } => NoteEvent::MidiPitchBend {
                timing: t,
                channel,
                value,
            },
            NoteEvent::MidiCC { timing: _, channel, cc, value } => NoteEvent::MidiCC {
                timing: t,
                channel,
                cc,
                value,
            },
        }
    }

    /// Returns the sample within the current block this event belongs to.
    pub fn timing(&self) -> (t: u32)
        ensures
            t == self.timing_of(),
    {
        match self {
            NoteEvent::NoteOn { timing, .. } => *timing,
            NoteEvent::NoteOff { timing, .. } => *timing,
            NoteEvent::PolyPressure { timing, .. } => *timing,
            NoteEvent::PolyVolume { timing, .. } => *timing,
            NoteEvent::PolyPan { timing, .. } => *timing,
            NoteEvent::PolyTuning { timing, .. } => *timing,
            NoteEvent::PolyVibrato { timing, .. } => *timing,
            NoteEvent::PolyExpression { timing, .. } => *timing,
            NoteEvent::PolyBrightness { timing, .. } => *timing,
            NoteEvent::MidiChannelPressure { timing, .. } => *timing,
            NoteEvent::MidiPitchBend { timing, .. } => *timing,
            NoteEvent::MidiCC { timing, .. } => *timing,
        }
    }

    /// Subtracts a sample offset from this event's timing. This renormalizes
    /// offsets after a block was split upstream; the offset may not exceed the
    /// event's timing.
    pub fn subtract_timing(&mut self, samples: u32)
        requires
            samples <= old(self).timing_of(),
        ensures
            *final(self) == old(self).with_timing((old(self).timing_of() - samples) as u32),
            final(self).timing_of() == old(self).timing_of() - samples,
    {
        match self {
            NoteEvent::NoteOn { timing, .. } => *timing -= samples,
            NoteEvent::NoteOff { timing, .. } => *timing -= samples,
            NoteEvent::PolyPressure { timing, .. } => *timing -= samples,
            NoteEvent::PolyVolume { timing, .. } => *timing -= samples,
            NoteEvent::PolyPan { timing, .. } => *timing -= samples,
            NoteEvent::PolyTuning { timing, .. } => *timing -= samples,
            NoteEvent::PolyVibrato { timing, .. } => *timing -= samples,
            NoteEvent::PolyExpression { timing, .. } => *timing -= samples,
            NoteEvent::PolyBrightness { timing, .. } => *timing -= samples,
            NoteEvent::MidiChannelPressure { timing, .. } => *timing -= samples,
            NoteEvent::MidiPitchBend { timing, .. } => *timing -= samples,
            NoteEvent::MidiCC { timing, .. } => *timing -= samples,
        }
    }
}

/// Reading the timing of a retimed event gives the new timing, and retiming
/// an event to its own timing changes nothing.
pub proof fn lemma_with_timing_reads_back(e: NoteEvent, t: u32)
    ensures
        e.with_timing(t).timing_of() == t,
        e.with_timing(e.timing_of()) == e,
        forall|u: u32| e.with_timing(t).with_timing(u) == e.with_timing(u),
{
}

/// Two successive shifts amount to one shift by the sum of the offsets.
pub proof fn lemma_shift_twice(e: NoteEvent, a: u32, b: u32)
    requires
        a + b <= e.timing_of(),
    ensures
        e.with_timing((e.timing_of() - a) as u32).with_timing((e.timing_of() - a - b) as u32)
            == e.with_timing((e.timing_of() - (a + b)) as u32),
{
}

} // verus!
