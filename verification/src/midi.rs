//! Outbound MIDI messages as plain values, and their wire encoding.
//!
//! All traffic is on channel 0: note on/off from the pads and the
//! sequencer, and control changes from configured buttons. The caller
//! encodes an emission with `encode_midi_emission` and sends the bytes over
//! its MIDI port; sends are fire-and-forget.

use vstd::prelude::*;
use midly::MidiMessage;

verus! {

/// One outbound channel-voice message on channel 0.
#[derive(Clone, Copy, Debug, PartialEq, Eq, Structural)]
pub enum MidiEmission {
    NoteOn { key: u8, velocity: u8 },
    NoteOff { key: u8, velocity: u8 },
    ControlChange { controller: u8, value: u8 },
}

impl MidiEmission {
    /// Every data byte fits in seven bits.
    pub open spec fn wf(&self) -> bool {
        match *self {
            MidiEmission::NoteOn { key, velocity } => key < 128 && velocity < 128,
            MidiEmission::NoteOff { key, velocity } => key < 128 && velocity < 128,
            MidiEmission::ControlChange { controller, value } => controller < 128 && value < 128,
        }
    }
}

/// The three wire bytes of a channel-voice message on channel 0: the
/// status byte and the two data bytes.
pub open spec fn midi_emission_bytes(e: MidiEmission) -> Seq<u8> {
    match e {
        MidiEmission::NoteOn { key, velocity } => seq![0x90u8, key, velocity],
        MidiEmission::NoteOff { key, velocity } => seq![0x80u8, key, velocity],
        MidiEmission::ControlChange { controller, value } => seq![0xb0u8, controller, value],
    }
}

/// Relies on midly's LiveEvent::write: a live channel-voice message is
/// written as one status byte (the message's status nibble and the channel)
/// followed by its two data bytes, and writing into a byte vector never
/// fails.
#[verifier::external_body]
fn midly_encode_emission(e: &MidiEmission) -> (r: Vec<u8>)
    requires
        e.wf(),
    ensures
        r@ == midi_emission_bytes(*e),
{
    let message = match *e {
        MidiEmission::NoteOn { key, velocity } => MidiMessage::NoteOn { key: key.into(), vel: velocity.into() },
        MidiEmission::NoteOff { key, velocity } => MidiMessage::NoteOff { key: key.into(), vel: velocity.into() },
        MidiEmission::ControlChange { controller, value } => MidiMessage::Controller { controller: controller.into(), value: value.into() },
    };
    let live_event = midly::live::LiveEvent::Midi { channel: 0.into(), message };
    let mut bytes = Vec::new();
    let _ = live_event.write(&mut bytes);
    bytes
}

/// The bytes of the port message that carries an emission.
pub fn encode_midi_emission(e: &MidiEmission) -> (r: Vec<u8>)
    requires
        e.wf(),
    ensures
        r@ == midi_emission_bytes(*e),
{
    midly_encode_emission(e)
}

} // verus!
