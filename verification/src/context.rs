//! The per-dispatch bundle the modes work on: the light framebuffer, the
//! read-only configuration, the current time, and the queues of MIDI and
//! OSC messages this dispatch produced.
//!
//! The caller owns one context, lends it to the active mode for the
//! duration of a single call, drains the queues afterwards and writes the
//! lights out when a call reports a change. Time is the caller's monotonic
//! clock in milliseconds.

use vstd::prelude::*;
use crate::controls::{button_osc_name_spec, Buttons};
use crate::lights::Lights;
use crate::midi::MidiEmission;
use crate::osc::{is_osc, osc_button_addr, osc_button_emission, osc_fixed_emission, OscEmission};
use crate::settings::Settings;

verus! {

/// The shared resources for one dispatch call.
pub struct DriverContext {
    pub lights: Lights,
    pub settings: Settings,
    pub now_ms: u64,
    pub osc_out: Vec<OscEmission>,
    pub midi_out: Vec<MidiEmission>,
}

/// Whether `new` is `old_q` with one message of the given address and
/// argument appended.
pub open spec fn osc_pushed(
    new: Seq<OscEmission>,
    old_q: Seq<OscEmission>,
    addr: Seq<char>,
    value: int,
) -> bool {
    &&& new.len() == old_q.len() + 1
    &&& new.subrange(0, old_q.len() as int) == old_q
    &&& is_osc(new.last(), addr, value)
}

impl DriverContext {
    /// The framebuffer and configuration have their fixed shapes, and every
    /// queued MIDI message is well formed.
    pub open spec fn wf(&self) -> bool {
        &&& self.lights.wf()
        &&& self.settings.wf()
        &&& forall|i: int| 0 <= i < self.midi_out@.len() ==> (#[trigger] self.midi_out@[i]).wf()
    }

    /// A fresh context: all lights off, nothing queued.
    pub fn new(settings: Settings) -> (r: DriverContext)
        requires
            settings.wf(),
        ensures
            r.wf(),
            r.settings == settings,
            r.now_ms == 0,
            r.osc_out@.len() == 0,
            r.midi_out@.len() == 0,
            r.lights.wf(),
            forall|i: int|
                0 <= i < crate::controls::BUTTON_COUNT as int
                    ==> r.lights.buttons@[i] == crate::lights::Brightness::Off,
            forall|i: int|
                0 <= i < crate::lights::PAD_COUNT as int ==> r.lights.pads@[i]
                    == (crate::lights::PadLight {
                    color: crate::lights::PadColors::Off,
                    brightness: crate::lights::Brightness::Off,
                }),
            forall|i: int|
                0 <= i < crate::lights::SLIDER_SEGMENTS as int ==> r.lights.slider@[i]
                    == crate::lights::Brightness::Off,
    {
        DriverContext {
            lights: Lights::new(),
            settings,
            now_ms: 0,
            osc_out: Vec::new(),
            midi_out: Vec::new(),
        }
    }

    /// Queue a button's outbound OSC message.
    pub fn send_osc_button(&mut self, b: Buttons, value: i32)
        ensures
            osc_pushed(final(self).osc_out@, old(self).osc_out@, osc_button_addr(b), value as int),
            final(self).lights == old(self).lights,
            final(self).settings == old(self).settings,
            final(self).now_ms == old(self).now_ms,
            final(self).midi_out@ == old(self).midi_out@,
    {
        let e = osc_button_emission(b, value);
        self.osc_out.push(e);
        proof {
            assert(self.osc_out@.subrange(0, old(self).osc_out@.len() as int)
                =~= old(self).osc_out@);
        }
    }

    /// Queue an outbound OSC message under a fixed address.
    pub fn send_osc_fixed(&mut self, addr: &str, value: i32)
        ensures
            osc_pushed(final(self).osc_out@, old(self).osc_out@, addr@, value as int),
            final(self).lights == old(self).lights,
            final(self).settings == old(self).settings,
            final(self).now_ms == old(self).now_ms,
            final(self).midi_out@ == old(self).midi_out@,
    {
        let e = osc_fixed_emission(addr, value);
        self.osc_out.push(e);
        proof {
            assert(self.osc_out@.subrange(0, old(self).osc_out@.len() as int)
                =~= old(self).osc_out@);
        }
    }

    /// Queue an outbound MIDI message.
    pub fn send_midi(&mut self, e: MidiEmission)
        requires
            e.wf(),
        ensures
            final(self).midi_out@ == old(self).midi_out@.push(e),
            final(self).lights == old(self).lights,
            final(self).settings == old(self).settings,
            final(self).now_ms == old(self).now_ms,
            final(self).osc_out@ == old(self).osc_out@,
    {
        self.midi_out.push(e);
    }
}

} // verus!
