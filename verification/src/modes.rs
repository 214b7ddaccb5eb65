//! The mode abstraction: exactly one mode is active at a time, receives
//! every decoded event, and restores its own visual state when switched in.
//!
//! The engine keeps no reference into a mode; it lends the mode the context
//! for the duration of one call. Each mode carries an invariant tying its
//! state to the context it is driven with.

use vstd::prelude::*;
use crate::context::DriverContext;
use crate::custom_midi::CustomMidiMode;
use crate::input::{event_wf, HardwareEvent};
use crate::play_mode::PlayMode;

verus! {

/// What every mode offers the engine: a one-time restore when switched in,
/// and a handler for each decoded event.
pub trait MachineMode: Sized {
    /// The mode's invariant over its own state and the context that
    /// drives it.
    spec fn inv(&self, ctx: DriverContext) -> bool;

    /// Called once when the mode is switched in; the mode restores or
    /// clears whatever visual state it needs.
    fn on_enter(&mut self, ctx: &mut DriverContext)
        requires
            old(ctx).wf(),
            old(self).inv(*old(ctx)),
        ensures
            final(ctx).wf(),
            final(self).inv(*final(ctx)),
            final(ctx).settings == old(ctx).settings,
            final(ctx).now_ms == old(ctx).now_ms,
    ;

    /// Called for every decoded event while the mode is active.
    fn handle_event(&mut self, event: &HardwareEvent, ctx: &mut DriverContext)
        requires
            old(ctx).wf(),
            old(self).inv(*old(ctx)),
            event_wf(*event),
        ensures
            final(ctx).wf(),
            final(self).inv(*final(ctx)),
            final(ctx).settings == old(ctx).settings,
            final(ctx).now_ms == old(ctx).now_ms,
    ;
}

impl MachineMode for CustomMidiMode {
    /// The mode's tables match the configuration it is driven with.
    open spec fn inv(&self, ctx: DriverContext) -> bool {
        self.wf(ctx.settings)
    }

    fn on_enter(&mut self, ctx: &mut DriverContext) {
        self.refresh(&mut ctx.lights);
    }

    fn handle_event(&mut self, event: &HardwareEvent, ctx: &mut DriverContext) {
        match event {
            HardwareEvent::Button { index, pressed } => {
                self.handle_button(*index, *pressed, ctx);
            },
            HardwareEvent::Pad { index, event_type, value } => {
                self.handle_pad(*index, *event_type, *value, ctx);
            },
            HardwareEvent::Encoder { value } => {
                self.handle_encoder(*value, ctx);
            },
            HardwareEvent::Slider { value } => {
                self.handle_slider(*value, ctx);
            },
        }
    }
}

impl MachineMode for PlayMode {
    /// The looper is internally consistent and its clock never runs ahead
    /// of the context's.
    open spec fn inv(&self, ctx: DriverContext) -> bool {
        self.wf() && self.last_now <= ctx.now_ms
    }

    fn on_enter(&mut self, ctx: &mut DriverContext) {
        self.update_transport_lights(ctx);
    }

    fn handle_event(&mut self, event: &HardwareEvent, ctx: &mut DriverContext) {
        match event {
            HardwareEvent::Button { index, pressed } => {
                self.handle_button(*index, *pressed, ctx);
            },
            HardwareEvent::Pad { index, event_type, value } => {
                self.handle_pad(*index, *event_type, *value, ctx);
            },
            _ => {},
        }
    }
}

} // verus!
