//! Core of a userspace driver that bridges a USB HID grid/pad controller to
//! MIDI and OSC: the binary HID report decoder, the mode-dispatch
//! abstraction, a configurable button-mapping mode and a loop-recording
//! sequencer.
//!
//! Device I/O, virtual MIDI port creation and socket handling live outside
//! this crate; the modes here work on a plain model of the light
//! framebuffer and emit MIDI and OSC messages as values for the caller to
//! send.

pub mod context;
pub mod control;
pub mod controls;
pub mod custom_midi;
pub mod input;
pub mod lights;
pub mod midi;
pub mod modes;
pub mod osc;
pub mod play_mode;
pub mod settings;
