use maschine_core::context::DriverContext;
use maschine_core::controls::{button_from_name, button_index, Buttons, PadEventType};
use maschine_core::custom_midi::CustomMidiMode;
use maschine_core::lights::{Brightness, PadColors};
use maschine_core::midi::MidiEmission;
use maschine_core::settings::{ButtonConfig, ButtonMode, Settings};

fn base_settings() -> Settings {
    let notemaps: Vec<u8> = (60..76).collect();
    Settings::new(notemaps)
}

fn toggle_cfg(group: Option<u8>, cc: Option<u8>) -> ButtonConfig {
    ButtonConfig { mode: ButtonMode::Toggle, group_id: group, cc }
}

fn last_osc(ctx: &DriverContext) -> (String, i32) {
    let e = ctx.osc_out.last().expect("an OSC message was queued");
    (e.addr.clone(), e.value)
}

#[test]
fn trigger_fires_only_on_light_edge_mismatch() {
    let settings = base_settings();
    let mut ctx = DriverContext::new(settings);
    let mut mode = CustomMidiMode::new(&ctx.settings);

    // Unconfigured buttons default to trigger mode.
    let changed = mode.handle_button(Buttons::Browse, true, &mut ctx);
    assert!(changed);
    assert_eq!(last_osc(&ctx), ("/maschine/browse".to_string(), 1));
    assert_eq!(ctx.lights.get_button(Buttons::Browse), Brightness::Normal);

    // A second press with the light already on re-fires nothing.
    let n = ctx.osc_out.len();
    let changed = mode.handle_button(Buttons::Browse, true, &mut ctx);
    assert!(!changed);
    assert_eq!(ctx.osc_out.len(), n);

    let changed = mode.handle_button(Buttons::Browse, false, &mut ctx);
    assert!(changed);
    assert_eq!(last_osc(&ctx), ("/maschine/browse".to_string(), 0));
    assert_eq!(ctx.lights.get_button(Buttons::Browse), Brightness::Off);
}

#[test]
fn trigger_with_cc_sends_control_change() {
    let mut settings = base_settings();
    settings.set_button_config(
        "Browse",
        ButtonConfig { mode: ButtonMode::Trigger, group_id: None, cc: Some(20) },
    );
    let mut ctx = DriverContext::new(settings);
    let mut mode = CustomMidiMode::new(&ctx.settings);

    mode.handle_button(Buttons::Browse, true, &mut ctx);
    assert_eq!(
        ctx.midi_out.last(),
        Some(&MidiEmission::ControlChange { controller: 20, value: 127 })
    );
    mode.handle_button(Buttons::Browse, false, &mut ctx);
    assert_eq!(
        ctx.midi_out.last(),
        Some(&MidiEmission::ControlChange { controller: 20, value: 0 })
    );
}

#[test]
fn toggle_exclusivity_forces_the_other_group_member_off() {
    let mut settings = base_settings();
    settings.set_button_config("Pattern", toggle_cfg(Some(1), None));
    settings.set_button_config("Events", toggle_cfg(Some(1), None));
    let mut ctx = DriverContext::new(settings);
    let mut mode = CustomMidiMode::new(&ctx.settings);

    // Press A: its toggle turns on, light at maximum.
    mode.handle_button(Buttons::Pattern, true, &mut ctx);
    assert!(mode.toggle_on[button_index(Buttons::Pattern)]);
    assert_eq!(ctx.lights.get_button(Buttons::Pattern), Brightness::Bright);
    assert_eq!(last_osc(&ctx), ("/maschine/pattern".to_string(), 1));
    mode.handle_button(Buttons::Pattern, false, &mut ctx);

    // Press B of the same group: A falls off, B turns on.
    let before = ctx.osc_out.len();
    mode.handle_button(Buttons::Events, true, &mut ctx);
    assert!(!mode.toggle_on[button_index(Buttons::Pattern)]);
    assert!(mode.toggle_on[button_index(Buttons::Events)]);
    assert_eq!(ctx.lights.get_button(Buttons::Pattern), Brightness::Off);
    assert_eq!(ctx.lights.get_button(Buttons::Events), Brightness::Bright);
    // The cascade sent an off for A, then B's own message.
    assert_eq!(ctx.osc_out[before].addr, "/maschine/pattern");
    assert_eq!(ctx.osc_out[before].value, 0);
    assert_eq!(last_osc(&ctx), ("/maschine/events".to_string(), 1));
}

#[test]
fn toggle_release_restores_the_remembered_state() {
    let mut settings = base_settings();
    settings.set_button_config("Solo", toggle_cfg(None, None));
    let mut ctx = DriverContext::new(settings);
    let mut mode = CustomMidiMode::new(&ctx.settings);

    mode.handle_button(Buttons::Solo, true, &mut ctx);
    assert_eq!(ctx.lights.get_button(Buttons::Solo), Brightness::Bright);
    // Release keeps the light at maximum while the toggle is on.
    mode.handle_button(Buttons::Solo, false, &mut ctx);
    assert_eq!(ctx.lights.get_button(Buttons::Solo), Brightness::Bright);

    // A press while the light is at maximum is ignored (debounce), so
    // nothing changes until the light is off.
    let n = ctx.osc_out.len();
    let changed = mode.handle_button(Buttons::Solo, true, &mut ctx);
    assert!(!changed);
    assert_eq!(ctx.osc_out.len(), n);
}

#[test]
fn encoder_press_is_edge_triggered_over_osc_only() {
    let settings = base_settings();
    let mut ctx = DriverContext::new(settings);
    let mut mode = CustomMidiMode::new(&ctx.settings);

    let changed = mode.handle_button(Buttons::EncoderPress, true, &mut ctx);
    assert!(!changed);
    assert_eq!(last_osc(&ctx), ("/maschine/encoderPress".to_string(), 1));

    // The same edge again does nothing.
    let n = ctx.osc_out.len();
    mode.handle_button(Buttons::EncoderPress, true, &mut ctx);
    assert_eq!(ctx.osc_out.len(), n);

    mode.handle_button(Buttons::EncoderPress, false, &mut ctx);
    assert_eq!(last_osc(&ctx), ("/maschine/encoderPress".to_string(), 0));
}

#[test]
fn encoder_wrap_is_clockwise() {
    let settings = base_settings();
    let mut ctx = DriverContext::new(settings);
    let mut mode = CustomMidiMode::new(&ctx.settings);

    // Establish a previous sample of 250.
    mode.handle_encoder(250, &mut ctx);
    // 250 -> 2 wraps past the top: clockwise.
    mode.handle_encoder(2, &mut ctx);
    assert_eq!(last_osc(&ctx), ("/maschine/encoder".to_string(), 1));
}

#[test]
fn encoder_small_decrement_is_counterclockwise() {
    let settings = base_settings();
    let mut ctx = DriverContext::new(settings);
    let mut mode = CustomMidiMode::new(&ctx.settings);

    mode.handle_encoder(10, &mut ctx);
    mode.handle_encoder(5, &mut ctx);
    assert_eq!(last_osc(&ctx), ("/maschine/encoder".to_string(), -1));
}

#[test]
fn encoder_zero_sample_is_ignored() {
    let settings = base_settings();
    let mut ctx = DriverContext::new(settings);
    let mut mode = CustomMidiMode::new(&ctx.settings);

    mode.handle_encoder(10, &mut ctx);
    let n = ctx.osc_out.len();
    mode.handle_encoder(0, &mut ctx);
    assert_eq!(ctx.osc_out.len(), n);
    assert_eq!(mode.last_encoder_val, 10);
    // An unchanged nonzero sample sends nothing either.
    mode.handle_encoder(10, &mut ctx);
    assert_eq!(ctx.osc_out.len(), n);
}

#[test]
fn slider_draws_the_bar_and_reports_the_raw_value() {
    let settings = base_settings();
    let mut ctx = DriverContext::new(settings);
    let mut mode = CustomMidiMode::new(&ctx.settings);

    let changed = mode.handle_slider(100, &mut ctx);
    assert!(changed);
    assert_eq!(last_osc(&ctx), ("/maschine/slider".to_string(), 100));
    // (100 + 4) * 25 / 200 - 1 = 12: segment 12 is the marker, the bar
    // below it is dim, the rest off.
    assert_eq!(ctx.lights.slider[12], Brightness::Normal);
    for i in 0..12 {
        assert_eq!(ctx.lights.slider[i], Brightness::Dim, "segment {}", i);
    }
    for i in 13..25 {
        assert_eq!(ctx.lights.slider[i], Brightness::Off, "segment {}", i);
    }
}

#[test]
fn slider_zero_sample_is_a_no_op() {
    let settings = base_settings();
    let mut ctx = DriverContext::new(settings);
    let mut mode = CustomMidiMode::new(&ctx.settings);
    let changed = mode.handle_slider(0, &mut ctx);
    assert!(!changed);
    assert!(ctx.osc_out.is_empty());
}

#[test]
fn pad_plays_its_note_with_scaled_velocity() {
    let settings = base_settings();
    let mut ctx = DriverContext::new(settings);
    let mode = CustomMidiMode::new(&ctx.settings);

    let changed = mode.handle_pad(3, PadEventType::NoteOn, 1000, &mut ctx);
    assert!(changed);
    assert_eq!(
        ctx.midi_out.last(),
        Some(&MidiEmission::NoteOn { key: 63, velocity: 31 })
    );
    assert_eq!(ctx.lights.pads[3].color, PadColors::Blue);
    assert_eq!(ctx.lights.pads[3].brightness, Brightness::Normal);

    let changed = mode.handle_pad(3, PadEventType::NoteOff, 0, &mut ctx);
    assert!(changed);
    assert_eq!(
        ctx.midi_out.last(),
        Some(&MidiEmission::NoteOff { key: 63, velocity: 0 })
    );
    assert_eq!(ctx.lights.pads[3].brightness, Brightness::Off);
}

#[test]
fn pad_velocity_clamps_to_one_for_a_soft_touch() {
    let settings = base_settings();
    let mut ctx = DriverContext::new(settings);
    let mode = CustomMidiMode::new(&ctx.settings);
    mode.handle_pad(0, PadEventType::NoteOn, 16, &mut ctx);
    assert_eq!(
        ctx.midi_out.last(),
        Some(&MidiEmission::NoteOn { key: 60, velocity: 1 })
    );
}

#[test]
fn pad_light_write_is_suppressed_when_unchanged() {
    let settings = base_settings();
    let mut ctx = DriverContext::new(settings);
    let mode = CustomMidiMode::new(&ctx.settings);
    // Aftertouch with zero value targets an already-off light: no change.
    let changed = mode.handle_pad(2, PadEventType::Aftertouch, 0, &mut ctx);
    assert!(!changed);
    assert!(ctx.midi_out.is_empty());
}

#[test]
fn refresh_twice_shows_identical_lights() {
    let mut settings = base_settings();
    settings.set_button_config("Solo", toggle_cfg(None, None));
    settings.set_button_config("Mute", toggle_cfg(None, None));
    let mut ctx = DriverContext::new(settings);
    let mut mode = CustomMidiMode::new(&ctx.settings);

    // Flip one toggle on; flip the other on and, once its light has been
    // cleared from elsewhere, off again.
    mode.handle_button(Buttons::Solo, true, &mut ctx);
    mode.handle_button(Buttons::Solo, false, &mut ctx);
    mode.handle_button(Buttons::Mute, true, &mut ctx);
    mode.handle_button(Buttons::Mute, false, &mut ctx);
    ctx.lights.set_button(Buttons::Mute, Brightness::Off);
    mode.handle_button(Buttons::Mute, true, &mut ctx);
    mode.handle_button(Buttons::Mute, false, &mut ctx);

    // Disturb the lights, then restore.
    ctx.lights.set_button(Buttons::Solo, Brightness::Dim);
    ctx.lights.set_button(Buttons::Mute, Brightness::Normal);
    mode.refresh(&mut ctx.lights);
    let first: Vec<Brightness> = ctx.lights.buttons.clone();
    mode.refresh(&mut ctx.lights);
    assert_eq!(ctx.lights.buttons, first);
    assert_eq!(ctx.lights.get_button(Buttons::Solo), Brightness::Bright);
    assert_eq!(ctx.lights.get_button(Buttons::Mute), Brightness::Off);
}

#[test]
fn button_names_resolve_ignoring_ascii_case() {
    assert_eq!(button_from_name("events"), Some(Buttons::Events));
    assert_eq!(button_from_name("EVENTS"), Some(Buttons::Events));
    assert_eq!(button_from_name("NoteRepeat"), Some(Buttons::NoteRepeat));
    assert_eq!(button_from_name("no_such_button"), None);
}

#[test]
fn configuration_keys_match_button_names_exactly() {
    let mut settings = base_settings();
    // A lower-case key names no button in the exact-match table.
    settings.set_button_config("solo", toggle_cfg(None, None));
    assert!(settings.configs[button_index(Buttons::Solo)].is_none());
    settings.set_button_config("Solo", toggle_cfg(None, None));
    assert!(settings.configs[button_index(Buttons::Solo)].is_some());
}

#[test]
fn slider_full_scale_parks_the_marker_on_the_last_segment() {
    let settings = base_settings();
    let mut ctx = DriverContext::new(settings);
    let mut mode = CustomMidiMode::new(&ctx.settings);
    mode.handle_slider(200, &mut ctx);
    assert_eq!(ctx.lights.slider[24], Brightness::Normal);
    for i in 0..24 {
        assert_eq!(ctx.lights.slider[i], Brightness::Dim, "segment {}", i);
    }
}

#[test]
fn slider_above_scale_shows_no_marker() {
    let settings = base_settings();
    let mut ctx = DriverContext::new(settings);
    let mut mode = CustomMidiMode::new(&ctx.settings);
    // 255 maps past the bar: the marker lies beyond the last segment and
    // only the tail of the bar stays dim.
    mode.handle_slider(255, &mut ctx);
    for i in 0..25 {
        assert_ne!(ctx.lights.slider[i], Brightness::Normal, "segment {}", i);
    }
    assert_eq!(ctx.lights.slider[24], Brightness::Dim);
    assert_eq!(ctx.lights.slider[0], Brightness::Off);
}

