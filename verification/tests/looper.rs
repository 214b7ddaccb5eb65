use maschine_core::context::DriverContext;
use maschine_core::controls::{Buttons, PadEventType};
use maschine_core::lights::{Brightness, PadColors};
use maschine_core::midi::MidiEmission;
use maschine_core::play_mode::{PlayMode, SeqEvent};
use maschine_core::settings::Settings;

fn base_settings() -> Settings {
    let notemaps: Vec<u8> = (60..76).collect();
    Settings::new(notemaps)
}

fn ctx_at(ms: u64) -> DriverContext {
    let mut ctx = DriverContext::new(base_settings());
    ctx.now_ms = ms;
    ctx
}

#[test]
fn looper_round_trip_records_and_replays_in_order() {
    let mut ctx = ctx_at(0);
    let mut looper = PlayMode::new();

    // Arm.
    looper.handle_button(Buttons::Rec, true, &mut ctx);
    assert!(looper.armed);
    assert_eq!(ctx.lights.get_button(Buttons::Rec), Brightness::Bright);

    // First pad press at t=0 starts the initial recording and is captured.
    looper.handle_pad(0, PadEventType::NoteOn, 2048, &mut ctx);
    assert!(looper.recording);
    assert!(!looper.armed);
    assert_eq!(looper.loop_duration, 0);

    // Pad release at t=100.
    ctx.now_ms = 100;
    looper.handle_pad(0, PadEventType::NoteOff, 0, &mut ctx);

    // Rec at t=500 ends the initial recording into playback.
    ctx.now_ms = 500;
    looper.handle_button(Buttons::Rec, true, &mut ctx);
    assert!(!looper.recording);
    assert!(looper.playing);
    assert_eq!(looper.loop_duration, 500);
    assert_eq!(
        looper.events,
        vec![
            SeqEvent { offset_ms: 0, note: 60, velocity: 64, is_note_on: true },
            SeqEvent { offset_ms: 100, note: 60, velocity: 0, is_note_on: false },
        ]
    );

    // A tick shortly after the loop's end wraps and re-fires the
    // offset-0 event first.
    ctx.now_ms = 1005;
    let n = ctx.midi_out.len();
    let changed = looper.tick(&mut ctx);
    assert!(changed);
    assert_eq!(
        &ctx.midi_out[n..],
        &[MidiEmission::NoteOn { key: 60, velocity: 64 }]
    );
    // The pad is now sequencer-held: orange at normal brightness.
    assert_eq!(ctx.lights.pads[0].color, PadColors::Orange);
    assert_eq!(ctx.lights.pads[0].brightness, Brightness::Normal);

    // The offset-100 event follows on a later tick.
    ctx.now_ms = 1110;
    let n = ctx.midi_out.len();
    looper.tick(&mut ctx);
    assert_eq!(
        &ctx.midi_out[n..],
        &[MidiEmission::NoteOff { key: 60, velocity: 0 }]
    );
    assert_eq!(ctx.lights.pads[0].brightness, Brightness::Off);
}

#[test]
fn capture_keeps_the_event_list_sorted_while_overdubbing() {
    let mut ctx = ctx_at(0);
    let mut looper = PlayMode::new();

    looper.handle_button(Buttons::Rec, true, &mut ctx);
    looper.handle_pad(0, PadEventType::NoteOn, 1024, &mut ctx);
    ctx.now_ms = 400;
    looper.handle_button(Buttons::Rec, true, &mut ctx); // loop of 400 ms

    // Overdub: Rec again while playing.
    ctx.now_ms = 500;
    looper.handle_button(Buttons::Rec, true, &mut ctx);
    assert!(looper.recording && looper.playing);

    // An overdubbed press at t=600 lands at offset 200, after the
    // offset-0 event even though it was captured later.
    ctx.now_ms = 600;
    looper.handle_pad(1, PadEventType::NoteOn, 1024, &mut ctx);
    // One more at t=550 of the next pass: raw elapsed 150.
    ctx.now_ms = 950;
    looper.handle_pad(2, PadEventType::NoteOn, 1024, &mut ctx);

    let offsets: Vec<u64> = looper.events.iter().map(|e| e.offset_ms).collect();
    assert_eq!(offsets, vec![0, 150, 200]);
}

#[test]
fn overdub_offset_folds_one_wrap_back() {
    let mut ctx = ctx_at(0);
    let mut looper = PlayMode::new();

    looper.handle_button(Buttons::Rec, true, &mut ctx);
    looper.handle_pad(0, PadEventType::NoteOn, 1024, &mut ctx);
    ctx.now_ms = 400;
    looper.handle_button(Buttons::Rec, true, &mut ctx);
    ctx.now_ms = 450;
    looper.handle_button(Buttons::Rec, true, &mut ctx); // overdub

    // No tick has re-anchored the loop; raw elapsed 500 exceeds the
    // 400 ms loop, so a single loop length is subtracted.
    ctx.now_ms = 900;
    looper.handle_pad(3, PadEventType::NoteOn, 1024, &mut ctx);
    assert_eq!(looper.events.last().unwrap().offset_ms, 100);
}

#[test]
fn play_ends_the_initial_recording_too() {
    let mut ctx = ctx_at(0);
    let mut looper = PlayMode::new();

    looper.handle_button(Buttons::Rec, true, &mut ctx);
    looper.handle_pad(0, PadEventType::NoteOn, 1024, &mut ctx);
    ctx.now_ms = 300;
    looper.handle_button(Buttons::Play, true, &mut ctx);
    assert!(!looper.recording);
    assert!(looper.playing);
    assert_eq!(looper.loop_duration, 300);
    assert_eq!(ctx.lights.get_button(Buttons::Play), Brightness::Bright);
    assert_eq!(ctx.lights.get_button(Buttons::Stop), Brightness::Dim);
}

#[test]
fn pause_saves_the_position_and_resume_reseeks() {
    let mut ctx = ctx_at(0);
    let mut looper = PlayMode::new();

    // Record a 400 ms loop with events at 0 and 200.
    looper.handle_button(Buttons::Rec, true, &mut ctx);
    looper.handle_pad(0, PadEventType::NoteOn, 1024, &mut ctx);
    ctx.now_ms = 200;
    looper.handle_pad(0, PadEventType::NoteOff, 0, &mut ctx);
    ctx.now_ms = 400;
    looper.handle_button(Buttons::Rec, true, &mut ctx);

    // Pause at t=550: 150 ms into the second pass.
    ctx.now_ms = 550;
    looper.handle_button(Buttons::Play, true, &mut ctx);
    assert!(!looper.playing);
    assert_eq!(looper.paused_position, Some(150));
    // Pausing clears the sequencer-held pad lights.
    assert_eq!(ctx.lights.pads[0].brightness, Brightness::Off);
    assert_eq!(ctx.lights.get_button(Buttons::Play), Brightness::Dim);
    assert_eq!(ctx.lights.get_button(Buttons::Stop), Brightness::Bright);

    // Resume at t=1000: the cursor seeks to the first event at or past
    // the saved position, and the anchor is set so 150 ms have elapsed.
    ctx.now_ms = 1000;
    looper.handle_button(Buttons::Play, true, &mut ctx);
    assert!(looper.playing);
    assert_eq!(looper.playback_cursor, 1);
    assert_eq!(looper.playback_start, Some(850));
}

#[test]
fn stop_halts_but_keeps_the_loop() {
    let mut ctx = ctx_at(0);
    let mut looper = PlayMode::new();

    looper.handle_button(Buttons::Rec, true, &mut ctx);
    looper.handle_pad(0, PadEventType::NoteOn, 1024, &mut ctx);
    ctx.now_ms = 250;
    looper.handle_button(Buttons::Rec, true, &mut ctx);

    ctx.now_ms = 300;
    looper.handle_button(Buttons::Stop, true, &mut ctx);
    assert!(!looper.playing && !looper.recording && !looper.armed);
    assert_eq!(looper.loop_duration, 250);
    assert_eq!(looper.events.len(), 1);
    assert_eq!(looper.paused_position, Some(0));
    assert_eq!(looper.playback_cursor, 0);
}

#[test]
fn erase_resets_everything_from_an_overdub() {
    let mut ctx = ctx_at(0);
    let mut looper = PlayMode::new();

    looper.handle_button(Buttons::Rec, true, &mut ctx);
    looper.handle_pad(0, PadEventType::NoteOn, 1024, &mut ctx);
    ctx.now_ms = 250;
    looper.handle_button(Buttons::Rec, true, &mut ctx);
    ctx.now_ms = 300;
    looper.handle_button(Buttons::Rec, true, &mut ctx); // overdub
    ctx.now_ms = 350;
    looper.handle_pad(5, PadEventType::NoteOn, 512, &mut ctx);

    ctx.now_ms = 400;
    looper.handle_button(Buttons::Erase, true, &mut ctx);
    assert!(!looper.armed && !looper.recording && !looper.playing);
    assert_eq!(looper.loop_duration, 0);
    assert!(looper.events.is_empty());
    assert_eq!(looper.playback_cursor, 0);
    assert_eq!(looper.paused_position, None);
    for i in 0..16 {
        assert_eq!(ctx.lights.pads[i].brightness, Brightness::Off);
        assert_eq!(ctx.lights.pads[i].color, PadColors::Off);
    }
    // With no loop stored the other transport lights collapse to off.
    assert_eq!(ctx.lights.get_button(Buttons::Play), Brightness::Off);
    assert_eq!(ctx.lights.get_button(Buttons::Stop), Brightness::Off);
    assert_eq!(ctx.lights.get_button(Buttons::Rec), Brightness::Dim);
}

#[test]
fn erase_from_idle_is_still_a_reset() {
    let mut ctx = ctx_at(0);
    let mut looper = PlayMode::new();
    looper.handle_button(Buttons::Erase, true, &mut ctx);
    assert!(!looper.armed && !looper.recording && !looper.playing);
    assert_eq!(looper.loop_duration, 0);
    assert!(looper.events.is_empty());
}

#[test]
fn rec_toggles_arming_while_idle() {
    let mut ctx = ctx_at(0);
    let mut looper = PlayMode::new();
    looper.handle_button(Buttons::Rec, true, &mut ctx);
    assert!(looper.armed);
    looper.handle_button(Buttons::Rec, true, &mut ctx);
    assert!(!looper.armed);
    assert_eq!(ctx.lights.get_button(Buttons::Rec), Brightness::Dim);
}

#[test]
fn record_light_blinks_on_the_tick_while_recording() {
    let mut ctx = ctx_at(0);
    let mut looper = PlayMode::new();
    looper.handle_button(Buttons::Rec, true, &mut ctx);
    looper.handle_pad(0, PadEventType::NoteOn, 1024, &mut ctx);

    ctx.now_ms = 100;
    let changed = looper.tick(&mut ctx);
    assert!(changed);
    assert_eq!(ctx.lights.get_button(Buttons::Rec), Brightness::Bright);

    ctx.now_ms = 600;
    looper.tick(&mut ctx);
    assert_eq!(ctx.lights.get_button(Buttons::Rec), Brightness::Dim);
}

#[test]
fn tick_is_a_no_op_while_idle() {
    let mut ctx = ctx_at(1000);
    let mut looper = PlayMode::new();
    let changed = looper.tick(&mut ctx);
    assert!(!changed);
    assert!(ctx.midi_out.is_empty());
}

#[test]
fn restart_rewinds_the_running_loop() {
    let mut ctx = ctx_at(0);
    let mut looper = PlayMode::new();

    looper.handle_button(Buttons::Rec, true, &mut ctx);
    looper.handle_pad(0, PadEventType::NoteOn, 1024, &mut ctx);
    ctx.now_ms = 200;
    looper.handle_button(Buttons::Rec, true, &mut ctx);

    // Let the tick fire the offset-0 event.
    ctx.now_ms = 250;
    looper.tick(&mut ctx);
    assert_eq!(looper.playback_cursor, 1);

    ctx.now_ms = 300;
    looper.handle_button(Buttons::Restart, true, &mut ctx);
    assert_eq!(looper.playback_cursor, 0);
    assert_eq!(looper.playback_start, Some(300));
    assert_eq!(looper.paused_position, Some(0));
}

#[test]
fn user_held_pad_outranks_the_sequencer_light() {
    let mut ctx = ctx_at(0);
    let mut looper = PlayMode::new();
    looper.handle_pad(7, PadEventType::PressOn, 4000, &mut ctx);
    assert_eq!(ctx.lights.pads[7].color, PadColors::White);
    assert_eq!(ctx.lights.pads[7].brightness, Brightness::Bright);
    ctx.now_ms = 10;
    looper.handle_pad(7, PadEventType::PressOff, 0, &mut ctx);
    assert_eq!(ctx.lights.pads[7].color, PadColors::Off);
    assert_eq!(ctx.lights.pads[7].brightness, Brightness::Off);
}

#[test]
fn zero_pressure_press_does_not_start_recording() {
    let mut ctx = ctx_at(0);
    let mut looper = PlayMode::new();
    looper.handle_button(Buttons::Rec, true, &mut ctx);
    looper.handle_pad(0, PadEventType::NoteOn, 0, &mut ctx);
    assert!(looper.armed);
    assert!(!looper.recording);
    assert!(looper.events.is_empty());
}

