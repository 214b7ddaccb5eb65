use maschine_core::controls::{Buttons, PadEventType};
use maschine_core::input::{parse_hid_report, HardwareEvent};

fn button_report(bitmap: [u8; 6], encoder: u8, slider: u8) -> Vec<u8> {
    let mut buf = vec![0u8; 11];
    buf[0] = 0x01;
    buf[1..7].copy_from_slice(&bitmap);
    buf[7] = encoder;
    buf[10] = slider;
    buf
}

#[test]
fn empty_buffer_yields_no_events() {
    assert!(parse_hid_report(&[]).is_empty());
}

#[test]
fn unknown_report_type_yields_no_events() {
    assert!(parse_hid_report(&[0x03, 0xff, 0xff]).is_empty());
    assert!(parse_hid_report(&[0x00]).is_empty());
}

#[test]
fn button_report_emits_one_event_per_mapped_bit_in_order() {
    let buf = button_report([0b0000_0001, 0, 0, 0, 0, 0], 0, 0);
    let events = parse_hid_report(&buf);
    // 41 buttons minus the suppressed encoder touch, plus encoder and slider.
    assert_eq!(events.len(), 42);
    match &events[0] {
        HardwareEvent::Button { index, pressed } => {
            assert_eq!(*index, Buttons::NativeInstruments);
            assert!(*pressed);
        },
        other => panic!("expected a button event, got {:?}", other),
    }
    for (k, e) in events.iter().take(40).enumerate() {
        match e {
            HardwareEvent::Button { pressed, .. } => {
                assert_eq!(*pressed, k == 0, "bit state of event {}", k);
            },
            other => panic!("expected a button event, got {:?}", other),
        }
    }
}

#[test]
fn encoder_touch_never_becomes_an_event() {
    // Encoder touch is bit 40: byte 6, bit 0.
    let buf = button_report([0, 0, 0, 0, 0, 0b0000_0001], 0, 0);
    let events = parse_hid_report(&buf);
    assert_eq!(events.len(), 42);
    for e in &events {
        if let HardwareEvent::Button { index, pressed } = e {
            assert_ne!(*index, Buttons::EncoderTouch);
            assert!(!*pressed);
        }
    }
}

#[test]
fn button_report_carries_encoder_and_slider_samples() {
    let buf = button_report([0; 6], 42, 200);
    let events = parse_hid_report(&buf);
    assert_eq!(events[40], HardwareEvent::Encoder { value: 42 });
    assert_eq!(events[41], HardwareEvent::Slider { value: 200 });
}

#[test]
fn short_button_report_omits_missing_fields() {
    // Only the type byte and the first bitmap byte: no encoder, no slider.
    let events = parse_hid_report(&[0x01, 0b1000_0000]);
    assert_eq!(events.len(), 8);
    match &events[7] {
        HardwareEvent::Button { index, pressed } => {
            assert_eq!(*index, Buttons::Sampling);
            assert!(*pressed);
        },
        other => panic!("expected a button event, got {:?}", other),
    }
}

#[test]
fn pad_report_decodes_records() {
    // Two records: pad 3 note-on value 0x234, pad 5 note-off value 0.
    let buf = vec![0x02, 3, 0x12, 0x34, 5, 0x30, 0x00];
    let events = parse_hid_report(&buf);
    assert_eq!(events.len(), 2);
    assert_eq!(
        events[0],
        HardwareEvent::Pad { index: 3, event_type: PadEventType::NoteOn, value: 0x234 }
    );
    assert_eq!(
        events[1],
        HardwareEvent::Pad { index: 5, event_type: PadEventType::NoteOff, value: 0 }
    );
}

#[test]
fn pad_report_stops_at_first_all_zero_record_after_the_first() {
    let buf = vec![
        0x02, // pad report
        3, 0x12, 0x34, // a real record
        0, 0x00, 0x00, // all-zero terminator: nothing after it counts
        7, 0x12, 0x11, // would be a record, but lies past the end
    ];
    let events = parse_hid_report(&buf);
    assert_eq!(events.len(), 1);
    assert_eq!(
        events[0],
        HardwareEvent::Pad { index: 3, event_type: PadEventType::NoteOn, value: 0x234 }
    );
}

#[test]
fn pad_report_all_zero_first_record_is_a_real_event() {
    // An all-zero record at the very start is pad 0 of a kindless record:
    // no known kind nibble, so it decodes to nothing but does not stop the run.
    let buf = vec![0x02, 0, 0x00, 0x00, 4, 0x40, 0x7f];
    let events = parse_hid_report(&buf);
    assert_eq!(events.len(), 1);
    assert_eq!(
        events[0],
        HardwareEvent::Pad { index: 4, event_type: PadEventType::PressOn, value: 0x7f }
    );
}

#[test]
fn pad_report_skips_unknown_kind_nibbles() {
    let buf = vec![0x02, 2, 0x62, 0x01, 3, 0x50, 0x00];
    let events = parse_hid_report(&buf);
    assert_eq!(events.len(), 1);
    assert_eq!(
        events[0],
        HardwareEvent::Pad { index: 3, event_type: PadEventType::PressOff, value: 0 }
    );
}

#[test]
fn pad_report_ignores_trailing_partial_record() {
    let buf = vec![0x02, 2, 0x21, 0x10, 9, 0x10];
    let events = parse_hid_report(&buf);
    assert_eq!(events.len(), 1);
    assert_eq!(
        events[0],
        HardwareEvent::Pad { index: 2, event_type: PadEventType::Aftertouch, value: 0x110 }
    );
}
