use maschine_core::control::{decode_control_datagram, handle_control_message, ControlMessage, OscArg};
use maschine_core::controls::Buttons;
use maschine_core::lights::{Brightness, Lights, PadColors};
use maschine_core::midi::{encode_midi_emission, MidiEmission};
use maschine_core::osc::{encode_osc_emission, osc_button_emission, osc_fixed_emission};

#[test]
fn osc_int_message_bytes_are_exact() {
    // "/maschine/encoder" is 17 bytes: padded with 3 zeros to 20, then the
    // type tags ",i" padded to 4, then the argument big-endian.
    let e = osc_fixed_emission("/maschine/encoder", 1);
    let bytes = encode_osc_emission(&e);
    let mut expected = b"/maschine/encoder".to_vec();
    expected.extend_from_slice(&[0, 0, 0]);
    expected.extend_from_slice(b",i\0\0");
    expected.extend_from_slice(&[0, 0, 0, 1]);
    assert_eq!(bytes, expected);
}

#[test]
fn osc_negative_argument_encodes_in_twos_complement() {
    let e = osc_fixed_emission("/maschine/encoder", -1);
    let bytes = encode_osc_emission(&e);
    assert_eq!(&bytes[bytes.len() - 4..], &[0xff, 0xff, 0xff, 0xff]);
}

#[test]
fn osc_button_address_uses_the_lowercase_name() {
    let e = osc_button_emission(Buttons::NoteRepeat, 0);
    assert_eq!(e.addr, "/maschine/noterepeat");
    let bytes = encode_osc_emission(&e);
    // 20 address bytes + null padding to 24, 4 tag bytes, 4 argument bytes.
    assert_eq!(bytes.len(), 32);
    assert_eq!(&bytes[..20], b"/maschine/noterepeat");
}

#[test]
fn midi_note_messages_encode_to_three_bytes_on_channel_zero() {
    let on = encode_midi_emission(&MidiEmission::NoteOn { key: 60, velocity: 100 });
    assert_eq!(on, vec![0x90, 60, 100]);
    let off = encode_midi_emission(&MidiEmission::NoteOff { key: 60, velocity: 0 });
    assert_eq!(off, vec![0x80, 60, 0]);
    let cc = encode_midi_emission(&MidiEmission::ControlChange { controller: 20, value: 127 });
    assert_eq!(cc, vec![0xb0, 20, 127]);
}

#[test]
fn control_slider_message_draws_the_bar() {
    let mut lights = Lights::new();
    let msg = ControlMessage { addr: "/slider".to_string(), args: vec![OscArg::Int(100)] };
    let (changed, screen) = handle_control_message(&mut lights, &msg);
    assert!(changed);
    assert!(screen.is_none());
    assert_eq!(lights.slider[12], Brightness::Normal);
    assert_eq!(lights.slider[0], Brightness::Dim);
    assert_eq!(lights.slider[24], Brightness::Off);
}

#[test]
fn control_pad_message_sets_color_and_brightness() {
    let mut lights = Lights::new();
    let msg = ControlMessage {
        addr: "/pad/3".to_string(),
        args: vec![OscArg::Int(5), OscArg::Int(2)],
    };
    let (changed, _) = handle_control_message(&mut lights, &msg);
    assert!(changed);
    assert_eq!(lights.pads[3].color, PadColors::Blue);
    assert_eq!(lights.pads[3].brightness, Brightness::Normal);
}

#[test]
fn control_pad_message_out_of_range_is_ignored() {
    let mut lights = Lights::new();
    let msg = ControlMessage {
        addr: "/pad/16".to_string(),
        args: vec![OscArg::Int(5), OscArg::Int(2)],
    };
    let (changed, _) = handle_control_message(&mut lights, &msg);
    assert!(!changed);
}

#[test]
fn control_button_message_sets_the_light() {
    let mut lights = Lights::new();
    let msg = ControlMessage { addr: "/play".to_string(), args: vec![OscArg::Int(1)] };
    let (changed, _) = handle_control_message(&mut lights, &msg);
    assert!(changed);
    assert_eq!(lights.get_button(Buttons::Play), Brightness::Bright);

    let msg = ControlMessage { addr: "/play".to_string(), args: vec![OscArg::Int(0)] };
    handle_control_message(&mut lights, &msg);
    assert_eq!(lights.get_button(Buttons::Play), Brightness::Off);
}

#[test]
fn control_unknown_address_changes_nothing() {
    let mut lights = Lights::new();
    let msg = ControlMessage { addr: "/no/such/thing".to_string(), args: vec![OscArg::Int(1)] };
    let (changed, screen) = handle_control_message(&mut lights, &msg);
    assert!(!changed);
    assert!(screen.is_none());
}

#[test]
fn control_screen_text_is_handed_on() {
    let mut lights = Lights::new();
    let msg = ControlMessage {
        addr: "/maschine/screen/text".to_string(),
        args: vec![OscArg::Str("hello".to_string())],
    };
    let (changed, screen) = handle_control_message(&mut lights, &msg);
    assert!(!changed);
    assert_eq!(screen.as_deref(), Some("hello"));
}

#[test]
fn inbound_datagrams_decode_to_plain_values() {
    let packet = rosc::OscPacket::Message(rosc::OscMessage {
        addr: "/pad/7".to_string(),
        args: vec![rosc::OscType::Int(3), rosc::OscType::Int(1)],
    });
    let bytes = rosc::encoder::encode(&packet).unwrap();
    let msg = decode_control_datagram(&bytes).expect("a message decodes");
    assert_eq!(msg.addr, "/pad/7");
    assert!(matches!(msg.args[0], OscArg::Int(3)));
    assert!(matches!(msg.args[1], OscArg::Int(1)));

    let mut lights = Lights::new();
    let (changed, _) = handle_control_message(&mut lights, &msg);
    assert!(changed);
    assert_eq!(lights.pads[7].color, PadColors::Yellow);
    assert_eq!(lights.pads[7].brightness, Brightness::Dim);
}

#[test]
fn garbage_datagrams_decode_to_nothing() {
    assert!(decode_control_datagram(&[1, 2, 3]).is_none());
    assert!(decode_control_datagram(&[]).is_none());
}
