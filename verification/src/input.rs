//! The HID report decoder: a stateless, deterministic map from a raw report
//! buffer to the sequence of hardware events it carries.
//!
//! A buffer whose first byte is `0x01` is a button/encoder/slider report:
//! bytes 1 through 6 form a bitmap with one bit per button (the encoder's
//! touch sensor is always suppressed), byte 7 is the encoder's absolute
//! position and byte 10 the slider's. A first byte of `0x02` is a pad report,
//! a run of 3-byte records ended by the first all-zero record after the
//! first. Any other first byte decodes to no events at all.

use vstd::prelude::*;
use crate::controls::{
    button_of_index, button_of_index_spec, pad_event_of_nibble, pad_event_of_nibble_spec, Buttons,
    PadEventType,
};

verus! {

/// One semantic event decoded from a report.
#[derive(Clone, Copy, Debug, PartialEq, Eq, Structural)]
pub enum HardwareEvent {
    Button { index: Buttons, pressed: bool },
    Pad { index: usize, event_type: PadEventType, value: u16 },
    Encoder { value: u8 },
    Slider { value: u8 },
}

/// Whether the bitmap bit for bit position `idx` is set. The bitmap starts
/// at byte 1; a position whose byte lies past the end of the buffer reads
/// as absent.
pub open spec fn button_bit_set(bytes: Seq<u8>, idx: int) -> bool {
    ((bytes[idx / 8 + 1] >> (idx % 8) as u8) & 1) == 1
}

/// The button events contributed by bit position `idx`: one event for every
/// mapped position whose bitmap byte is present, except the encoder's touch
/// sensor, which never becomes an event.
pub open spec fn button_event_at(bytes: Seq<u8>, idx: int) -> Seq<HardwareEvent> {
    match button_of_index_spec(idx) {
        Some(b) => {
            if b != Buttons::EncoderTouch && idx / 8 + 1 < bytes.len() {
                seq![HardwareEvent::Button { index: b, pressed: button_bit_set(bytes, idx) }]
            } else {
                Seq::empty()
            }
        },
        None => Seq::empty(),
    }
}

/// The button events for all bit positions below `n`, in bit order.
pub open spec fn button_events_upto(bytes: Seq<u8>, n: int) -> Seq<HardwareEvent>
    decreases n,
{
    if n <= 0 {
        Seq::empty()
    } else {
        button_events_upto(bytes, n - 1) + button_event_at(bytes, n - 1)
    }
}

/// The encoder sample event of a button report, when byte 7 is present.
pub open spec fn encoder_event(bytes: Seq<u8>) -> Seq<HardwareEvent> {
    if bytes.len() > 7 {
        seq![HardwareEvent::Encoder { value: bytes[7] }]
    } else {
        Seq::empty()
    }
}

/// The slider sample event of a button report, when byte 10 is present.
pub open spec fn slider_event(bytes: Seq<u8>) -> Seq<HardwareEvent> {
    if bytes.len() > 10 {
        seq![HardwareEvent::Slider { value: bytes[10] }]
    } else {
        Seq::empty()
    }
}

/// The value carried by the pad record starting at byte `i`:
/// the low nibble of its second byte and all of its third.
pub open spec fn pad_record_value(bytes: Seq<u8>, i: int) -> int {
    (bytes[i + 1] & 0x0f) * 256 + bytes[i + 2]
}

/// Whether the pad record starting at byte `i` is all zero, which ends the
/// report's payload.
pub open spec fn pad_record_is_zero(bytes: Seq<u8>, i: int) -> bool {
    bytes[i] == 0 && (bytes[i + 1] & 0xf0) == 0 && pad_record_value(bytes, i) == 0
}

/// The pad events of the records from byte `i` on: each complete record
/// with a known kind nibble yields one event; an all-zero record after the
/// first ends the run, and an unknown kind is skipped.
pub open spec fn pad_events_from(bytes: Seq<u8>, i: int) -> Seq<HardwareEvent>
    decreases bytes.len() - i,
{
    if i < 1 || i + 2 >= bytes.len() {
        Seq::empty()
    } else if i > 1 && pad_record_is_zero(bytes, i) {
        Seq::empty()
    } else {
        let rest = pad_events_from(bytes, i + 3);
        match pad_event_of_nibble_spec(bytes[i + 1] & 0xf0) {
            Some(k) => seq![
                HardwareEvent::Pad {
                    index: bytes[i] as usize,
                    event_type: k,
                    value: pad_record_value(bytes, i) as u16,
                },
            ] + rest,
            None => rest,
        }
    }
}

/// Everything a report buffer decodes to.
pub open spec fn parse_hid_report_spec(bytes: Seq<u8>) -> Seq<HardwareEvent> {
    if bytes.len() == 0 {
        Seq::empty()
    } else if bytes[0] == 0x01 {
        button_events_upto(bytes, 48) + encoder_event(bytes) + slider_event(bytes)
    } else if bytes[0] == 0x02 {
        pad_events_from(bytes, 1)
    } else {
        Seq::empty()
    }
}

/// Parses a raw HID report buffer into the sequence of events it carries.
/// Malformed or unrecognized bytes yield a partial or empty sequence,
/// never an error.
pub fn parse_hid_report(buf: &[u8]) -> (events: Vec<HardwareEvent>)
    ensures
        events@ == parse_hid_report_spec(buf@),
{
    let mut events: Vec<HardwareEvent> = Vec::new();

    if buf.len() == 0 {
        return events;
    }

    if buf[0] == 0x01 {
        let mut idx: usize = 0;
        while idx < 48
            invariant
                idx <= 48,
                buf@.len() > 0,
                events@ == button_events_upto(buf@, idx as int),
            decreases 48 - idx,
        {
            let byte_i = idx / 8;
            let j = (idx % 8) as u8;
            if byte_i + 1 < buf.len() {
                if let Some(button) = button_of_index(idx) {
                    if !matches!(button, Buttons::EncoderTouch) {
                        let pressed = ((buf[byte_i + 1] >> j) & 1) == 1;
                        events.push(HardwareEvent::Button { index: button, pressed });
                    }
                }
            }
            idx = idx + 1;
        }

        if buf.len() > 7 {
            events.push(HardwareEvent::Encoder { value: buf[7] });
        }
        if buf.len() > 10 {
            events.push(HardwareEvent::Slider { value: buf[10] });
        }
        assert(events@ =~= parse_hid_report_spec(buf@));
    } else if buf[0] == 0x02 {
        let mut i: usize = 1;
        let ghost mut done: Seq<HardwareEvent> = Seq::empty();
        while i + 2 < buf.len()
            invariant_except_break
                1 <= i,
                buf@.len() > 0,
                buf@[0] == 0x02,
                i % 3 == 1,
                events@ == done,
                pad_events_from(buf@, 1) == done + pad_events_from(buf@, i as int),
            ensures
                events@ == pad_events_from(buf@, 1),
            decreases buf@.len() - i,
        {
            let idx = buf[i];
            let b1 = buf[i + 1];
            let evt_nibble = b1 & 0xf0;
            let low = b1 & 0x0f;
            assert(low <= 0x0f && ((low as u16) << 8) == (low as u16) * 256) by (bit_vector)
                requires
                    low == b1 & 0x0f,
            ;
            let val: u16 = ((low as u16) << 8) + buf[i + 2] as u16;

            if i > 1 && idx == 0 && evt_nibble == 0 && val == 0 {
                break;
            }

            if let Some(kind) = pad_event_of_nibble(evt_nibble) {
                events.push(
                    HardwareEvent::Pad { index: idx as usize, event_type: kind, value: val },
                );
            }
            proof {
                done = events@;
            }
            i = i + 3;
        }
        assert(events@ =~= parse_hid_report_spec(buf@));
    }

    events
}

/// A full button report decodes to exactly one button event per mapped bit
/// position, in bit order, excluding the encoder's touch sensor: event `k`
/// reports the button at bit position `k` with its bit's state.
pub proof fn lemma_button_report_events(bytes: Seq<u8>)
    requires
        bytes.len() >= 11,
        bytes[0] == 0x01,
    ensures
        parse_hid_report_spec(bytes).len() == 42,
        forall|k: int|
            0 <= k < 40 ==> parse_hid_report_spec(bytes)[k] == (HardwareEvent::Button {
                index: button_of_index_spec(k)->Some_0,
                pressed: button_bit_set(bytes, k),
            }),
        parse_hid_report_spec(bytes)[40] == (HardwareEvent::Encoder { value: bytes[7] }),
        parse_hid_report_spec(bytes)[41] == (HardwareEvent::Slider { value: bytes[10] }),
{
    lemma_button_events_shape(bytes, 48);
}

/// The button-event run below bit position `n` holds one event per mapped,
/// non-suppressed position, in bit order.
proof fn lemma_button_events_shape(bytes: Seq<u8>, n: int)
    requires
        bytes.len() >= 7,
        0 <= n <= 48,
    ensures
        button_events_upto(bytes, n).len() == if n <= 40 {
            n
        } else {
            40int
        },
        forall|k: int|
            0 <= k < 40 && k < n ==> button_events_upto(bytes, n)[k] == (HardwareEvent::Button {
                index: button_of_index_spec(k)->Some_0,
                pressed: button_bit_set(bytes, k),
            }),
    decreases n,
{
    if n > 0 {
        lemma_button_events_shape(bytes, n - 1);
    }
}

/// Pad decoding stops at the first all-zero record after the first record
/// and emits no event for it or anything after it.
pub proof fn lemma_pad_report_stops_at_zero_record(bytes: Seq<u8>, z: int)
    requires
        bytes.len() > 0,
        bytes[0] == 0x02,
        z > 1,
        z % 3 == 1,
        z + 2 < bytes.len(),
        pad_record_is_zero(bytes, z),
        forall|i: int| 1 <= i < z && i % 3 == 1 ==> !pad_record_is_zero(bytes, i),
    ensures
        parse_hid_report_spec(bytes) == pad_events_upto(bytes, 1, z),
{
    lemma_pad_events_split(bytes, 1, z);
}

/// The pad events of the records from byte `i` up to byte `z`, exclusive;
/// the part of the run a terminator at `z` leaves.
pub open spec fn pad_events_upto(bytes: Seq<u8>, i: int, z: int) -> Seq<HardwareEvent>
    decreases bytes.len() - i,
{
    if i < 1 || i + 2 >= bytes.len() || i >= z {
        Seq::empty()
    } else {
        let rest = pad_events_upto(bytes, i + 3, z);
        match pad_event_of_nibble_spec(bytes[i + 1] & 0xf0) {
            Some(k) => seq![
                HardwareEvent::Pad {
                    index: bytes[i] as usize,
                    event_type: k,
                    value: pad_record_value(bytes, i) as u16,
                },
            ] + rest,
            None => rest,
        }
    }
}

proof fn lemma_pad_events_split(bytes: Seq<u8>, i: int, z: int)
    requires
        1 <= i <= z,
        i % 3 == 1,
        z % 3 == 1,
        z + 2 < bytes.len(),
        pad_record_is_zero(bytes, z),
        z > 1,
        forall|j: int| 1 <= j < z && j % 3 == 1 ==> !pad_record_is_zero(bytes, j),
    ensures
        pad_events_from(bytes, i) == pad_events_upto(bytes, i, z),
    decreases z - i,
{
    if i == z {
        assert(pad_events_from(bytes, i) =~= Seq::<HardwareEvent>::empty());
    } else {
        lemma_pad_events_split(bytes, i + 3, z);
        assert(pad_events_from(bytes, i) =~= pad_events_upto(bytes, i, z));
    }
}


/// Whether an event is within the device's ranges: a pad index among the
/// sixteen pads and a 12-bit pad value. Reports from the device satisfy
/// this; the mode handlers expect it.
pub open spec fn event_wf(e: HardwareEvent) -> bool {
    match e {
        HardwareEvent::Pad { index, event_type, value } => index < 16 && value < 4096,
        _ => true,
    }
}

} // verus!
