//! Inbound network control messages: a decoded message's address selects a
//! light to drive or hands a line of text on to the caller's screen
//! renderer.
//!
//! The caller reads datagrams; `decode_control_datagram` turns one into
//! plain values, and `handle_control_message` applies it to the light
//! framebuffer, verified for every value the decoder could hand back.

use vstd::prelude::*;
use crate::controls::{
    button_from_name, button_from_name_spec, button_index_spec, str_eq, Buttons,
};
use crate::lights::{
    draw_slider_bar, pad_color_of_code, pad_color_of_code_spec, slider_segment, Brightness,
    Lights, PadColors, PadLight, PAD_COUNT, SLIDER_SEGMENTS,
};

verus! {

/// One argument of an inbound message, reduced to what the core reads.
pub enum OscArg {
    Int(i32),
    Str(String),
    Other,
}

/// One inbound control message.
pub struct ControlMessage {
    pub addr: String,
    pub args: Vec<OscArg>,
}

/// Relies on rosc::decoder::decode_udp: parses one OSC datagram; a packet
/// that is a single message comes back as its address and arguments,
/// anything else as nothing.
#[verifier::external_body]
fn rosc_decode_message(buf: &[u8]) -> (r: Option<ControlMessage>) {
    match rosc::decoder::decode_udp(buf) {
        Ok((_, rosc::OscPacket::Message(m))) => Some(ControlMessage {
            addr: m.addr,
            args: m.args.into_iter().map(|a| match a {
                rosc::OscType::Int(i) => OscArg::Int(i),
                rosc::OscType::String(s) => OscArg::Str(s),
                _ => OscArg::Other,
            }).collect(),
        }),
        _ => None,
    }
}

/// Decode one inbound datagram into a control message, if it carries one.
pub fn decode_control_datagram(buf: &[u8]) -> (r: Option<ControlMessage>) {
    rosc_decode_message(buf)
}

/// The index of the first separator at or past `i`, or the end.
pub open spec fn next_sep(s: Seq<char>, i: int) -> int
    decreases s.len() - i,
{
    if i < 0 || i >= s.len() {
        s.len() as int
    } else if s[i] == '/' {
        i
    } else {
        next_sep(s, i + 1)
    }
}

/// The nonempty parts of an address from position `i` on, split on `/`.
pub open spec fn parts_from(s: Seq<char>, i: int) -> Seq<Seq<char>>
    decreases s.len() - i,
{
    if i < 0 || i >= s.len() {
        Seq::empty()
    } else if s[i] == '/' {
        parts_from(s, i + 1)
    } else {
        let j = next_sep(s, i);
        if i < j <= s.len() {
            seq![s.subrange(i, j)] + parts_from(s, j)
        } else {
            Seq::empty()
        }
    }
}

/// The nonempty parts of an address, split on `/`.
pub open spec fn addr_parts(s: Seq<char>) -> Seq<Seq<char>> {
    parts_from(s, 0)
}

proof fn lemma_next_sep_bounds(s: Seq<char>, i: int)
    requires
        0 <= i <= s.len(),
    ensures
        i <= next_sep(s, i) <= s.len(),
        forall|j: int| i <= j < next_sep(s, i) ==> s[j] != '/',
        next_sep(s, i) < s.len() ==> s[next_sep(s, i)] == '/',
    decreases s.len() - i,
{
    if i < s.len() && s[i] != '/' {
        lemma_next_sep_bounds(s, i + 1);
    }
}

/// Split an address into its nonempty parts.
fn split_addr(s: &str) -> (parts: Vec<String>)
    ensures
        parts.deep_view() == addr_parts(s@),
{
    let n = s.unicode_len();
    let mut parts: Vec<String> = Vec::new();
    let mut i: usize = 0;
    while i < n
        invariant
            i <= n,
            n == s@.len(),
            addr_parts(s@) == parts.deep_view() + parts_from(s@, i as int),
        decreases n - i,
    {
        if s.get_char(i) == '/' {
            i = i + 1;
        } else {
            let ghost start = i as int;
            let mut j: usize = i + 1;
            while j < n && s.get_char(j) != '/'
                invariant
                    start < j <= n,
                    n == s@.len(),
                    forall|k: int| start <= k < j ==> s@[k] != '/',
                    s@[start] != '/',
                decreases n - j,
            {
                j = j + 1;
            }
            proof {
                lemma_next_sep_bounds(s@, start);
                if j < n {
                    assert(next_sep(s@, start) == j) by {
                        lemma_next_sep_char(s@, start, j as int);
                    }
                } else {
                    assert(next_sep(s@, start) == n) by {
                        lemma_next_sep_char(s@, start, n as int);
                    }
                }
            }
            let part = s.substring_char(i, j).to_owned();
            parts.push(part);
            proof {
                assert(parts.deep_view() =~= parts.deep_view().drop_last().push(part@));
            }
            i = j;
        }
    }
    proof {
        assert(parts.deep_view() + parts_from(s@, i as int) =~= parts.deep_view());
    }
    parts
}

proof fn lemma_next_sep_char(s: Seq<char>, i: int, j: int)
    requires
        0 <= i <= j <= s.len(),
        forall|k: int| i <= k < j ==> s[k] != '/',
        j < s.len() ==> s[j] == '/',
    ensures
        next_sep(s, i) == j,
    decreases j - i,
{
    if i < j {
        lemma_next_sep_char(s, i + 1, j);
    }
}

/// Whether a sequence of characters is one or more decimal digits.
pub open spec fn all_digits(s: Seq<char>) -> bool {
    s.len() > 0 && forall|i: int| 0 <= i < s.len() ==> 48 <= (#[trigger] s[i]) as u32 <= 57
}

/// The numeric value of a digit string, capped at 16: the inbound pad
/// address only needs to tell the sixteen pads from everything larger.
pub open spec fn dec_value_capped(s: Seq<char>) -> int
    decreases s.len(),
{
    if s.len() == 0 {
        0
    } else {
        let prefix = dec_value_capped(s.drop_last());
        let d = s.last() as u32 - 48;
        if prefix * 10 + d >= 16 {
            16
        } else {
            prefix * 10 + d
        }
    }
}

/// Parse a digit-only part as a pad index below sixteen.
fn parse_pad_index(s: &str) -> (r: Option<usize>)
    ensures
        match r {
            Some(p) => all_digits(s@) && dec_value_capped(s@) == p && p < PAD_COUNT,
            None => !(all_digits(s@) && dec_value_capped(s@) < PAD_COUNT),
        },
{
    let n = s.unicode_len();
    if n == 0 {
        return None;
    }
    let mut value: usize = 0;
    let mut i: usize = 0;
    while i < n
        invariant
            i <= n,
            n == s@.len(),
            value == dec_value_capped(s@.subrange(0, i as int)),
            value <= 16,
            forall|k: int| 0 <= k < i ==> 48 <= (#[trigger] s@[k]) as u32 <= 57,
        decreases n - i,
    {
        let c = s.get_char(i);
        let u = c as u32;
        if !(48 <= u && u <= 57) {
            return None;
        }
        let d = (u - 48) as usize;
        let next = if value * 10 + d >= 16 {
            16
        } else {
            value * 10 + d
        };
        proof {
            assert(s@.subrange(0, i as int + 1).drop_last() =~= s@.subrange(0, i as int));
            assert(s@.subrange(0, i as int + 1).last() == s@[i as int]);
        }
        value = next;
        i = i + 1;
    }
    proof {
        assert(s@.subrange(0, n as int) =~= s@);
    }
    if value < PAD_COUNT {
        Some(value)
    } else {
        None
    }
}

/// The brightness an inbound pad message's second argument selects.
pub open spec fn brightness_of_code_spec(code: int) -> Brightness {
    if code == 1 {
        Brightness::Dim
    } else if code == 2 {
        Brightness::Normal
    } else if code == 3 {
        Brightness::Bright
    } else {
        Brightness::Off
    }
}

fn brightness_of_code(code: i32) -> (r: Brightness)
    ensures
        r == brightness_of_code_spec(code as int),
{
    match code {
        1 => Brightness::Dim,
        2 => Brightness::Normal,
        3 => Brightness::Bright,
        _ => Brightness::Off,
    }
}


/// What an inbound message does to the lights, phrased over the split
/// address: `/slider` with an integer redraws the slider bar, `/pad/<n>`
/// with two integers sets that pad's color and brightness, and a single
/// part naming a button sets its light full on or off.
pub open spec fn control_changes_lights(msg: ControlMessage) -> bool {
    let parts = addr_parts(msg.addr@);
    if parts.len() == 1 && parts[0] == "slider"@ {
        msg.args@.len() > 0 && msg.args@[0] is Int
    } else if parts.len() == 1 && button_from_name_spec(parts[0]) is Some {
        msg.args@.len() > 0 && msg.args@[0] is Int
    } else if parts.len() == 2 && parts[0] == "pad"@ && all_digits(parts[1]) && dec_value_capped(
        parts[1],
    ) < PAD_COUNT {
        msg.args@.len() > 1 && msg.args@[0] is Int && msg.args@[1] is Int
    } else {
        false
    }
}

/// The screen text an inbound message forwards, if any.
pub open spec fn control_screen_text(msg: ControlMessage) -> Option<Seq<char>> {
    if msg.addr@ == "/maschine/screen/text"@ && msg.args@.len() > 0 && msg.args@[0] is Str {
        Some(msg.args@[0]->Str_0@)
    } else {
        None
    }
}

/// The 8-bit slider position an inbound integer selects, clamped to the
/// bar's 200-unit range.
pub open spec fn control_slider_value(v: i32) -> u8 {
    if (v as u8) > 200 {
        200u8
    } else {
        v as u8
    }
}

/// Apply one inbound control message to the lights. Returns whether any
/// light changed and the screen text to forward, if the message carried
/// one.
pub fn handle_control_message(lights: &mut Lights, msg: &ControlMessage) -> (r: (
    bool,
    Option<String>,
))
    requires
        old(lights).wf(),
    ensures
        final(lights).wf(),
        r.0 == control_changes_lights(*msg),
        match control_screen_text(*msg) {
            Some(t) => r.1 matches Some(s) && s@ == t,
            None => r.1 is None,
        },
        ({
            let parts = addr_parts(msg.addr@);
            if !control_changes_lights(*msg) {
                &&& final(lights).buttons@ == old(lights).buttons@
                &&& final(lights).pads@ == old(lights).pads@
                &&& final(lights).slider@ == old(lights).slider@
            } else if parts.len() == 1 && parts[0] == "slider"@ {
                let v = msg.args@[0]->Int_0;
                &&& final(lights).buttons@ == old(lights).buttons@
                &&& final(lights).pads@ == old(lights).pads@
                &&& (forall|i: int|
                    0 <= i < SLIDER_SEGMENTS ==> final(lights).slider@[i] == slider_segment(
                        control_slider_value(v),
                        i,
                    ))
            } else if parts.len() == 1 {
                let b = button_from_name_spec(parts[0])->Some_0;
                let v = msg.args@[0]->Int_0;
                &&& final(lights).buttons@ == old(lights).buttons@.update(
                    button_index_spec(b),
                    if v == 1 {
                        Brightness::Bright
                    } else {
                        Brightness::Off
                    },
                )
                &&& final(lights).pads@ == old(lights).pads@
                &&& final(lights).slider@ == old(lights).slider@
            } else {
                let p = dec_value_capped(parts[1]);
                let c = msg.args@[0]->Int_0;
                let v = msg.args@[1]->Int_0;
                &&& final(lights).buttons@ == old(lights).buttons@
                &&& final(lights).pads@ == old(lights).pads@.update(
                    p,
                    PadLight {
                        color: pad_color_of_code_spec(c as int),
                        brightness: brightness_of_code_spec(v as int),
                    },
                )
                &&& final(lights).slider@ == old(lights).slider@
            }
        }),
{
    let screen: Option<String> = if str_eq(msg.addr.as_str(), "/maschine/screen/text") {
        if msg.args.len() > 0 {
            match &msg.args[0] {
                OscArg::Str(s) => Some(s.clone()),
                _ => None,
            }
        } else {
            None
        }
    } else {
        None
    };

    let parts = split_addr(msg.addr.as_str());
    let mut changed = false;

    if parts.len() == 1 {
        if str_eq(parts[0].as_str(), "slider") {
            if msg.args.len() > 0 {
                if let OscArg::Int(v) = &msg.args[0] {
                    let raw = #[verifier::truncate] (*v as u8);
                    let sval = if raw > 200 {
                        200
                    } else {
                        raw
                    };
                    draw_slider_bar(lights, sval);
                    changed = true;
                }
            }
        } else if let Some(b) = button_from_name(parts[0].as_str()) {
            if msg.args.len() > 0 {
                if let OscArg::Int(v) = &msg.args[0] {
                    let brightness = if *v == 1 {
                        Brightness::Bright
                    } else {
                        Brightness::Off
                    };
                    lights.set_button(b, brightness);
                    changed = true;
                }
            }
        }
    } else if parts.len() == 2 {
        if str_eq(parts[0].as_str(), "pad") {
            if let Some(pad_id) = parse_pad_index(parts[1].as_str()) {
                if msg.args.len() > 1 {
                    let c_arg = &msg.args[0];
                    let b_arg = &msg.args[1];
                    if let (OscArg::Int(c), OscArg::Int(v)) = (c_arg, b_arg) {
                        let color = pad_color_of_code(*c);
                        let brightness = brightness_of_code(*v);
                        lights.set_pad(pad_id, color, brightness);
                        changed = true;
                    }
                }
            }
        }
    }

    (changed, screen)
}

} // verus!
