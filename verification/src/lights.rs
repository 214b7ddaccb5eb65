//! A plain model of the device's light framebuffer: one brightness per
//! button, a color and brightness per pad, and a 25-segment slider bar.
//!
//! The modes read and write this state; the caller owns the single copy and
//! writes it out to the device when a dispatch reports a change.

use vstd::prelude::*;
use vstd::pervasive::VecAdditionalExecFns;
use crate::controls::{button_index, button_index_spec, Buttons, BUTTON_COUNT};

verus! {

/// Brightness levels a light can show.
#[derive(Clone, Copy, Debug, PartialEq, Eq, Structural)]
pub enum Brightness {
    Off,
    Dim,
    Normal,
    Bright,
}

/// Colors a pad light can show.
#[derive(Clone, Copy, Debug, PartialEq, Eq, Structural)]
pub enum PadColors {
    Off,
    Red,
    Orange,
    Yellow,
    Green,
    Blue,
    Purple,
    White,
}

/// The pad color selected by an integer color code, or `Off` for an
/// unknown code.
pub open spec fn pad_color_of_code_spec(code: int) -> PadColors {
    if code == 1 {
        PadColors::Red
    } else if code == 2 {
        PadColors::Orange
    } else if code == 3 {
        PadColors::Yellow
    } else if code == 4 {
        PadColors::Green
    } else if code == 5 {
        PadColors::Blue
    } else if code == 6 {
        PadColors::Purple
    } else if code == 7 {
        PadColors::White
    } else {
        PadColors::Off
    }
}

/// The pad color selected by an integer color code.
pub fn pad_color_of_code(code: i32) -> (r: PadColors)
    ensures
        r == pad_color_of_code_spec(code as int),
{
    match code {
        1 => PadColors::Red,
        2 => PadColors::Orange,
        3 => PadColors::Yellow,
        4 => PadColors::Green,
        5 => PadColors::Blue,
        6 => PadColors::Purple,
        7 => PadColors::White,
        _ => PadColors::Off,
    }
}

/// One pad's light: a color and a brightness.
#[derive(Clone, Copy, Debug, PartialEq, Eq, Structural)]
pub struct PadLight {
    pub color: PadColors,
    pub brightness: Brightness,
}

/// How many pads the device has.
pub const PAD_COUNT: usize = 16;

/// How many segments the slider bar has.
pub const SLIDER_SEGMENTS: usize = 25;

/// The light framebuffer: button brightness by bit position, pad lights by
/// pad index, and the slider bar segments.
pub struct Lights {
    pub buttons: Vec<Brightness>,
    pub pads: Vec<PadLight>,
    pub slider: Vec<Brightness>,
}

impl Lights {
    /// The fixed shape of the framebuffer.
    pub open spec fn wf(&self) -> bool {
        &&& self.buttons@.len() == BUTTON_COUNT
        &&& self.pads@.len() == PAD_COUNT
        &&& self.slider@.len() == SLIDER_SEGMENTS
    }

    /// A framebuffer with every light off.
    pub fn new() -> (r: Lights)
        ensures
            r.wf(),
            forall|i: int| 0 <= i < BUTTON_COUNT ==> r.buttons@[i] == Brightness::Off,
            forall|i: int|
                0 <= i < PAD_COUNT ==> r.pads@[i] == (PadLight {
                    color: PadColors::Off,
                    brightness: Brightness::Off,
                }),
            forall|i: int| 0 <= i < SLIDER_SEGMENTS ==> r.slider@[i] == Brightness::Off,
    {
        Lights {
            buttons: vec![Brightness::Off; BUTTON_COUNT],
            pads: vec![PadLight { color: PadColors::Off, brightness: Brightness::Off }; PAD_COUNT],
            slider: vec![Brightness::Off; SLIDER_SEGMENTS],
        }
    }

    /// The brightness a button's light currently shows.
    pub fn get_button(&self, b: Buttons) -> (r: Brightness)
        requires
            self.wf(),
        ensures
            r == self.buttons@[button_index_spec(b)],
    {
        self.buttons[button_index(b)]
    }

    /// Set a button's light.
    pub fn set_button(&mut self, b: Buttons, v: Brightness)
        requires
            old(self).wf(),
        ensures
            final(self).wf(),
            final(self).buttons@ == old(self).buttons@.update(button_index_spec(b), v),
            final(self).pads@ == old(self).pads@,
            final(self).slider@ == old(self).slider@,
    {
        let i = button_index(b);
        self.buttons.set(i, v);
    }

    /// The color and brightness a pad's light currently shows.
    pub fn get_pad(&self, i: usize) -> (r: (PadColors, Brightness))
        requires
            self.wf(),
            i < PAD_COUNT,
        ensures
            r.0 == self.pads@[i as int].color,
            r.1 == self.pads@[i as int].brightness,
    {
        let p = self.pads[i];
        (p.color, p.brightness)
    }

    /// Set a pad's light.
    pub fn set_pad(&mut self, i: usize, color: PadColors, brightness: Brightness)
        requires
            old(self).wf(),
            i < PAD_COUNT,
        ensures
            final(self).wf(),
            final(self).pads@ == old(self).pads@.update(i as int, PadLight { color, brightness }),
            final(self).buttons@ == old(self).buttons@,
            final(self).slider@ == old(self).slider@,
    {
        self.pads.set(i, PadLight { color, brightness });
    }

    /// Set one segment of the slider bar.
    pub fn set_slider(&mut self, i: usize, v: Brightness)
        requires
            old(self).wf(),
            i < SLIDER_SEGMENTS,
        ensures
            final(self).wf(),
            final(self).slider@ == old(self).slider@.update(i as int, v),
            final(self).buttons@ == old(self).buttons@,
            final(self).pads@ == old(self).pads@,
    {
        self.slider.set(i, v);
    }
}


/// The brightness of slider-bar segment `i` for a raw sample `val`: the
/// segment the sample maps to shows `Normal`, up to 25 segments below it
/// fill the bar with `Dim`, and the rest are off.
pub open spec fn slider_segment(val: u8, i: int) -> Brightness {
    let cnt = (val + 4) * 25 / 200 - 1;
    if cnt - i == 0 {
        Brightness::Normal
    } else if 1 <= cnt - i <= 25 {
        Brightness::Dim
    } else {
        Brightness::Off
    }
}

/// Draw the whole slider bar for a raw sample.
pub(crate) fn draw_slider_bar(lights: &mut Lights, val: u8)
    requires
        old(lights).wf(),
    ensures
        final(lights).wf(),
        final(lights).buttons@ == old(lights).buttons@,
        final(lights).pads@ == old(lights).pads@,
        final(lights).slider@.len() == SLIDER_SEGMENTS,
        forall|i: int|
            0 <= i < SLIDER_SEGMENTS ==> final(lights).slider@[i] == slider_segment(val, i),
{
    let cnt: i32 = (val as i32 - 1 + 5) * 25 / 200 - 1;
    let mut i: usize = 0;
    while i < SLIDER_SEGMENTS
        invariant
            i <= SLIDER_SEGMENTS,
            lights.wf(),
            cnt == (val + 4) * 25 / 200 - 1,
            lights.buttons@ == old(lights).buttons@,
            lights.pads@ == old(lights).pads@,
            lights.slider@.len() == SLIDER_SEGMENTS,
            forall|k: int| 0 <= k < i ==> lights.slider@[k] == slider_segment(val, k),
            forall|k: int|
                i <= k < SLIDER_SEGMENTS ==> lights.slider@[k] == old(lights).slider@[k],
        decreases SLIDER_SEGMENTS - i,
    {
        let d: i32 = cnt - i as i32;
        let b = if d == 0 {
            Brightness::Normal
        } else if 1 <= d && d <= 25 {
            Brightness::Dim
        } else {
            Brightness::Off
        };
        lights.set_slider(i, b);
        i = i + 1;
    }
}

} // verus!
