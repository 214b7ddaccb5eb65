//! The controller's buttons and pad event kinds, and their wire encodings.
//!
//! A button report carries one bit per button; `button_of_index` maps a bit
//! position to the button it stands for. Pad records carry a kind nibble in
//! the high half of their second byte; `pad_event_of_nibble` maps it to the
//! pad event kind.

use vstd::prelude::*;

verus! {

/// The hardware buttons, in bit order of the button report's bitmap.
#[derive(Clone, Copy, Debug, PartialEq, Eq, Structural)]
pub enum Buttons {
    NativeInstruments,
    Star,
    Browse,
    Volume,
    Swing,
    Tempo,
    Plugin,
    Sampling,
    Left,
    Right,
    Pitch,
    Mod,
    Perform,
    Notes,
    Group,
    Auto,
    Lock,
    NoteRepeat,
    Restart,
    Erase,
    Tap,
    Follow,
    Play,
    Rec,
    Stop,
    Shift,
    FixedVel,
    PadMode,
    Keyboard,
    Chords,
    Step,
    Scene,
    Pattern,
    Events,
    Variation,
    Duplicate,
    Select,
    Solo,
    Mute,
    EncoderPress,
    EncoderTouch,
}

/// How many buttons the bitmap maps; bit positions at or past this yield none.
pub const BUTTON_COUNT: usize = 41;

/// The bit position of each button in the report bitmap.
pub open spec fn button_index_spec(b: Buttons) -> int {
    match b {
        Buttons::NativeInstruments => 0,
        Buttons::Star => 1,
        Buttons::Browse => 2,
        Buttons::Volume => 3,
        Buttons::Swing => 4,
        Buttons::Tempo => 5,
        Buttons::Plugin => 6,
        Buttons::Sampling => 7,
        Buttons::Left => 8,
        Buttons::Right => 9,
        Buttons::Pitch => 10,
        Buttons::Mod => 11,
        Buttons::Perform => 12,
        Buttons::Notes => 13,
        Buttons::Group => 14,
        Buttons::Auto => 15,
        Buttons::Lock => 16,
        Buttons::NoteRepeat => 17,
        Buttons::Restart => 18,
        Buttons::Erase => 19,
        Buttons::Tap => 20,
        Buttons::Follow => 21,
        Buttons::Play => 22,
        Buttons::Rec => 23,
        Buttons::Stop => 24,
        Buttons::Shift => 25,
        Buttons::FixedVel => 26,
        Buttons::PadMode => 27,
        Buttons::Keyboard => 28,
        Buttons::Chords => 29,
        Buttons::Step => 30,
        Buttons::Scene => 31,
        Buttons::Pattern => 32,
        Buttons::Events => 33,
        Buttons::Variation => 34,
        Buttons::Duplicate => 35,
        Buttons::Select => 36,
        Buttons::Solo => 37,
        Buttons::Mute => 38,
        Buttons::EncoderPress => 39,
        Buttons::EncoderTouch => 40,
    }
}

/// The button mapped at a bit position, if any.
pub open spec fn button_of_index_spec(i: int) -> Option<Buttons> {
    if i == 0 {
        Some(Buttons::NativeInstruments)
    } else if i == 1 {
        Some(Buttons::Star)
    } else if i == 2 {
        Some(Buttons::Browse)
    } else if i == 3 {
        Some(Buttons::Volume)
    } else if i == 4 {
        Some(Buttons::Swing)
    } else if i == 5 {
        Some(Buttons::Tempo)
    } else if i == 6 {
        Some(Buttons::Plugin)
    } else if i == 7 {
        Some(Buttons::Sampling)
    } else if i == 8 {
        Some(Buttons::Left)
    } else if i == 9 {
        Some(Buttons::Right)
    } else if i == 10 {
        Some(Buttons::Pitch)
    } else if i == 11 {
        Some(Buttons::Mod)
    } else if i == 12 {
        Some(Buttons::Perform)
    } else if i == 13 {
        Some(Buttons::Notes)
    } else if i == 14 {
        Some(Buttons::Group)
    } else if i == 15 {
        Some(Buttons::Auto)
    } else if i == 16 {
        Some(Buttons::Lock)
    } else if i == 17 {
        Some(Buttons::NoteRepeat)
    } else if i == 18 {
        Some(Buttons::Restart)
    } else if i == 19 {
        Some(Buttons::Erase)
    } else if i == 20 {
        Some(Buttons::Tap)
    } else if i == 21 {
        Some(Buttons::Follow)
    } else if i == 22 {
        Some(Buttons::Play)
    } else if i == 23 {
        Some(Buttons::Rec)
    } else if i == 24 {
        Some(Buttons::Stop)
    } else if i == 25 {
        Some(Buttons::Shift)
    } else if i == 26 {
        Some(Buttons::FixedVel)
    } else if i == 27 {
        Some(Buttons::PadMode)
    } else if i == 28 {
        Some(Buttons::Keyboard)
    } else if i == 29 {
        Some(Buttons::Chords)
    } else if i == 30 {
        Some(Buttons::Step)
    } else if i == 31 {
        Some(Buttons::Scene)
    } else if i == 32 {
        Some(Buttons::Pattern)
    } else if i == 33 {
        Some(Buttons::Events)
    } else if i == 34 {
        Some(Buttons::Variation)
    } else if i == 35 {
        Some(Buttons::Duplicate)
    } else if i == 36 {
        Some(Buttons::Select)
    } else if i == 37 {
        Some(Buttons::Solo)
    } else if i == 38 {
        Some(Buttons::Mute)
    } else if i == 39 {
        Some(Buttons::EncoderPress)
    } else if i == 40 {
        Some(Buttons::EncoderTouch)
    } else {
        None
    }
}

/// The bit position of a button in the report bitmap.
pub fn button_index(b: Buttons) -> (i: usize)
    ensures
        i == button_index_spec(b),
        i < BUTTON_COUNT,
{
    match b {
        Buttons::NativeInstruments => 0,
        Buttons::Star => 1,
        Buttons::Browse => 2,
        Buttons::Volume => 3,
        Buttons::Swing => 4,
        Buttons::Tempo => 5,
        Buttons::Plugin => 6,
        Buttons::Sampling => 7,
        Buttons::Left => 8,
        Buttons::Right => 9,
        Buttons::Pitch => 10,
        Buttons::Mod => 11,
        Buttons::Perform => 12,
        Buttons::Notes => 13,
        Buttons::Group => 14,
        Buttons::Auto => 15,
        Buttons::Lock => 16,
        Buttons::NoteRepeat => 17,
        Buttons::Restart => 18,
        Buttons::Erase => 19,
        Buttons::Tap => 20,
        Buttons::Follow => 21,
        Buttons::Play => 22,
        Buttons::Rec => 23,
        Buttons::Stop => 24,
        Buttons::Shift => 25,
        Buttons::FixedVel => 26,
        Buttons::PadMode => 27,
        Buttons::Keyboard => 28,
        Buttons::Chords => 29,
        Buttons::Step => 30,
        Buttons::Scene => 31,
        Buttons::Pattern => 32,
        Buttons::Events => 33,
        Buttons::Variation => 34,
        Buttons::Duplicate => 35,
        Buttons::Select => 36,
        Buttons::Solo => 37,
        Buttons::Mute => 38,
        Buttons::EncoderPress => 39,
        Buttons::EncoderTouch => 40,
    }
}

/// The button mapped at a bit position, if any.
pub fn button_of_index(i: usize) -> (r: Option<Buttons>)
    ensures
        r == button_of_index_spec(i as int),
{
    match i {
        0 => Some(Buttons::NativeInstruments),
        1 => Some(Buttons::Star),
        2 => Some(Buttons::Browse),
        3 => Some(Buttons::Volume),
        4 => Some(Buttons::Swing),
        5 => Some(Buttons::Tempo),
        6 => Some(Buttons::Plugin),
        7 => Some(Buttons::Sampling),
        8 => Some(Buttons::Left),
        9 => Some(Buttons::Right),
        10 => Some(Buttons::Pitch),
        11 => Some(Buttons::Mod),
        12 => Some(Buttons::Perform),
        13 => Some(Buttons::Notes),
        14 => Some(Buttons::Group),
        15 => Some(Buttons::Auto),
        16 => Some(Buttons::Lock),
        17 => Some(Buttons::NoteRepeat),
        18 => Some(Buttons::Restart),
        19 => Some(Buttons::Erase),
        20 => Some(Buttons::Tap),
        21 => Some(Buttons::Follow),
        22 => Some(Buttons::Play),
        23 => Some(Buttons::Rec),
        24 => Some(Buttons::Stop),
        25 => Some(Buttons::Shift),
        26 => Some(Buttons::FixedVel),
        27 => Some(Buttons::PadMode),
        28 => Some(Buttons::Keyboard),
        29 => Some(Buttons::Chords),
        30 => Some(Buttons::Step),
        31 => Some(Buttons::Scene),
        32 => Some(Buttons::Pattern),
        33 => Some(Buttons::Events),
        34 => Some(Buttons::Variation),
        35 => Some(Buttons::Duplicate),
        36 => Some(Buttons::Select),
        37 => Some(Buttons::Solo),
        38 => Some(Buttons::Mute),
        39 => Some(Buttons::EncoderPress),
        40 => Some(Buttons::EncoderTouch),
        _ => None,
    }
}

/// The kinds of pad events a pad record can carry.
#[derive(Clone, Copy, Debug, PartialEq, Eq, Structural)]
pub enum PadEventType {
    NoteOn,
    Aftertouch,
    NoteOff,
    PressOn,
    PressOff,
}

/// The pad event kind encoded by the high nibble of a pad record's
/// second byte, if that nibble is a known kind.
pub open spec fn pad_event_of_nibble_spec(n: u8) -> Option<PadEventType> {
    if n == 0x10 {
        Some(PadEventType::NoteOn)
    } else if n == 0x20 {
        Some(PadEventType::Aftertouch)
    } else if n == 0x30 {
        Some(PadEventType::NoteOff)
    } else if n == 0x40 {
        Some(PadEventType::PressOn)
    } else if n == 0x50 {
        Some(PadEventType::PressOff)
    } else {
        None
    }
}

/// The pad event kind encoded by a kind nibble, if any.
pub fn pad_event_of_nibble(n: u8) -> (r: Option<PadEventType>)
    ensures
        r == pad_event_of_nibble_spec(n),
{
    match n {
        0x10 => Some(PadEventType::NoteOn),
        0x20 => Some(PadEventType::Aftertouch),
        0x30 => Some(PadEventType::NoteOff),
        0x40 => Some(PadEventType::PressOn),
        0x50 => Some(PadEventType::PressOff),
        _ => None,
    }
}


/// Each button's name, as configuration entries spell it.
pub open spec fn button_label_spec(b: Buttons) -> Seq<char> {
    match b {
        Buttons::NativeInstruments => "NativeInstruments"@,
        Buttons::Star => "Star"@,
        Buttons::Browse => "Browse"@,
        Buttons::Volume => "Volume"@,
        Buttons::Swing => "Swing"@,
        Buttons::Tempo => "Tempo"@,
        Buttons::Plugin => "Plugin"@,
        Buttons::Sampling => "Sampling"@,
        Buttons::Left => "Left"@,
        Buttons::Right => "Right"@,
        Buttons::Pitch => "Pitch"@,
        Buttons::Mod => "Mod"@,
        Buttons::Perform => "Perform"@,
        Buttons::Notes => "Notes"@,
        Buttons::Group => "Group"@,
        Buttons::Auto => "Auto"@,
        Buttons::Lock => "Lock"@,
        Buttons::NoteRepeat => "NoteRepeat"@,
        Buttons::Restart => "Restart"@,
        Buttons::Erase => "Erase"@,
        Buttons::Tap => "Tap"@,
        Buttons::Follow => "Follow"@,
        Buttons::Play => "Play"@,
        Buttons::Rec => "Rec"@,
        Buttons::Stop => "Stop"@,
        Buttons::Shift => "Shift"@,
        Buttons::FixedVel => "FixedVel"@,
        Buttons::PadMode => "PadMode"@,
        Buttons::Keyboard => "Keyboard"@,
        Buttons::Chords => "Chords"@,
        Buttons::Step => "Step"@,
        Buttons::Scene => "Scene"@,
        Buttons::Pattern => "Pattern"@,
        Buttons::Events => "Events"@,
        Buttons::Variation => "Variation"@,
        Buttons::Duplicate => "Duplicate"@,
        Buttons::Select => "Select"@,
        Buttons::Solo => "Solo"@,
        Buttons::Mute => "Mute"@,
        Buttons::EncoderPress => "EncoderPress"@,
        Buttons::EncoderTouch => "EncoderTouch"@,
    }
}

/// Each button's name, as configuration entries spell it.
pub fn button_label(b: Buttons) -> (r: &'static str)
    ensures
        r@ == button_label_spec(b),
{
    match b {
        Buttons::NativeInstruments => "NativeInstruments",
        Buttons::Star => "Star",
        Buttons::Browse => "Browse",
        Buttons::Volume => "Volume",
        Buttons::Swing => "Swing",
        Buttons::Tempo => "Tempo",
        Buttons::Plugin => "Plugin",
        Buttons::Sampling => "Sampling",
        Buttons::Left => "Left",
        Buttons::Right => "Right",
        Buttons::Pitch => "Pitch",
        Buttons::Mod => "Mod",
        Buttons::Perform => "Perform",
        Buttons::Notes => "Notes",
        Buttons::Group => "Group",
        Buttons::Auto => "Auto",
        Buttons::Lock => "Lock",
        Buttons::NoteRepeat => "NoteRepeat",
        Buttons::Restart => "Restart",
        Buttons::Erase => "Erase",
        Buttons::Tap => "Tap",
        Buttons::Follow => "Follow",
        Buttons::Play => "Play",
        Buttons::Rec => "Rec",
        Buttons::Stop => "Stop",
        Buttons::Shift => "Shift",
        Buttons::FixedVel => "FixedVel",
        Buttons::PadMode => "PadMode",
        Buttons::Keyboard => "Keyboard",
        Buttons::Chords => "Chords",
        Buttons::Step => "Step",
        Buttons::Scene => "Scene",
        Buttons::Pattern => "Pattern",
        Buttons::Events => "Events",
        Buttons::Variation => "Variation",
        Buttons::Duplicate => "Duplicate",
        Buttons::Select => "Select",
        Buttons::Solo => "Solo",
        Buttons::Mute => "Mute",
        Buttons::EncoderPress => "EncoderPress",
        Buttons::EncoderTouch => "EncoderTouch",
    }
}

/// Each button's name in the lower-case spelling its outbound network
/// address uses.
pub open spec fn button_osc_name_spec(b: Buttons) -> Seq<char> {
    match b {
        Buttons::NativeInstruments => "nativeinstruments"@,
        Buttons::Star => "star"@,
        Buttons::Browse => "browse"@,
        Buttons::Volume => "volume"@,
        Buttons::Swing => "swing"@,
        Buttons::Tempo => "tempo"@,
        Buttons::Plugin => "plugin"@,
        Buttons::Sampling => "sampling"@,
        Buttons::Left => "left"@,
        Buttons::Right => "right"@,
        Buttons::Pitch => "pitch"@,
        Buttons::Mod => "mod"@,
        Buttons::Perform => "perform"@,
        Buttons::Notes => "notes"@,
        Buttons::Group => "group"@,
        Buttons::Auto => "auto"@,
        Buttons::Lock => "lock"@,
        Buttons::NoteRepeat => "noterepeat"@,
        Buttons::Restart => "restart"@,
        Buttons::Erase => "erase"@,
        Buttons::Tap => "tap"@,
        Buttons::Follow => "follow"@,
        Buttons::Play => "play"@,
        Buttons::Rec => "rec"@,
        Buttons::Stop => "stop"@,
        Buttons::Shift => "shift"@,
        Buttons::FixedVel => "fixedvel"@,
        Buttons::PadMode => "padmode"@,
        Buttons::Keyboard => "keyboard"@,
        Buttons::Chords => "chords"@,
        Buttons::Step => "step"@,
        Buttons::Scene => "scene"@,
        Buttons::Pattern => "pattern"@,
        Buttons::Events => "events"@,
        Buttons::Variation => "variation"@,
        Buttons::Duplicate => "duplicate"@,
        Buttons::Select => "select"@,
        Buttons::Solo => "solo"@,
        Buttons::Mute => "mute"@,
        Buttons::EncoderPress => "encoderpress"@,
        Buttons::EncoderTouch => "encodertouch"@,
    }
}

/// Each button's name in the lower-case spelling its outbound network
/// address uses.
pub fn button_osc_name(b: Buttons) -> (r: &'static str)
    ensures
        r@ == button_osc_name_spec(b),
{
    match b {
        Buttons::NativeInstruments => "nativeinstruments",
        Buttons::Star => "star",
        Buttons::Browse => "browse",
        Buttons::Volume => "volume",
        Buttons::Swing => "swing",
        Buttons::Tempo => "tempo",
        Buttons::Plugin => "plugin",
        Buttons::Sampling => "sampling",
        Buttons::Left => "left",
        Buttons::Right => "right",
        Buttons::Pitch => "pitch",
        Buttons::Mod => "mod",
        Buttons::Perform => "perform",
        Buttons::Notes => "notes",
        Buttons::Group => "group",
        Buttons::Auto => "auto",
        Buttons::Lock => "lock",
        Buttons::NoteRepeat => "noterepeat",
        Buttons::Restart => "restart",
        Buttons::Erase => "erase",
        Buttons::Tap => "tap",
        Buttons::Follow => "follow",
        Buttons::Play => "play",
        Buttons::Rec => "rec",
        Buttons::Stop => "stop",
        Buttons::Shift => "shift",
        Buttons::FixedVel => "fixedvel",
        Buttons::PadMode => "padmode",
        Buttons::Keyboard => "keyboard",
        Buttons::Chords => "chords",
        Buttons::Step => "step",
        Buttons::Scene => "scene",
        Buttons::Pattern => "pattern",
        Buttons::Events => "events",
        Buttons::Variation => "variation",
        Buttons::Duplicate => "duplicate",
        Buttons::Select => "select",
        Buttons::Solo => "solo",
        Buttons::Mute => "mute",
        Buttons::EncoderPress => "encoderpress",
        Buttons::EncoderTouch => "encodertouch",
    }
}

/// Whether two characters are equal ignoring ASCII case.
pub open spec fn chars_ieq(x: char, y: char) -> bool {
    ||| x as u32 == y as u32
    ||| (65 <= x as u32 <= 90 && x as u32 + 32 == y as u32)
    ||| (65 <= y as u32 <= 90 && y as u32 + 32 == x as u32)
}

/// Whether two strings are equal ignoring ASCII case.
pub open spec fn str_ieq_spec(a: Seq<char>, b: Seq<char>) -> bool {
    a.len() == b.len() && (forall|i: int| 0 <= i < a.len() ==> chars_ieq(a[i], b[i]))
}

fn char_ieq(x: char, y: char) -> (r: bool)
    ensures
        r == chars_ieq(x, y),
{
    let a = x as u32;
    let b = y as u32;
    a == b || (65 <= a && a <= 90 && a + 32 == b) || (65 <= b && b <= 90 && b + 32 == a)
}

/// Whether two strings are equal ignoring ASCII case.
pub fn str_eq_ignore_ascii_case(a: &str, b: &str) -> (r: bool)
    ensures
        r == str_ieq_spec(a@, b@),
{
    let n = a.unicode_len();
    if n != b.unicode_len() {
        return false;
    }
    for i in 0..n
        invariant
            n == a@.len(),
            n == b@.len(),
            forall|j: int| 0 <= j < i ==> chars_ieq(a@[j], b@[j]),
    {
        if !char_ieq(a.get_char(i), b.get_char(i)) {
            return false;
        }
    }
    true
}

/// Whether two strings are equal.
pub fn str_eq(a: &str, b: &str) -> (r: bool)
    ensures
        r == (a@ == b@),
{
    let n = a.unicode_len();
    if n != b.unicode_len() {
        return false;
    }
    for i in 0..n
        invariant
            n == a@.len(),
            n == b@.len(),
            forall|j: int| 0 <= j < i ==> a@[j] == b@[j],
    {
        if a.get_char(i) != b.get_char(i) {
            return false;
        }
    }
    proof {
        assert(a@ =~= b@);
    }
    true
}

/// The first button, in bit order from position `i` on, whose name matches
/// `name` ignoring ASCII case.
pub open spec fn button_from_name_from(name: Seq<char>, i: int) -> Option<Buttons>
    decreases 41 - i,
{
    if i < 0 || i >= 41 {
        None
    } else {
        match button_of_index_spec(i) {
            Some(b) => {
                if str_ieq_spec(name, button_label_spec(b)) {
                    Some(b)
                } else {
                    button_from_name_from(name, i + 1)
                }
            },
            None => None,
        }
    }
}

/// The button a configuration or network name refers to: the first button
/// in bit order whose name matches ignoring ASCII case.
pub open spec fn button_from_name_spec(name: Seq<char>) -> Option<Buttons> {
    button_from_name_from(name, 0)
}

/// Looks a button up by name, ignoring ASCII case.
pub fn button_from_name(name: &str) -> (r: Option<Buttons>)
    ensures
        r == button_from_name_spec(name@),
{
    let mut i: usize = 0;
    while i < 41
        invariant
            i <= 41,
            button_from_name_spec(name@) == button_from_name_from(name@, i as int),
        decreases 41 - i,
    {
        if let Some(b) = button_of_index(i) {
            if str_eq_ignore_ascii_case(name, button_label(b)) {
                return Some(b);
            }
        }
        i = i + 1;
    }
    None
}

} // verus!
