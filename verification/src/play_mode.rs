//! The looper: an arm/record/overdub/play/pause/stop/erase state machine
//! with timestamped event capture and scheduled playback.
//!
//! Its conceptual states are composed from three flags: idle, armed,
//! recording the initial loop (`recording` with no loop duration yet),
//! playing, overdubbing (`recording` while `playing`), and paused (not
//! playing, with a loop and a saved position). Time enters every call as
//! the caller's monotonic clock in milliseconds; a zero `loop_duration` is
//! the sentinel for "no loop recorded yet".

use vstd::prelude::*;
use vstd::pervasive::VecAdditionalExecFns;
use crate::context::DriverContext;
use crate::controls::{button_index_spec, Buttons, PadEventType};
use crate::lights::{Brightness, PadColors, PadLight, PAD_COUNT};
use crate::midi::MidiEmission;
use crate::settings::Settings;

verus! {

/// One captured note edge: its offset from the loop start, the note, the
/// velocity, and whether it is a note-on.
#[derive(Clone, Copy, Debug, PartialEq, Eq, Structural)]
pub struct SeqEvent {
    pub offset_ms: u64,
    pub note: u8,
    pub velocity: u8,
    pub is_note_on: bool,
}

/// Whether a captured event list is sorted ascending by offset.
pub open spec fn events_sorted(s: Seq<SeqEvent>) -> bool {
    forall|i: int, j: int|
        0 <= i <= j < s.len() ==> (#[trigger] s[i]).offset_ms <= (#[trigger] s[j]).offset_ms
}

/// The looper's owned state.
pub struct PlayMode {
    pub armed: bool,
    pub recording: bool,
    pub playing: bool,
    pub start_time: Option<u64>,
    pub playback_start: Option<u64>,
    pub loop_duration: u64,
    pub paused_position: Option<u64>,
    pub events: Vec<SeqEvent>,
    pub playback_cursor: usize,
    pub user_holding: Vec<bool>,
    pub seq_holding: Vec<bool>,
    pub is_restart_pressed: bool,
    pub is_erase_pressed: bool,
    pub last_now: u64,
}

/// A pad's light under the looper's priority: held by the user, white at
/// maximum; else held by the sequencer, orange at normal; else off.
pub open spec fn pad_light_spec(user: bool, held: bool) -> PadLight {
    if user {
        PadLight { color: PadColors::White, brightness: Brightness::Bright }
    } else if held {
        PadLight { color: PadColors::Orange, brightness: Brightness::Normal }
    } else {
        PadLight { color: PadColors::Off, brightness: Brightness::Off }
    }
}

/// The record light while not recording: maximum when armed, dim when
/// idle. The tick blinks it while recording.
pub open spec fn rec_light_spec(m: PlayMode) -> Brightness {
    if m.armed {
        Brightness::Bright
    } else {
        Brightness::Dim
    }
}

/// What the transport lights show after a transition: the record light per
/// arm state unless recording (the tick owns it then); with no loop stored
/// the other transport lights collapse to off, else play and stop mirror
/// the playing flag and restart and erase mirror their pressed state.
pub open spec fn transport_buttons(m: PlayMode, btns: Seq<Brightness>) -> Seq<Brightness> {
    Seq::new(
        btns.len(),
        |i: int|
            if i == button_index_spec(Buttons::Rec) && !m.recording {
                rec_light_spec(m)
            } else if i == button_index_spec(Buttons::Play) {
                if m.loop_duration == 0 {
                    Brightness::Off
                } else if m.playing {
                    Brightness::Bright
                } else {
                    Brightness::Dim
                }
            } else if i == button_index_spec(Buttons::Stop) {
                if m.loop_duration == 0 {
                    Brightness::Off
                } else if !m.playing {
                    Brightness::Bright
                } else {
                    Brightness::Dim
                }
            } else if i == button_index_spec(Buttons::Restart) {
                if m.loop_duration == 0 {
                    Brightness::Off
                } else if m.is_restart_pressed {
                    Brightness::Bright
                } else {
                    Brightness::Dim
                }
            } else if i == button_index_spec(Buttons::Erase) {
                if m.loop_duration == 0 {
                    Brightness::Off
                } else if m.is_erase_pressed {
                    Brightness::Bright
                } else {
                    Brightness::Dim
                }
            } else {
                btns[i]
            },
    )
}

impl PlayMode {
    /// The looper's internal invariant: the overlays cover the sixteen
    /// pads, the event list is sorted with every note and velocity in
    /// range, and no remembered time lies in the future. The cursor can go
    /// stale while not playing; playback bounds it on every use.
    pub open spec fn wf(&self) -> bool {
        &&& self.user_holding@.len() == PAD_COUNT
        &&& self.seq_holding@.len() == PAD_COUNT
        &&& events_sorted(self.events@)
        &&& forall|i: int|
            0 <= i < self.events@.len() ==> (#[trigger] self.events@[i]).note < 128
                && self.events@[i].velocity < 128
        &&& (self.start_time matches Some(t) ==> t <= self.last_now)
        &&& (self.playback_start matches Some(t) ==> t <= self.last_now)
        &&& self.loop_duration <= self.last_now
        &&& (self.paused_position matches Some(p) ==> p <= self.last_now)
    }

    /// The looper is idle with nothing recorded: every flag clear, no
    /// anchor, no loop, no events, every overlay clear.
    pub open spec fn is_reset(&self) -> bool {
        &&& !self.armed
        &&& !self.recording
        &&& !self.playing
        &&& self.start_time is None
        &&& self.playback_start is None
        &&& self.paused_position is None
        &&& self.loop_duration == 0
        &&& self.events@.len() == 0
        &&& self.playback_cursor == 0
        &&& forall|i: int| 0 <= i < PAD_COUNT ==> !(#[trigger] self.seq_holding@[i])
        &&& forall|i: int| 0 <= i < PAD_COUNT ==> !(#[trigger] self.user_holding@[i])
    }

    /// A fresh, idle looper.
    pub fn new() -> (r: PlayMode)
        ensures
            r.wf(),
            r.is_reset(),
            !r.is_restart_pressed,
            !r.is_erase_pressed,
            r.last_now == 0,
    {
        PlayMode {
            armed: false,
            recording: false,
            playing: false,
            start_time: None,
            playback_start: None,
            loop_duration: 0,
            paused_position: None,
            events: Vec::new(),
            playback_cursor: 0,
            user_holding: vec![false; PAD_COUNT],
            seq_holding: vec![false; PAD_COUNT],
            is_restart_pressed: false,
            is_erase_pressed: false,
            last_now: 0,
        }
    }

    /// Recompute one pad's light under the looper's priority.
    pub(crate) fn update_pad_light(&self, ctx: &mut DriverContext, pad_index: usize)
        requires
            old(ctx).wf(),
            self.user_holding@.len() == PAD_COUNT,
            self.seq_holding@.len() == PAD_COUNT,
            pad_index < PAD_COUNT,
        ensures
            final(ctx).wf(),
            final(ctx).lights.pads@ == old(ctx).lights.pads@.update(
                pad_index as int,
                pad_light_spec(
                    self.user_holding@[pad_index as int],
                    self.seq_holding@[pad_index as int],
                ),
            ),
            final(ctx).lights.buttons@ == old(ctx).lights.buttons@,
            final(ctx).lights.slider@ == old(ctx).lights.slider@,
            final(ctx).settings == old(ctx).settings,
            final(ctx).now_ms == old(ctx).now_ms,
            final(ctx).osc_out@ == old(ctx).osc_out@,
            final(ctx).midi_out@ == old(ctx).midi_out@,
    {
        if self.user_holding[pad_index] {
            ctx.lights.set_pad(pad_index, PadColors::White, Brightness::Bright);
        } else if self.seq_holding[pad_index] {
            ctx.lights.set_pad(pad_index, PadColors::Orange, Brightness::Normal);
        } else {
            ctx.lights.set_pad(pad_index, PadColors::Off, Brightness::Off);
        }
    }

    /// Recompute the transport lights after a transition.
    pub(crate) fn update_transport_lights(&self, ctx: &mut DriverContext)
        requires
            old(ctx).wf(),
        ensures
            final(ctx).wf(),
            final(ctx).lights.buttons@ == transport_buttons(*self, old(ctx).lights.buttons@),
            final(ctx).lights.pads@ == old(ctx).lights.pads@,
            final(ctx).lights.slider@ == old(ctx).lights.slider@,
            final(ctx).settings == old(ctx).settings,
            final(ctx).now_ms == old(ctx).now_ms,
            final(ctx).osc_out@ == old(ctx).osc_out@,
            final(ctx).midi_out@ == old(ctx).midi_out@,
    {
        if !self.recording {
            if self.armed {
                ctx.lights.set_button(Buttons::Rec, Brightness::Bright);
            } else {
                ctx.lights.set_button(Buttons::Rec, Brightness::Dim);
            }
        }
        if self.loop_duration == 0 {
            ctx.lights.set_button(Buttons::Play, Brightness::Off);
            ctx.lights.set_button(Buttons::Stop, Brightness::Off);
            ctx.lights.set_button(Buttons::Restart, Brightness::Off);
            ctx.lights.set_button(Buttons::Erase, Brightness::Off);
        } else {
            if self.playing {
                ctx.lights.set_button(Buttons::Play, Brightness::Bright);
            } else {
                ctx.lights.set_button(Buttons::Play, Brightness::Dim);
            }
            if !self.playing {
                ctx.lights.set_button(Buttons::Stop, Brightness::Bright);
            } else {
                ctx.lights.set_button(Buttons::Stop, Brightness::Dim);
            }
            if self.is_restart_pressed {
                ctx.lights.set_button(Buttons::Restart, Brightness::Bright);
            } else {
                ctx.lights.set_button(Buttons::Restart, Brightness::Dim);
            }
            if self.is_erase_pressed {
                ctx.lights.set_button(Buttons::Erase, Brightness::Bright);
            } else {
                ctx.lights.set_button(Buttons::Erase, Brightness::Dim);
            }
        }
        proof {
            assert(ctx.lights.buttons@ =~= transport_buttons(*self, old(ctx).lights.buttons@));
        }
    }

    /// Erase everything: all flags, anchors, the loop and its events, every
    /// overlay, every pad light; then redraw the transport lights.
    fn clear_all(&mut self, ctx: &mut DriverContext)
        requires
            old(ctx).wf(),
            old(self).wf(),
        ensures
            final(ctx).wf(),
            final(self).wf(),
            final(self).is_reset(),
            final(self).is_restart_pressed == old(self).is_restart_pressed,
            final(self).is_erase_pressed == old(self).is_erase_pressed,
            final(self).last_now == old(self).last_now,
            final(ctx).lights.pads@.len() == PAD_COUNT,
            forall|i: int|
                0 <= i < PAD_COUNT ==> final(ctx).lights.pads@[i] == (PadLight {
                    color: PadColors::Off,
                    brightness: Brightness::Off,
                }),
            final(ctx).lights.buttons@ == transport_buttons(
                *final(self),
                old(ctx).lights.buttons@,
            ),
            final(ctx).lights.slider@ == old(ctx).lights.slider@,
            final(ctx).settings == old(ctx).settings,
            final(ctx).now_ms == old(ctx).now_ms,
            final(ctx).osc_out@ == old(ctx).osc_out@,
            final(ctx).midi_out@ == old(ctx).midi_out@,
    {
        self.playing = false;
        self.recording = false;
        self.armed = false;
        self.start_time = None;
        self.playback_start = None;
        self.paused_position = None;
        self.loop_duration = 0;
        self.events.clear();
        self.playback_cursor = 0;
        self.seq_holding = vec![false; PAD_COUNT];
        self.user_holding = vec![false; PAD_COUNT];

        let mut i: usize = 0;
        while i < PAD_COUNT
            invariant
                i <= PAD_COUNT,
                ctx.wf(),
                ctx.settings == old(ctx).settings,
                ctx.now_ms == old(ctx).now_ms,
                ctx.osc_out@ == old(ctx).osc_out@,
                ctx.midi_out@ == old(ctx).midi_out@,
                ctx.lights.buttons@ == old(ctx).lights.buttons@,
                ctx.lights.slider@ == old(ctx).lights.slider@,
                ctx.lights.pads@.len() == PAD_COUNT,
                forall|k: int|
                    0 <= k < i ==> ctx.lights.pads@[k] == (PadLight {
                        color: PadColors::Off,
                        brightness: Brightness::Off,
                    }),
                forall|k: int|
                    i <= k < PAD_COUNT ==> ctx.lights.pads@[k] == old(ctx).lights.pads@[k],
            decreases PAD_COUNT - i,
        {
            ctx.lights.set_pad(i, PadColors::Off, Brightness::Off);
            i = i + 1;
        }
        self.update_transport_lights(ctx);
    }
}


/// Where a new event of offset `off` lands in a sorted list: after every
/// event at or below `off`, before the first one above it.
pub open spec fn insert_pos(s: Seq<SeqEvent>, off: u64) -> int
    decreases s.len(),
{
    if s.len() == 0 {
        0
    } else if s[0].offset_ms > off {
        0
    } else {
        1 + insert_pos(s.drop_first(), off)
    }
}

proof fn lemma_insert_pos_char(s: Seq<SeqEvent>, off: u64, i: int)
    requires
        events_sorted(s),
        0 <= i <= s.len(),
        forall|j: int| 0 <= j < i ==> (#[trigger] s[j]).offset_ms <= off,
        i < s.len() ==> s[i].offset_ms > off,
    ensures
        insert_pos(s, off) == i,
    decreases s.len(),
{
    if s.len() == 0 {
    } else if s[0].offset_ms > off {
        assert(i == 0);
    } else {
        let t = s.drop_first();
        assert(i >= 1);
        assert forall|j: int| 0 <= j < i - 1 implies (#[trigger] t[j]).offset_ms <= off by {
            assert(t[j] == s[j + 1]);
        }
        assert(i - 1 < t.len() ==> t[i - 1].offset_ms > off);
        lemma_insert_pos_char(t, off, i - 1);
    }
}

/// The velocity a raw pad value plays back at in the looper: the value
/// scaled down to seven bits, unclamped.
pub open spec fn raw_velocity(value: u16) -> u8 {
    (value / 32) as u8
}

/// Whether a pad kind is a press (note-on) edge.
pub open spec fn is_on_kind(k: PadEventType) -> bool {
    k == PadEventType::NoteOn || k == PadEventType::PressOn
}

/// Whether a pad kind is a release (note-off) edge.
pub open spec fn is_off_kind(k: PadEventType) -> bool {
    k == PadEventType::NoteOff || k == PadEventType::PressOff
}

/// The offset a captured event gets: elapsed time since the initial
/// recording's start, or, while overdubbing, since the loop iteration's
/// start with a single wrap past the loop's end folded back. A missing
/// anchor reads as offset zero.
pub open spec fn capture_offset(m: PlayMode, now: u64) -> int {
    if m.loop_duration == 0 {
        match m.start_time {
            Some(st) => now - st,
            None => 0,
        }
    } else {
        match m.playback_start {
            Some(ps) => {
                let raw = now - ps;
                if raw > m.loop_duration {
                    raw - m.loop_duration
                } else {
                    raw
                }
            },
            None => 0,
        }
    }
}

impl PlayMode {
    /// Append a captured event, keeping the list sorted by offset: the new
    /// event lands after every event at or below its offset.
    #[verifier::rlimit(60)]
    fn push_event_sorted(&mut self, e: SeqEvent)
        requires
            events_sorted(old(self).events@),
        ensures
            final(self).events@ == old(self).events@.insert(
                insert_pos(old(self).events@, e.offset_ms),
                e,
            ),
            events_sorted(final(self).events@),
            0 <= insert_pos(old(self).events@, e.offset_ms) <= old(self).events@.len(),
            final(self).events@.len() == old(self).events@.len() + 1,
            ((forall|k: int|
                0 <= k < old(self).events@.len() ==> (#[trigger] old(self).events@[k]).note < 128
                    && old(self).events@[k].velocity < 128) && e.note < 128 && e.velocity < 128)
                ==> (forall|k: int|
                0 <= k < final(self).events@.len() ==> (#[trigger] final(self).events@[k]).note
                    < 128 && final(self).events@[k].velocity < 128),
            final(self).armed == old(self).armed,
            final(self).recording == old(self).recording,
            final(self).playing == old(self).playing,
            final(self).start_time == old(self).start_time,
            final(self).playback_start == old(self).playback_start,
            final(self).loop_duration == old(self).loop_duration,
            final(self).paused_position == old(self).paused_position,
            final(self).playback_cursor == old(self).playback_cursor,
            final(self).user_holding@ == old(self).user_holding@,
            final(self).seq_holding@ == old(self).seq_holding@,
            final(self).is_restart_pressed == old(self).is_restart_pressed,
            final(self).is_erase_pressed == old(self).is_erase_pressed,
            final(self).last_now == old(self).last_now,
    {
        let n = self.events.len();
        let mut i: usize = 0;
        while i < n && self.events[i].offset_ms <= e.offset_ms
            invariant
                i <= n,
                n == self.events@.len(),
                events_sorted(self.events@),
                forall|j: int| 0 <= j < i ==> (#[trigger] self.events@[j]).offset_ms <= e.offset_ms,
            decreases n - i,
        {
            i = i + 1;
        }
        proof {
            lemma_insert_pos_char(self.events@, e.offset_ms, i as int);
        }
        self.events.insert(i, e);
        proof {
            old(self).events@.insert_ensures(i as int, e);
            let s1 = self.events@;
            let s0 = old(self).events@;
            if (forall|k: int|
                0 <= k < s0.len() ==> (#[trigger] s0[k]).note < 128 && s0[k].velocity < 128)
                && e.note < 128 && e.velocity < 128 {
                assert forall|k: int| 0 <= k < s1.len() implies (#[trigger] s1[k]).note < 128
                    && s1[k].velocity < 128 by {
                    if k < i {
                        assert(s1[k] == s0[k]);
                    } else if k > i {
                        assert(s1[k] == s0[k - 1]);
                    }
                }
            }
            assert forall|a: int, b: int| 0 <= a <= b < s1.len() implies (#[trigger] s1[a]).offset_ms
                <= (#[trigger] s1[b]).offset_ms by {
                if a < i && b < i {
                    assert(s1[a] == s0[a] && s1[b] == s0[b]);
                } else if a < i && b == i {
                    assert(s1[a] == s0[a]);
                } else if a < i && b > i {
                    assert(s1[a] == s0[a] && s1[b] == s0[b - 1]);
                } else if a == i && b > i {
                    assert(s1[b] == s0[b - 1]);
                } else if a == i && b == i {
                } else {
                    assert(s1[a] == s0[a - 1] && s1[b] == s0[b - 1]);
                }
            }
        }
    }

    /// Handle one pad record: track the user-held overlay, recompute the
    /// pad's light, play the note through, start the initial recording on
    /// the first press while armed, and capture the edge while recording.
    #[verifier::rlimit(100)]
    pub fn handle_pad(
        &mut self,
        index: usize,
        event_type: PadEventType,
        value: u16,
        ctx: &mut DriverContext,
    )
        requires
            old(ctx).wf(),
            old(self).wf(),
            index < PAD_COUNT,
            value < 4096,
            old(ctx).now_ms >= old(self).last_now,
        ensures
            final(ctx).wf(),
            final(self).wf(),
            final(self).last_now == old(ctx).now_ms,
            final(ctx).settings == old(ctx).settings,
            final(ctx).now_ms == old(ctx).now_ms,
            final(ctx).osc_out@ == old(ctx).osc_out@,
            final(ctx).lights.slider@ == old(ctx).lights.slider@,
            final(self).playing == old(self).playing,
            final(self).playback_start == old(self).playback_start,
            final(self).paused_position == old(self).paused_position,
            final(self).playback_cursor == old(self).playback_cursor,
            final(self).seq_holding@ == old(self).seq_holding@,
            final(self).is_restart_pressed == old(self).is_restart_pressed,
            final(self).is_erase_pressed == old(self).is_erase_pressed,
            ({
                let now = old(ctx).now_ms;
                let note = old(ctx).settings.notemaps@[index as int];
                let vel = raw_velocity(value);
                let user1 = if is_on_kind(event_type) && value > 0 {
                    old(self).user_holding@.update(index as int, true)
                } else if is_off_kind(event_type) {
                    old(self).user_holding@.update(index as int, false)
                } else {
                    old(self).user_holding@
                };
                let arming = old(self).armed && is_on_kind(event_type) && value > 0;
                let armed_state = PlayMode {
                    armed: false,
                    recording: true,
                    start_time: Some(now),
                    loop_duration: 0,
                    events: old(self).events,
                    ..*old(self)
                };
                let capturing = (is_on_kind(event_type) || is_off_kind(event_type)) && (arming
                    || old(self).recording);
                let base = if arming {
                    armed_state
                } else {
                    *old(self)
                };
                let off = capture_offset(base, now);
                &&& final(self).user_holding@ == user1
                &&& final(ctx).lights.pads@ == old(ctx).lights.pads@.update(
                    index as int,
                    pad_light_spec(user1[index as int], old(self).seq_holding@[index as int]),
                )
                &&& final(ctx).midi_out@ == if is_on_kind(event_type) {
                    old(ctx).midi_out@.push(MidiEmission::NoteOn { key: note, velocity: vel })
                } else if is_off_kind(event_type) {
                    old(ctx).midi_out@.push(MidiEmission::NoteOff { key: note, velocity: vel })
                } else {
                    old(ctx).midi_out@
                }
                &&& final(self).armed == (old(self).armed && !arming)
                &&& final(self).recording == (old(self).recording || arming)
                &&& final(self).start_time == if arming {
                    Some(old(ctx).now_ms)
                } else {
                    old(self).start_time
                }
                &&& final(self).loop_duration == if arming {
                    0u64
                } else {
                    old(self).loop_duration
                }
                &&& final(self).events@ == if capturing {
                    let e = SeqEvent {
                        offset_ms: off as u64,
                        note,
                        velocity: vel,
                        is_note_on: is_on_kind(event_type),
                    };
                    let evs = if arming {
                        Seq::<SeqEvent>::empty()
                    } else {
                        old(self).events@
                    };
                    evs.insert(insert_pos(evs, e.offset_ms), e)
                } else if arming {
                    Seq::<SeqEvent>::empty()
                } else {
                    old(self).events@
                }
                &&& final(ctx).lights.buttons@ == if arming {
                    transport_buttons(*final(self), old(ctx).lights.buttons@)
                } else {
                    old(ctx).lights.buttons@
                }
            }),
    {
        let now = ctx.now_ms;
        let note = ctx.settings.note_of_pad(index);

        match event_type {
            PadEventType::NoteOn | PadEventType::PressOn => {
                if value > 0 {
                    self.user_holding.set(index, true);
                }
            },
            PadEventType::NoteOff | PadEventType::PressOff => {
                self.user_holding.set(index, false);
            },
            PadEventType::Aftertouch => {},
        }

        self.update_pad_light(ctx, index);

        let velocity: u8 = (value >> 5) as u8;
        proof {
            assert(value >> 5 == value / 32) by (bit_vector);
        }

        let on_edge = matches!(event_type, PadEventType::NoteOn | PadEventType::PressOn);
        let off_edge = matches!(event_type, PadEventType::NoteOff | PadEventType::PressOff);

        if on_edge {
            ctx.send_midi(MidiEmission::NoteOn { key: note, velocity });
        } else if off_edge {
            ctx.send_midi(MidiEmission::NoteOff { key: note, velocity });
        }

        if on_edge || off_edge {
            if self.armed && on_edge && value > 0 {
                self.armed = false;
                self.recording = true;
                self.events.clear();
                self.start_time = Some(now);
                self.loop_duration = 0;
                self.update_transport_lights(ctx);
            }

            if self.recording {
                let offset_ms: u64 = if self.loop_duration == 0 {
                    match self.start_time {
                        Some(st) => now - st,
                        None => 0,
                    }
                } else {
                    match self.playback_start {
                        Some(ps) => {
                            let raw = now - ps;
                            if raw > self.loop_duration {
                                raw - self.loop_duration
                            } else {
                                raw
                            }
                        },
                        None => 0,
                    }
                };
                self.push_event_sorted(
                    SeqEvent { offset_ms, note, velocity, is_note_on: on_edge },
                );
            }
        }

        self.last_now = now;
    }
}


/// The first pad whose configured note is `note`, if any.
pub open spec fn pad_of_note_from(s: Settings, note: u8, i: int) -> Option<int>
    decreases PAD_COUNT - i,
{
    if i < 0 || i >= PAD_COUNT {
        None
    } else if s.notemaps@[i] == note {
        Some(i)
    } else {
        pad_of_note_from(s, note, i + 1)
    }
}

/// The pad a played-back note lights, if its note is mapped.
pub open spec fn pad_of_note_spec(s: Settings, note: u8) -> Option<int> {
    pad_of_note_from(s, note, 0)
}

/// Looks up the first pad whose configured note is `note`.
fn pad_of_note(settings: &Settings, note: u8) -> (r: Option<usize>)
    requires
        settings.wf(),
    ensures
        match r {
            Some(p) => p < PAD_COUNT && pad_of_note_spec(*settings, note) == Some(p as int),
            None => pad_of_note_spec(*settings, note) is None,
        },
{
    let mut i: usize = 0;
    while i < PAD_COUNT
        invariant
            i <= PAD_COUNT,
            settings.wf(),
            pad_of_note_spec(*settings, note) == pad_of_note_from(*settings, note, i as int),
        decreases PAD_COUNT - i,
    {
        if settings.notemaps[i] == note {
            return Some(i);
        }
        i = i + 1;
    }
    None
}

/// The note message a captured event plays back as.
pub open spec fn emission_of(e: SeqEvent) -> MidiEmission {
    if e.is_note_on {
        MidiEmission::NoteOn { key: e.note, velocity: e.velocity }
    } else {
        MidiEmission::NoteOff { key: e.note, velocity: e.velocity }
    }
}

/// The first event index at or past `k` whose offset lies beyond `elapsed`;
/// playback drains everything before it.
pub open spec fn drain_end(events: Seq<SeqEvent>, k: int, elapsed: u64) -> int
    decreases events.len() - k,
{
    if k < 0 || k >= events.len() {
        k
    } else if events[k].offset_ms > elapsed {
        k
    } else {
        drain_end(events, k + 1, elapsed)
    }
}

/// The note messages playback emits for the events in `[from, to)`, in
/// cursor order.
pub open spec fn fired_midi(events: Seq<SeqEvent>, from: int, to: int) -> Seq<MidiEmission>
    decreases to - from,
{
    if to <= from {
        Seq::empty()
    } else {
        fired_midi(events, from, to - 1).push(emission_of(events[to - 1]))
    }
}

/// The sequencer-held overlay after playing back the events in `[from, to)`.
pub open spec fn holding_after(
    s: Settings,
    events: Seq<SeqEvent>,
    from: int,
    to: int,
    h0: Seq<bool>,
) -> Seq<bool>
    decreases to - from,
{
    if to <= from {
        h0
    } else {
        let h = holding_after(s, events, from, to - 1, h0);
        match pad_of_note_spec(s, events[to - 1].note) {
            Some(p) => h.update(p, events[to - 1].is_note_on),
            None => h,
        }
    }
}

/// The pad lights after playing back the events in `[from, to)`: each
/// mapped event recomputes its pad's light under the user-held priority.
pub open spec fn pads_after(
    s: Settings,
    events: Seq<SeqEvent>,
    from: int,
    to: int,
    user: Seq<bool>,
    p0: Seq<PadLight>,
) -> Seq<PadLight>
    decreases to - from,
{
    if to <= from {
        p0
    } else {
        let p = pads_after(s, events, from, to - 1, user, p0);
        match pad_of_note_spec(s, events[to - 1].note) {
            Some(pi) => p.update(pi, pad_light_spec(user[pi], events[to - 1].is_note_on)),
            None => p,
        }
    }
}

/// Whether any event in `[from, to)` lights a pad, which is what makes a
/// playback tick report a light change.
pub open spec fn any_mapped(s: Settings, events: Seq<SeqEvent>, from: int, to: int) -> bool
    decreases to - from,
{
    if to <= from {
        false
    } else {
        any_mapped(s, events, from, to - 1) || pad_of_note_spec(s, events[to - 1].note) is Some
    }
}

/// The record light's blink phase: on for 500 ms, off for 500 ms.
pub open spec fn blink_brightness(now: u64) -> Brightness {
    if (now / 500) % 2 == 0 {
        Brightness::Bright
    } else {
        Brightness::Dim
    }
}

impl PlayMode {
    /// One scheduler tick: while playing with a loop, anchor the iteration
    /// lazily, cut hard back to the start when the loop's end is passed,
    /// and drain every event at or before the elapsed position, playing
    /// its note and relighting its pad; while recording, blink the record
    /// light. Reports whether any light changed.
    #[verifier::rlimit(60)]
    pub fn tick(&mut self, ctx: &mut DriverContext) -> (changed: bool)
        requires
            old(ctx).wf(),
            old(self).wf(),
            old(ctx).now_ms >= old(self).last_now,
        ensures
            final(ctx).wf(),
            final(self).wf(),
            final(self).last_now == old(ctx).now_ms,
            final(ctx).settings == old(ctx).settings,
            final(ctx).now_ms == old(ctx).now_ms,
            final(ctx).osc_out@ == old(ctx).osc_out@,
            final(ctx).lights.slider@ == old(ctx).lights.slider@,
            final(self).armed == old(self).armed,
            final(self).recording == old(self).recording,
            final(self).playing == old(self).playing,
            final(self).start_time == old(self).start_time,
            final(self).loop_duration == old(self).loop_duration,
            final(self).paused_position == old(self).paused_position,
            final(self).events@ == old(self).events@,
            final(self).user_holding@ == old(self).user_holding@,
            final(self).is_restart_pressed == old(self).is_restart_pressed,
            final(self).is_erase_pressed == old(self).is_erase_pressed,
            ({
                let now = old(ctx).now_ms;
                let m0 = *old(self);
                let active = m0.playing && m0.loop_duration > 0;
                let ps0 = match m0.playback_start {
                    Some(t) => t,
                    None => now,
                };
                let wrapped = now - ps0 >= m0.loop_duration;
                let c0 = if wrapped {
                    0int
                } else {
                    m0.playback_cursor as int
                };
                let el: u64 = if wrapped {
                    0u64
                } else {
                    (now - ps0) as u64
                };
                let c1 = drain_end(m0.events@, c0, el);
                if active {
                    &&& final(self).playback_start == Some(
                        if wrapped {
                            now
                        } else {
                            ps0
                        },
                    )
                    &&& final(self).playback_cursor == c1
                    &&& final(ctx).midi_out@ == old(ctx).midi_out@ + fired_midi(m0.events@, c0, c1)
                    &&& final(self).seq_holding@ == holding_after(
                        old(ctx).settings,
                        m0.events@,
                        c0,
                        c1,
                        m0.seq_holding@,
                    )
                    &&& final(ctx).lights.pads@ == pads_after(
                        old(ctx).settings,
                        m0.events@,
                        c0,
                        c1,
                        m0.user_holding@,
                        old(ctx).lights.pads@,
                    )
                    &&& changed == (any_mapped(old(ctx).settings, m0.events@, c0, c1)
                        || m0.recording)
                } else {
                    &&& final(self).playback_start == m0.playback_start
                    &&& final(self).playback_cursor == m0.playback_cursor
                    &&& final(self).seq_holding@ == m0.seq_holding@
                    &&& final(ctx).midi_out@ == old(ctx).midi_out@
                    &&& final(ctx).lights.pads@ == old(ctx).lights.pads@
                    &&& changed == m0.recording
                }
            }),
            final(ctx).lights.buttons@ == if old(self).recording {
                old(ctx).lights.buttons@.update(
                    button_index_spec(Buttons::Rec),
                    blink_brightness(old(ctx).now_ms),
                )
            } else {
                old(ctx).lights.buttons@
            },
    {
        let now = ctx.now_ms;
        let mut changed = false;

        if self.playing && self.loop_duration > 0 {
            if self.playback_start.is_none() {
                self.playback_start = Some(now);
            }
            let start = match self.playback_start {
                Some(t) => t,
                None => now,
            };
            let mut elapsed = now - start;
            if elapsed >= self.loop_duration {
                self.playback_start = Some(now);
                self.playback_cursor = 0;
                elapsed = 0;
            }

            let ghost s0 = old(ctx).settings;
            let ghost evs = self.events@;
            let ghost c0 = self.playback_cursor as int;
            let ghost el = elapsed;
            let ghost mid0 = ctx.midi_out@;
            let ghost hold0 = self.seq_holding@;
            let ghost pads0 = ctx.lights.pads@;
            let ghost user0 = self.user_holding@;
            let ghost anchor = self.playback_start;

            while self.playback_cursor < self.events.len() && self.events[self.playback_cursor].offset_ms <= elapsed
                invariant
                    ctx.wf(),
                    self.user_holding@.len() == PAD_COUNT,
                    self.seq_holding@.len() == PAD_COUNT,
                    events_sorted(self.events@),
                    forall|i: int|
                        0 <= i < self.events@.len() ==> (#[trigger] self.events@[i]).note < 128
                            && self.events@[i].velocity < 128,
                    elapsed == el,
                    s0 == ctx.settings,
                    ctx.now_ms == old(ctx).now_ms,
                    ctx.osc_out@ == old(ctx).osc_out@,
                    ctx.lights.buttons@ == old(ctx).lights.buttons@,
                    ctx.lights.slider@ == old(ctx).lights.slider@,
                    evs == self.events@,
                    user0 == self.user_holding@,
                    self.armed == old(self).armed,
                    self.recording == old(self).recording,
                    self.playing == old(self).playing,
                    self.start_time == old(self).start_time,
                    self.loop_duration == old(self).loop_duration,
                    self.paused_position == old(self).paused_position,
                    self.is_restart_pressed == old(self).is_restart_pressed,
                    self.is_erase_pressed == old(self).is_erase_pressed,
                    self.last_now == old(self).last_now,
                    self.playback_start == anchor,
                    anchor is Some,
                    anchor->0 <= old(ctx).now_ms,
                    0 <= c0 <= self.playback_cursor as int,
                    drain_end(evs, c0, el) == drain_end(evs, self.playback_cursor as int, el),
                    ctx.midi_out@ == mid0 + fired_midi(evs, c0, self.playback_cursor as int),
                    self.seq_holding@ == holding_after(
                        s0,
                        evs,
                        c0,
                        self.playback_cursor as int,
                        hold0,
                    ),
                    ctx.lights.pads@ == pads_after(
                        s0,
                        evs,
                        c0,
                        self.playback_cursor as int,
                        user0,
                        pads0,
                    ),
                    changed == any_mapped(s0, evs, c0, self.playback_cursor as int),
                decreases self.events@.len() - self.playback_cursor,
            {
                let cursor = self.playback_cursor;
                let event = self.events[cursor];
                if event.is_note_on {
                    ctx.send_midi(MidiEmission::NoteOn { key: event.note, velocity: event.velocity });
                } else {
                    ctx.send_midi(
                        MidiEmission::NoteOff { key: event.note, velocity: event.velocity },
                    );
                }
                if let Some(pad_index) = pad_of_note(&ctx.settings, event.note) {
                    self.seq_holding.set(pad_index, event.is_note_on);
                    self.update_pad_light(ctx, pad_index);
                    changed = true;
                }
                self.playback_cursor = cursor + 1;
            }
        }

        if self.recording {
            let blink_on = (now / 500) % 2 == 0;
            let brightness = if blink_on {
                Brightness::Bright
            } else {
                Brightness::Dim
            };
            ctx.lights.set_button(Buttons::Rec, brightness);
            changed = true;
        }

        self.last_now = now;
        changed
    }
}


/// Where playback resumes in the event list for a saved offset: the first
/// event at or past it.
pub open spec fn seek_pos(s: Seq<SeqEvent>, off: u64) -> int
    decreases s.len(),
{
    if s.len() == 0 {
        0
    } else if s[0].offset_ms >= off {
        0
    } else {
        1 + seek_pos(s.drop_first(), off)
    }
}

proof fn lemma_seek_pos_char(s: Seq<SeqEvent>, off: u64, i: int)
    requires
        events_sorted(s),
        0 <= i <= s.len(),
        forall|j: int| 0 <= j < i ==> (#[trigger] s[j]).offset_ms < off,
        i < s.len() ==> s[i].offset_ms >= off,
    ensures
        seek_pos(s, off) == i,
    decreases s.len(),
{
    if s.len() == 0 {
    } else if s[0].offset_ms >= off {
        assert(i == 0);
    } else {
        let t = s.drop_first();
        assert(i >= 1);
        assert forall|j: int| 0 <= j < i - 1 implies (#[trigger] t[j]).offset_ms < off by {
            assert(t[j] == s[j + 1]);
        }
        assert(i - 1 < t.len() ==> t[i - 1].offset_ms >= off);
        lemma_seek_pos_char(t, off, i - 1);
    }
}

impl PlayMode {
    /// Clear the sequencer-held overlay and recompute all sixteen pad
    /// lights, as pausing and stopping do.
    fn clear_seq_lights(&mut self, ctx: &mut DriverContext)
        requires
            old(ctx).wf(),
            old(self).user_holding@.len() == PAD_COUNT,
        ensures
            final(ctx).wf(),
            final(self).seq_holding@.len() == PAD_COUNT,
            forall|i: int| 0 <= i < PAD_COUNT ==> !(#[trigger] final(self).seq_holding@[i]),
            final(ctx).lights.pads@.len() == PAD_COUNT,
            forall|i: int|
                0 <= i < PAD_COUNT ==> final(ctx).lights.pads@[i] == pad_light_spec(
                    old(self).user_holding@[i],
                    false,
                ),
            final(ctx).lights.buttons@ == old(ctx).lights.buttons@,
            final(ctx).lights.slider@ == old(ctx).lights.slider@,
            final(ctx).settings == old(ctx).settings,
            final(ctx).now_ms == old(ctx).now_ms,
            final(ctx).osc_out@ == old(ctx).osc_out@,
            final(ctx).midi_out@ == old(ctx).midi_out@,
            final(self).armed == old(self).armed,
            final(self).recording == old(self).recording,
            final(self).playing == old(self).playing,
            final(self).start_time == old(self).start_time,
            final(self).playback_start == old(self).playback_start,
            final(self).loop_duration == old(self).loop_duration,
            final(self).paused_position == old(self).paused_position,
            final(self).events@ == old(self).events@,
            final(self).playback_cursor == old(self).playback_cursor,
            final(self).user_holding@ == old(self).user_holding@,
            final(self).is_restart_pressed == old(self).is_restart_pressed,
            final(self).is_erase_pressed == old(self).is_erase_pressed,
            final(self).last_now == old(self).last_now,
    {
        self.seq_holding = vec![false; PAD_COUNT];
        let mut i: usize = 0;
        while i < PAD_COUNT
            invariant
                i <= PAD_COUNT,
                ctx.wf(),
                self.user_holding@ == old(self).user_holding@,
                self.user_holding@.len() == PAD_COUNT,
                self.seq_holding@.len() == PAD_COUNT,
                forall|k: int| 0 <= k < PAD_COUNT ==> !(#[trigger] self.seq_holding@[k]),
                ctx.settings == old(ctx).settings,
                ctx.now_ms == old(ctx).now_ms,
                ctx.osc_out@ == old(ctx).osc_out@,
                ctx.midi_out@ == old(ctx).midi_out@,
                ctx.lights.buttons@ == old(ctx).lights.buttons@,
                ctx.lights.slider@ == old(ctx).lights.slider@,
                ctx.lights.pads@.len() == PAD_COUNT,
                forall|k: int|
                    0 <= k < i ==> ctx.lights.pads@[k] == pad_light_spec(
                        old(self).user_holding@[k],
                        false,
                    ),
                forall|k: int|
                    i <= k < PAD_COUNT ==> ctx.lights.pads@[k] == old(ctx).lights.pads@[k],
            decreases PAD_COUNT - i,
        {
            self.update_pad_light(ctx, i);
            i = i + 1;
        }
    }

    /// Handle one transport button edge, then redraw the transport lights.
    ///
    /// On press: Rec arms, disarms, starts an overdub or ends a recording
    /// into playback; Play ends the initial recording, pauses, or resumes
    /// at the saved position; Stop halts everything but keeps the loop;
    /// Restart rewinds; Erase resets the looper entirely.
    #[verifier::rlimit(100)]
    pub fn handle_button(&mut self, button: Buttons, pressed: bool, ctx: &mut DriverContext)
        requires
            old(ctx).wf(),
            old(self).wf(),
            old(ctx).now_ms >= old(self).last_now,
        ensures
            final(ctx).wf(),
            final(self).wf(),
            final(self).last_now == old(ctx).now_ms,
            final(ctx).settings == old(ctx).settings,
            final(ctx).now_ms == old(ctx).now_ms,
            final(ctx).osc_out@ == old(ctx).osc_out@,
            final(ctx).midi_out@ == old(ctx).midi_out@,
            final(ctx).lights.slider@ == old(ctx).lights.slider@,
            final(ctx).lights.buttons@ == transport_buttons(
                *final(self),
                old(ctx).lights.buttons@,
            ),
            !(button == Buttons::Erase && pressed) ==> final(self).user_holding@ == old(
                self,
            ).user_holding@,
            final(self).events@.len() == if button == Buttons::Erase && pressed {
                0int
            } else {
                old(self).events@.len() as int
            },
            button == Buttons::Erase && pressed ==> final(self).is_reset(),
            button == Buttons::Erase ==> {
                &&& final(self).is_erase_pressed == pressed
                &&& final(self).is_restart_pressed == old(self).is_restart_pressed
                &&& (!pressed ==> unchanged_core(*old(self), *final(self)))
                &&& (pressed ==> (forall|i: int|
                    0 <= i < PAD_COUNT ==> final(ctx).lights.pads@[i] == (PadLight {
                        color: PadColors::Off,
                        brightness: Brightness::Off,
                    })))
                &&& (!pressed ==> final(ctx).lights.pads@ == old(ctx).lights.pads@)
            },
            button == Buttons::Rec ==> {
                let m0 = *old(self);
                let now = old(ctx).now_ms;
                &&& final(ctx).lights.pads@ == old(ctx).lights.pads@
                &&& final(self).seq_holding@ == m0.seq_holding@
                &&& final(self).events@ == m0.events@
                &&& final(self).is_restart_pressed == m0.is_restart_pressed
                &&& final(self).is_erase_pressed == m0.is_erase_pressed
                &&& final(self).paused_position == m0.paused_position
                &&& final(self).playback_cursor == m0.playback_cursor
                &&& final(self).start_time == m0.start_time
                &&& if !pressed {
                    unchanged_core(m0, *final(self))
                } else if m0.recording {
                    &&& !final(self).recording
                    &&& final(self).playing
                    &&& final(self).armed == m0.armed
                    &&& if m0.loop_duration == 0 {
                        &&& final(self).loop_duration == match m0.start_time {
                            Some(st) => (now - st) as u64,
                            None => 0u64,
                        }
                        &&& final(self).playback_start == Some(now)
                    } else {
                        &&& final(self).loop_duration == m0.loop_duration
                        &&& final(self).playback_start == m0.playback_start
                    }
                } else if m0.playing {
                    &&& final(self).recording
                    &&& final(self).playing == m0.playing
                    &&& final(self).armed == m0.armed
                    &&& final(self).loop_duration == m0.loop_duration
                    &&& final(self).playback_start == m0.playback_start
                } else {
                    &&& final(self).armed == !m0.armed
                    &&& final(self).recording == m0.recording
                    &&& final(self).playing == m0.playing
                    &&& final(self).loop_duration == m0.loop_duration
                    &&& final(self).playback_start == m0.playback_start
                }
            },
            button == Buttons::Play ==> {
                let m0 = *old(self);
                let now = old(ctx).now_ms;
                &&& final(self).events@ == m0.events@
                &&& final(self).is_restart_pressed == m0.is_restart_pressed
                &&& final(self).is_erase_pressed == m0.is_erase_pressed
                &&& final(self).armed == m0.armed
                &&& if !pressed {
                    unchanged_core(m0, *final(self)) && final(ctx).lights.pads@ == old(
                        ctx,
                    ).lights.pads@
                } else if m0.recording && m0.loop_duration == 0 {
                    &&& !final(self).recording
                    &&& final(self).playing
                    &&& final(self).loop_duration == match m0.start_time {
                        Some(st) => (now - st) as u64,
                        None => 0u64,
                    }
                    &&& final(self).playback_start == Some(now)
                    &&& final(self).paused_position is None
                    &&& final(self).start_time == m0.start_time
                    &&& final(self).playback_cursor == m0.playback_cursor
                    &&& final(self).seq_holding@ == m0.seq_holding@
                    &&& final(ctx).lights.pads@ == old(ctx).lights.pads@
                } else if m0.playing {
                    &&& !final(self).playing
                    &&& !final(self).recording
                    &&& final(self).loop_duration == m0.loop_duration
                    &&& final(self).start_time == m0.start_time
                    &&& final(self).playback_start == m0.playback_start
                    &&& final(self).playback_cursor == m0.playback_cursor
                    &&& final(self).paused_position == match m0.playback_start {
                        Some(ps) => Some(
                            if m0.loop_duration > 0 {
                                ((now - ps) % (m0.loop_duration as int)) as u64
                            } else {
                                0u64
                            },
                        ),
                        None => m0.paused_position,
                    }
                    &&& (forall|i: int| 0 <= i < PAD_COUNT ==> !(#[trigger] final(self).seq_holding@[i]))
                    &&& (forall|i: int|
                        0 <= i < PAD_COUNT ==> final(ctx).lights.pads@[i] == pad_light_spec(
                            m0.user_holding@[i],
                            false,
                        ))
                } else if m0.loop_duration > 0 {
                    let off = match m0.paused_position {
                        Some(p) => p,
                        None => 0u64,
                    };
                    &&& final(self).playing
                    &&& final(self).recording == m0.recording
                    &&& final(self).loop_duration == m0.loop_duration
                    &&& final(self).start_time == m0.start_time
                    &&& final(self).paused_position == m0.paused_position
                    &&& final(self).playback_start == Some((now - off) as u64)
                    &&& final(self).playback_cursor == seek_pos(m0.events@, off)
                    &&& final(self).seq_holding@ == m0.seq_holding@
                    &&& final(ctx).lights.pads@ == old(ctx).lights.pads@
                } else {
                    unchanged_core(m0, *final(self)) && final(ctx).lights.pads@ == old(
                        ctx,
                    ).lights.pads@
                }
            },
            button == Buttons::Stop ==> {
                let m0 = *old(self);
                &&& final(self).events@ == m0.events@
                &&& final(self).is_restart_pressed == m0.is_restart_pressed
                &&& final(self).is_erase_pressed == m0.is_erase_pressed
                &&& if !pressed {
                    unchanged_core(m0, *final(self)) && final(ctx).lights.pads@ == old(
                        ctx,
                    ).lights.pads@
                } else {
                    &&& !final(self).playing
                    &&& !final(self).recording
                    &&& !final(self).armed
                    &&& final(self).loop_duration == m0.loop_duration
                    &&& final(self).start_time == m0.start_time
                    &&& final(self).playback_start == m0.playback_start
                    &&& final(self).paused_position == Some(0u64)
                    &&& final(self).playback_cursor == 0
                    &&& (forall|i: int| 0 <= i < PAD_COUNT ==> !(#[trigger] final(self).seq_holding@[i]))
                    &&& (forall|i: int|
                        0 <= i < PAD_COUNT ==> final(ctx).lights.pads@[i] == pad_light_spec(
                            m0.user_holding@[i],
                            false,
                        ))
                }
            },
            button == Buttons::Restart ==> {
                let m0 = *old(self);
                let now = old(ctx).now_ms;
                &&& final(ctx).lights.pads@ == old(ctx).lights.pads@
                &&& final(self).events@ == m0.events@
                &&& final(self).seq_holding@ == m0.seq_holding@
                &&& final(self).is_restart_pressed == pressed
                &&& final(self).is_erase_pressed == m0.is_erase_pressed
                &&& final(self).armed == m0.armed
                &&& final(self).recording == m0.recording
                &&& final(self).playing == m0.playing
                &&& final(self).loop_duration == m0.loop_duration
                &&& final(self).start_time == m0.start_time
                &&& if pressed {
                    &&& final(self).playback_cursor == 0
                    &&& final(self).paused_position == Some(0u64)
                    &&& final(self).playback_start == if m0.playing {
                        Some(now)
                    } else {
                        m0.playback_start
                    }
                } else {
                    &&& final(self).playback_cursor == m0.playback_cursor
                    &&& final(self).paused_position == m0.paused_position
                    &&& final(self).playback_start == m0.playback_start
                }
            },
            !(button == Buttons::Rec || button == Buttons::Play || button == Buttons::Stop
                || button == Buttons::Restart || button == Buttons::Erase) ==> {
                &&& unchanged_core(*old(self), *final(self))
                &&& final(self).is_restart_pressed == old(self).is_restart_pressed
                &&& final(self).is_erase_pressed == old(self).is_erase_pressed
                &&& final(ctx).lights.pads@ == old(ctx).lights.pads@
            },
    {
        match button {
            Buttons::Rec => {
                if pressed {
                    if self.recording {
                        if self.loop_duration == 0 {
                            if let Some(start) = self.start_time {
                                self.loop_duration = ctx.now_ms - start;
                            }
                            self.playback_start = Some(ctx.now_ms);
                        }
                        self.recording = false;
                        self.playing = true;
                    } else if self.playing {
                        self.recording = true;
                    } else if self.armed {
                        self.armed = false;
                    } else {
                        self.armed = true;
                    }
                }
            },
            Buttons::Play => {
                if pressed {
                    if self.recording && self.loop_duration == 0 {
                        if let Some(start) = self.start_time {
                            self.loop_duration = ctx.now_ms - start;
                        }
                        self.recording = false;
                        self.playing = true;
                        self.playback_start = Some(ctx.now_ms);
                        self.paused_position = None;
                    } else if self.playing {
                        self.playing = false;
                        self.recording = false;
                        if let Some(start) = self.playback_start {
                            let elapsed = ctx.now_ms - start;
                            let pos: u64 = if self.loop_duration > 0 {
                                elapsed % self.loop_duration
                            } else {
                                0
                            };
                            self.paused_position = Some(pos);
                        }
                        self.clear_seq_lights(ctx);
                    } else if self.loop_duration > 0 {
                        self.playing = true;
                        let offset = match self.paused_position {
                            Some(p) => p,
                            None => 0,
                        };
                        self.playback_start = Some(ctx.now_ms - offset);
                        let n = self.events.len();
                        let mut i: usize = 0;
                        while i < n && self.events[i].offset_ms < offset
                            invariant
                                i <= n,
                                n == self.events@.len(),
                                events_sorted(self.events@),
                                forall|j: int|
                                    0 <= j < i ==> (#[trigger] self.events@[j]).offset_ms < offset,
                            decreases n - i,
                        {
                            i = i + 1;
                        }
                        proof {
                            lemma_seek_pos_char(self.events@, offset, i as int);
                        }
                        self.playback_cursor = i;
                    }
                }
            },
            Buttons::Stop => {
                if pressed {
                    self.playing = false;
                    self.recording = false;
                    self.armed = false;
                    self.paused_position = Some(0);
                    self.playback_cursor = 0;
                    self.clear_seq_lights(ctx);
                }
            },
            Buttons::Restart => {
                self.is_restart_pressed = pressed;
                if pressed {
                    if self.playing {
                        self.playback_start = Some(ctx.now_ms);
                        self.playback_cursor = 0;
                    }
                    self.paused_position = Some(0);
                    if !self.playing {
                        self.playback_cursor = 0;
                    }
                }
            },
            Buttons::Erase => {
                self.is_erase_pressed = pressed;
                if pressed {
                    self.clear_all(ctx);
                }
            },
            _ => {},
        }
        self.update_transport_lights(ctx);
        self.last_now = ctx.now_ms;
    }
}

/// Whether the looper's transport state is unchanged between two values:
/// the flags, anchors, loop, cursor and overlays all kept.
pub open spec fn unchanged_core(m0: PlayMode, m1: PlayMode) -> bool {
    &&& m1.armed == m0.armed
    &&& m1.recording == m0.recording
    &&& m1.playing == m0.playing
    &&& m1.start_time == m0.start_time
    &&& m1.playback_start == m0.playback_start
    &&& m1.loop_duration == m0.loop_duration
    &&& m1.paused_position == m0.paused_position
    &&& m1.playback_cursor == m0.playback_cursor
    &&& m1.seq_holding@ == m0.seq_holding@
}

} // verus!
