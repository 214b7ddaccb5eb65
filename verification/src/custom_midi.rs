//! The button-mapping mode: per-button trigger/toggle behavior with
//! mutually exclusive toggle groups, pad-to-note translation, and
//! encoder/slider-to-OSC translation.
//!
//! A trigger button re-fires only when the press edge differs from its
//! light; a toggle button flips a stored state on press, and flipping one
//! member of an exclusive group on forces every other member off. The mode
//! owns the toggle states and the group table, derived once from the
//! configuration; everything else it reads through the per-call context.

use vstd::prelude::*;
use vstd::pervasive::VecAdditionalExecFns;
use crate::context::{osc_pushed, DriverContext};
use crate::controls::{
    button_index, button_index_spec, button_of_index, button_of_index_spec, Buttons, BUTTON_COUNT,
};
use crate::controls::PadEventType;
use crate::lights::{draw_slider_bar, slider_segment, Brightness, Lights, PadColors, PadLight, PAD_COUNT};
use crate::midi::MidiEmission;
use crate::osc::{is_osc, osc_button_addr};
use crate::settings::{ButtonConfig, ButtonMode, Settings};

verus! {

/// How many distinct exclusive-group ids a configuration can use.
pub const GROUP_IDS: usize = 256;

/// The members of exclusive group `g` among the buttons at bit positions
/// below `n`, in bit order.
pub open spec fn group_members_upto(s: Settings, g: u8, n: int) -> Seq<Buttons>
    decreases n,
{
    if n <= 0 {
        Seq::empty()
    } else {
        let rest = group_members_upto(s, g, n - 1);
        match button_of_index_spec(n - 1) {
            Some(b) => {
                if s.in_group(b, g) {
                    rest.push(b)
                } else {
                    rest
                }
            },
            None => rest,
        }
    }
}

/// The members of exclusive group `g`, in bit order.
pub open spec fn group_members_spec(s: Settings, g: u8) -> Seq<Buttons> {
    group_members_upto(s, g, BUTTON_COUNT as int)
}

/// The group members a cascade touches: every member but the pressed
/// button itself, in member order.
pub open spec fn cascade_targets(members: Seq<Buttons>, b: Buttons) -> Seq<Buttons>
    decreases members.len(),
{
    if members.len() == 0 {
        Seq::empty()
    } else {
        let rest = cascade_targets(members.drop_last(), b);
        if members.last() != b {
            rest.push(members.last())
        } else {
            rest
        }
    }
}

/// Whether some button in `targets` sits at bit position `i`.
pub open spec fn targets_hit(targets: Seq<Buttons>, i: int) -> bool {
    exists|j: int| 0 <= j < targets.len() && button_index_spec(#[trigger] targets[j]) == i
}

/// Whether the button at bit position `i` is a toggle in exclusive group `g`.
pub open spec fn index_in_group(s: Settings, i: int, g: u8) -> bool {
    match button_of_index_spec(i) {
        Some(b) => s.in_group(b, g),
        None => false,
    }
}

/// Bit positions and buttons are inverse to one another.
pub proof fn lemma_button_index_inverse()
    ensures
        forall|b: Buttons| button_of_index_spec(#[trigger] button_index_spec(b)) == Some(b),
        forall|i: int| 0 <= i < BUTTON_COUNT ==> (#[trigger] button_of_index_spec(i)) is Some,
        forall|i: int|
            0 <= i < BUTTON_COUNT ==> button_index_spec(
                (#[trigger] button_of_index_spec(i))->Some_0,
            ) == i,
{
}

/// Every group member is in the group, and every button of the group is a
/// member, at its bit-order place.
pub proof fn lemma_group_members_complete(s: Settings, g: u8, o: Buttons)
    ensures
        group_members_spec(s, g).contains(o) <==> s.in_group(o, g),
{
    lemma_button_index_inverse();
    lemma_group_members_upto_complete(s, g, o, BUTTON_COUNT as int);
}

proof fn lemma_group_members_upto_complete(s: Settings, g: u8, o: Buttons, n: int)
    requires
        0 <= n <= BUTTON_COUNT,
    ensures
        group_members_upto(s, g, n).contains(o) <==> (s.in_group(o, g) && button_index_spec(o)
            < n),
    decreases n,
{
    lemma_button_index_inverse();
    if n > 0 {
        lemma_group_members_upto_complete(s, g, o, n - 1);
        let whole = group_members_upto(s, g, n);
        let rest = group_members_upto(s, g, n - 1);
        match button_of_index_spec(n - 1) {
            Some(b) => {
                if s.in_group(b, g) {
                    assert(whole == rest.push(b));
                    assert forall|x: Buttons| whole.contains(x) implies rest.contains(x) || x
                        == b by {
                        let j = choose|j: int| 0 <= j < whole.len() && whole[j] == x;
                        if j < rest.len() {
                            assert(rest[j] == x);
                        }
                    }
                    assert forall|x: Buttons| rest.contains(x) implies whole.contains(x) by {
                        let j = choose|j: int| 0 <= j < rest.len() && rest[j] == x;
                        assert(whole[j] == x);
                    }
                    if rest.contains(o) || o == b {
                        assert(whole[whole.len() - 1] == b);
                    }
                }
            },
            None => {},
        }
    }
}

/// What a cascade touches: everything in `members` except `b`.
pub proof fn lemma_cascade_targets_contains(members: Seq<Buttons>, b: Buttons, o: Buttons)
    ensures
        cascade_targets(members, b).contains(o) <==> (members.contains(o) && o != b),
    decreases members.len(),
{
    if members.len() > 0 {
        lemma_cascade_targets_contains(members.drop_last(), b, o);
        let whole = cascade_targets(members, b);
        let rest = cascade_targets(members.drop_last(), b);
        assert forall|x: Buttons| rest.contains(x) implies whole.contains(x) by {
            let j = choose|j: int| 0 <= j < rest.len() && rest[j] == x;
            if members.last() != b {
                assert(whole == rest.push(members.last()));
                assert(whole[j] == x);
            }
        }
        assert forall|x: Buttons| whole.contains(x) implies rest.contains(x) || (x
            == members.last() && x != b) by {
            let j = choose|j: int| 0 <= j < whole.len() && whole[j] == x;
            if members.last() != b && j == whole.len() - 1 {
            } else {
                assert(rest[j] == x);
            }
        }
        assert forall|x: Buttons| members.contains(x) implies members.drop_last().contains(x) || x
            == members.last() by {
            let j = choose|j: int| 0 <= j < members.len() && members[j] == x;
            if j < members.len() - 1 {
                assert(members.drop_last()[j] == x);
            }
        }
        assert forall|x: Buttons|
            members.drop_last().contains(x) implies members.contains(x) by {
            let j = choose|j: int| 0 <= j < members.len() - 1 && members.drop_last()[j] == x;
            assert(members[j] == x);
        }
        if members.contains(o) && o != b {
            if members.drop_last().contains(o) {
                assert(whole.contains(o));
            } else {
                assert(o == members.last());
                assert(whole == rest.push(members.last()));
                assert(whole[whole.len() - 1] == o);
            }
        }
    }
}

/// The mode's owned state.
pub struct CustomMidiMode {
    pub toggle_known: Vec<bool>,
    pub toggle_on: Vec<bool>,
    pub exclusive_groups: Vec<Vec<Buttons>>,
    pub last_encoder_val: u8,
    pub encoder_is_pressed: bool,
}

impl CustomMidiMode {
    /// The toggle tables cover every button, an unknown toggle is off, and
    /// the group table is exactly what the configuration derives.
    pub open spec fn wf(&self, s: Settings) -> bool {
        &&& self.toggle_known@.len() == BUTTON_COUNT
        &&& self.toggle_on@.len() == BUTTON_COUNT
        &&& forall|i: int|
            0 <= i < BUTTON_COUNT && !self.toggle_known@[i] ==> !(#[trigger] self.toggle_on@[i])
        &&& self.exclusive_groups@.len() == GROUP_IDS
        &&& forall|g: int|
            0 <= g < GROUP_IDS ==> (#[trigger] self.exclusive_groups@[g])@ == group_members_spec(
                s,
                g as u8,
            )
    }

    /// No two toggles of one exclusive group are on at the same time.
    pub open spec fn groups_exclusive(&self, s: Settings) -> bool {
        forall|g: u8, i: int, j: int|
            0 <= i < BUTTON_COUNT && 0 <= j < BUTTON_COUNT && i != j && #[trigger] index_in_group(
                s,
                i,
                g,
            ) && #[trigger] index_in_group(s, j, g) ==> !(self.toggle_on@[i]
                && self.toggle_on@[j])
    }

    /// A fresh mode for a configuration: no toggle flipped yet, the group
    /// table derived from the configuration.
    pub fn new(settings: &Settings) -> (r: CustomMidiMode)
        requires
            settings.wf(),
        ensures
            r.wf(*settings),
            r.groups_exclusive(*settings),
            forall|i: int| 0 <= i < BUTTON_COUNT ==> !(#[trigger] r.toggle_known@[i]),
            forall|i: int| 0 <= i < BUTTON_COUNT ==> !(#[trigger] r.toggle_on@[i]),
            r.last_encoder_val == 0,
            !r.encoder_is_pressed,
    {
        let mut groups: Vec<Vec<Buttons>> = Vec::new();
        let mut g: usize = 0;
        while g < GROUP_IDS
            invariant
                g <= GROUP_IDS,
                groups@.len() == g,
                forall|k: int|
                    0 <= k < g ==> (#[trigger] groups@[k])@ == group_members_upto(
                        *settings,
                        k as u8,
                        0,
                    ),
            decreases GROUP_IDS - g,
        {
            groups.push(Vec::new());
            g = g + 1;
        }

        let mut i: usize = 0;
        while i < BUTTON_COUNT
            invariant
                i <= BUTTON_COUNT,
                settings.wf(),
                groups@.len() == GROUP_IDS,
                forall|k: int|
                    0 <= k < GROUP_IDS ==> (#[trigger] groups@[k])@ == group_members_upto(
                        *settings,
                        k as u8,
                        i as int,
                    ),
            decreases BUTTON_COUNT - i,
        {
            if let Some(b) = button_of_index(i) {
                let cfg = ctx_config(settings, i);
                if let Some(c) = cfg {
                    if c.mode == ButtonMode::Toggle {
                        if let Some(gid) = c.group_id {
                            let mut members: Vec<Buttons> = Vec::new();
                            groups.set_and_swap(gid as usize, &mut members);
                            members.push(b);
                            groups.set(gid as usize, members);
                        }
                    }
                }
            }
            i = i + 1;
        }

        CustomMidiMode {
            toggle_known: vec![false; BUTTON_COUNT],
            toggle_on: vec![false; BUTTON_COUNT],
            exclusive_groups: groups,
            last_encoder_val: 0,
            encoder_is_pressed: false,
        }
    }

    /// The button lights this mode would restore over a framebuffer: every
    /// button whose toggle has ever flipped shows its remembered state;
    /// the rest keep what they showed.
    pub open spec fn restored_buttons(&self, btns: Seq<Brightness>) -> Seq<Brightness> {
        Seq::new(
            btns.len(),
            |i: int|
                if 0 <= i < BUTTON_COUNT && self.toggle_known@[i] {
                    if self.toggle_on@[i] {
                        Brightness::Bright
                    } else {
                        Brightness::Off
                    }
                } else {
                    btns[i]
                },
        )
    }

    /// Restore the lights of every button with a remembered toggle state.
    pub fn refresh(&self, lights: &mut Lights)
        requires
            old(lights).wf(),
            self.toggle_known@.len() == BUTTON_COUNT,
            self.toggle_on@.len() == BUTTON_COUNT,
        ensures
            final(lights).wf(),
            final(lights).buttons@ == self.restored_buttons(old(lights).buttons@),
            final(lights).pads@ == old(lights).pads@,
            final(lights).slider@ == old(lights).slider@,
    {
        let mut i: usize = 0;
        while i < BUTTON_COUNT
            invariant
                i <= BUTTON_COUNT,
                lights.wf(),
                self.toggle_known@.len() == BUTTON_COUNT,
                self.toggle_on@.len() == BUTTON_COUNT,
                lights.pads@ == old(lights).pads@,
                lights.slider@ == old(lights).slider@,
                lights.buttons@.len() == old(lights).buttons@.len(),
                forall|k: int|
                    0 <= k < i ==> lights.buttons@[k] == self.restored_buttons(
                        old(lights).buttons@,
                    )[k],
                forall|k: int|
                    i <= k < BUTTON_COUNT ==> lights.buttons@[k] == old(lights).buttons@[k],
            decreases BUTTON_COUNT - i,
        {
            if self.toggle_known[i] {
                if let Some(b) = button_of_index(i) {
                    proof {
                        lemma_button_index_inverse();
                    }
                    if self.toggle_on[i] {
                        lights.set_button(b, Brightness::Bright);
                    } else {
                        lights.set_button(b, Brightness::Off);
                    }
                }
            }
            i = i + 1;
        }
        proof {
            assert(lights.buttons@ =~= self.restored_buttons(old(lights).buttons@));
        }
    }
}

/// Restoring toggles over an already-restored framebuffer changes nothing:
/// entering the mode twice with unchanged toggle state shows the same
/// lights both times.
pub proof fn lemma_refresh_idempotent(m: &CustomMidiMode, btns: Seq<Brightness>)
    ensures
        m.restored_buttons(m.restored_buttons(btns)) == m.restored_buttons(btns),
{
    assert(m.restored_buttons(m.restored_buttons(btns)) =~= m.restored_buttons(btns));
}

/// One button's configuration, read out of the table.
fn ctx_config(settings: &Settings, i: usize) -> (r: Option<ButtonConfig>)
    requires
        settings.wf(),
        i < BUTTON_COUNT,
    ensures
        r == settings.configs@[i as int],
{
    settings.configs[i]
}


/// The rotation an encoder sample encodes, relative to the previous one:
/// clockwise (`1`) for a small increment or a wrap past the top, else
/// counterclockwise (`-1`). The heuristic assumes at most 7 steps per poll.
pub open spec fn encoder_direction(previous: u8, current: u8) -> int {
    let diff = current - previous;
    if (0 < diff < 8) || diff < -8 {
        1int
    } else {
        -1int
    }
}

impl CustomMidiMode {
    /// Forward a nonzero, changed encoder sample as a direction over OSC;
    /// a zero sample means "no sample" and never overwrites the stored one.
    pub fn handle_encoder(&mut self, val: u8, ctx: &mut DriverContext)
        ensures
            final(self).last_encoder_val == if val != 0 {
                val
            } else {
                old(self).last_encoder_val
            },
            final(self).toggle_known@ == old(self).toggle_known@,
            final(self).toggle_on@ == old(self).toggle_on@,
            final(self).exclusive_groups@ == old(self).exclusive_groups@,
            final(self).encoder_is_pressed == old(self).encoder_is_pressed,
            final(ctx).lights == old(ctx).lights,
            final(ctx).settings == old(ctx).settings,
            final(ctx).now_ms == old(ctx).now_ms,
            final(ctx).midi_out@ == old(ctx).midi_out@,
            if val != 0 && val != old(self).last_encoder_val {
                osc_pushed(
                    final(ctx).osc_out@,
                    old(ctx).osc_out@,
                    "/maschine/encoder"@,
                    encoder_direction(old(self).last_encoder_val, val),
                )
            } else {
                final(ctx).osc_out@ == old(ctx).osc_out@
            },
    {
        if val != 0 && val != self.last_encoder_val {
            let diff: i32 = val as i32 - self.last_encoder_val as i32;
            let direction: i32 = if (0 < diff && diff < 8) || diff < -8 {
                1
            } else {
                -1
            };
            ctx.send_osc_fixed("/maschine/encoder", direction);
        }
        if val != 0 {
            self.last_encoder_val = val;
        }
    }

    /// Forward a nonzero slider sample over OSC and redraw the slider bar;
    /// a zero sample is ignored, conflating "not touched" with "at the
    /// minimum" as the device's reports do. Reports whether lights changed.
    pub fn handle_slider(&mut self, val: u8, ctx: &mut DriverContext) -> (changed: bool)
        requires
            old(ctx).wf(),
        ensures
            final(ctx).wf(),
            *final(self) == *old(self),
            final(ctx).settings == old(ctx).settings,
            final(ctx).now_ms == old(ctx).now_ms,
            final(ctx).midi_out@ == old(ctx).midi_out@,
            final(ctx).lights.buttons@ == old(ctx).lights.buttons@,
            final(ctx).lights.pads@ == old(ctx).lights.pads@,
            changed == (val != 0),
            if val != 0 {
                &&& osc_pushed(
                    final(ctx).osc_out@,
                    old(ctx).osc_out@,
                    "/maschine/slider"@,
                    val as int,
                )
                &&& final(ctx).lights.slider@.len() == crate::lights::SLIDER_SEGMENTS
                &&& forall|i: int|
                    0 <= i < crate::lights::SLIDER_SEGMENTS
                        ==> final(ctx).lights.slider@[i] == slider_segment(val, i)
            } else {
                &&& final(ctx).osc_out@ == old(ctx).osc_out@
                &&& final(ctx).lights.slider@ == old(ctx).lights.slider@
            },
    {
        if val != 0 {
            ctx.send_osc_fixed("/maschine/slider", val as i32);
            draw_slider_bar(&mut ctx.lights, val);
            true
        } else {
            false
        }
    }
}


/// The control change a call queues when the button is configured with a
/// controller number and an OSC message was sent: value 127 for "on",
/// 0 for "off".
pub open spec fn cc_out(
    new_midi: Seq<MidiEmission>,
    old_midi: Seq<MidiEmission>,
    cfg: Option<ButtonConfig>,
    osc_value: int,
) -> bool {
    match cfg {
        Some(c) => match c.cc {
            Some(n) => new_midi == old_midi.push(
                MidiEmission::ControlChange {
                    controller: n,
                    value: if osc_value == 1 {
                        127u8
                    } else {
                        0u8
                    },
                },
            ),
            None => new_midi == old_midi,
        },
        None => new_midi == old_midi,
    }
}

/// What pressing or releasing the dedicated encoder-press button does:
/// purely edge-triggered, one OSC int on a change of the stored flag,
/// never a light or a toggle.
pub open spec fn encoder_press_outcome(
    m0: CustomMidiMode,
    c0: DriverContext,
    m1: CustomMidiMode,
    c1: DriverContext,
    is_pressed: bool,
    changed: bool,
) -> bool {
    &&& !changed
    &&& c1.lights == c0.lights
    &&& c1.midi_out@ == c0.midi_out@
    &&& m1.toggle_known@ == m0.toggle_known@
    &&& m1.toggle_on@ == m0.toggle_on@
    &&& if is_pressed != m0.encoder_is_pressed {
        &&& m1.encoder_is_pressed == is_pressed
        &&& osc_pushed(
            c1.osc_out@,
            c0.osc_out@,
            "/maschine/encoderPress"@,
            if is_pressed {
                1int
            } else {
                0int
            },
        )
    } else {
        &&& m1.encoder_is_pressed == m0.encoder_is_pressed
        &&& c1.osc_out@ == c0.osc_out@
    }
}

/// What a trigger button does: it re-fires only when the press edge
/// differs from its current light, emitting one OSC int, possibly a
/// control change, and setting the light to `Normal` or `Off`.
pub open spec fn trigger_outcome(
    m0: CustomMidiMode,
    c0: DriverContext,
    m1: CustomMidiMode,
    c1: DriverContext,
    b: Buttons,
    is_pressed: bool,
    changed: bool,
) -> bool {
    let bi = button_index_spec(b);
    let cur = c0.lights.buttons@[bi] != Brightness::Off;
    let v: int = if is_pressed {
        1
    } else {
        0
    };
    &&& m1.toggle_known@ == m0.toggle_known@
    &&& m1.toggle_on@ == m0.toggle_on@
    &&& m1.encoder_is_pressed == m0.encoder_is_pressed
    &&& if is_pressed != cur {
        &&& changed
        &&& c1.lights.buttons@ == c0.lights.buttons@.update(
            bi,
            if is_pressed {
                Brightness::Normal
            } else {
                Brightness::Off
            },
        )
        &&& osc_pushed(c1.osc_out@, c0.osc_out@, osc_button_addr(b), v)
        &&& cc_out(c1.midi_out@, c0.midi_out@, c0.settings.config_of(b), v)
    } else {
        &&& !changed
        &&& c1.lights == c0.lights
        &&& c1.osc_out@ == c0.osc_out@
        &&& c1.midi_out@ == c0.midi_out@
    }
}

/// What a toggle press does when the light is not already at maximum
/// brightness: the stored toggle flips; on a flip to "on" every other
/// member of the button's exclusive group is forced off, its light
/// cleared and an OSC "0" sent for it, in member order; then the button's
/// own OSC int, an optional control change, and its light set to maximum.
pub open spec fn toggle_flip_outcome(
    m0: CustomMidiMode,
    c0: DriverContext,
    m1: CustomMidiMode,
    c1: DriverContext,
    b: Buttons,
    changed: bool,
) -> bool {
    let s = c0.settings;
    let bi = button_index_spec(b);
    let new_on = !m0.toggle_on@[bi];
    let cascading = new_on && s.group_of(b) is Some;
    let g = s.group_of(b)->Some_0;
    let targets = if cascading {
        cascade_targets(group_members_spec(s, g), b)
    } else {
        Seq::empty()
    };
    let forced = |i: int| cascading && index_in_group(s, i, g) && i != bi;
    &&& changed
    &&& m1.encoder_is_pressed == m0.encoder_is_pressed
    &&& m1.toggle_on@.len() == BUTTON_COUNT
    &&& m1.toggle_known@.len() == BUTTON_COUNT
    &&& (forall|i: int|
        0 <= i < BUTTON_COUNT ==> #[trigger] m1.toggle_on@[i] == if i == bi {
            new_on
        } else if forced(i) {
            false
        } else {
            m0.toggle_on@[i]
        })
    &&& (forall|i: int|
        0 <= i < BUTTON_COUNT ==> #[trigger] m1.toggle_known@[i] == if i == bi || forced(i) {
            true
        } else {
            m0.toggle_known@[i]
        })
    &&& c1.lights.buttons@.len() == c0.lights.buttons@.len()
    &&& (forall|i: int|
        0 <= i < BUTTON_COUNT ==> #[trigger] c1.lights.buttons@[i] == if i == bi {
            Brightness::Bright
        } else if forced(i) {
            Brightness::Off
        } else {
            c0.lights.buttons@[i]
        })
    &&& c1.osc_out@.len() == c0.osc_out@.len() + targets.len() + 1
    &&& c1.osc_out@.subrange(0, c0.osc_out@.len() as int) == c0.osc_out@
    &&& (forall|k: int|
        0 <= k < targets.len() ==> is_osc(
            #[trigger] c1.osc_out@[c0.osc_out@.len() + k],
            osc_button_addr(targets[k]),
            0,
        ))
    &&& is_osc(
        c1.osc_out@.last(),
        osc_button_addr(b),
        if new_on {
            1int
        } else {
            0int
        },
    )
    &&& cc_out(
        c1.midi_out@,
        c0.midi_out@,
        s.config_of(b),
        if new_on {
            1int
        } else {
            0int
        },
    )
}

/// What releasing a lit toggle button does: the light falls back to the
/// remembered toggle value, maximum brightness if still on, else off.
pub open spec fn toggle_release_outcome(
    m0: CustomMidiMode,
    c0: DriverContext,
    m1: CustomMidiMode,
    c1: DriverContext,
    b: Buttons,
    changed: bool,
) -> bool {
    let bi = button_index_spec(b);
    &&& changed
    &&& m1.toggle_known@ == m0.toggle_known@
    &&& m1.toggle_on@ == m0.toggle_on@
    &&& m1.encoder_is_pressed == m0.encoder_is_pressed
    &&& c1.lights.buttons@ == c0.lights.buttons@.update(
        bi,
        if m0.toggle_on@[bi] {
            Brightness::Bright
        } else {
            Brightness::Off
        },
    )
    &&& c1.osc_out@ == c0.osc_out@
    &&& c1.midi_out@ == c0.midi_out@
}

/// A call that does nothing observable.
pub open spec fn idle_outcome(
    m0: CustomMidiMode,
    c0: DriverContext,
    m1: CustomMidiMode,
    c1: DriverContext,
    changed: bool,
) -> bool {
    &&& !changed
    &&& m1.toggle_known@ == m0.toggle_known@
    &&& m1.toggle_on@ == m0.toggle_on@
    &&& m1.encoder_is_pressed == m0.encoder_is_pressed
    &&& c1.lights == c0.lights
    &&& c1.osc_out@ == c0.osc_out@
    &&& c1.midi_out@ == c0.midi_out@
}

/// Every bit position hit by the cascade of `b`\'s group is exactly a
/// position of another group member.
pub proof fn lemma_targets_hit_iff(s: Settings, g: u8, b: Buttons)
    ensures
        forall|i: int|
            #[trigger] targets_hit(cascade_targets(group_members_spec(s, g), b), i) <==> (
            index_in_group(s, i, g) && i != button_index_spec(b) && 0 <= i < BUTTON_COUNT),
{
    lemma_button_index_inverse();
    let members = group_members_spec(s, g);
    let targets = cascade_targets(members, b);
    assert forall|i: int| #[trigger] targets_hit(targets, i) implies (index_in_group(s, i, g) && i
        != button_index_spec(b) && 0 <= i < BUTTON_COUNT) by {
        let j = choose|j: int| 0 <= j < targets.len() && button_index_spec(targets[j]) == i;
        let o = targets[j];
        assert(targets.contains(o));
        lemma_cascade_targets_contains(members, b, o);
        lemma_group_members_complete(s, g, o);
        assert(button_of_index_spec(i) == Some(o));
    }
    assert forall|i: int|
        (index_in_group(s, i, g) && i != button_index_spec(b) && 0 <= i
            < BUTTON_COUNT) implies #[trigger] targets_hit(targets, i) by {
        let o = button_of_index_spec(i)->Some_0;
        lemma_group_members_complete(s, g, o);
        lemma_cascade_targets_contains(members, b, o);
        assert(targets.contains(o));
        let j = choose|j: int| 0 <= j < targets.len() && targets[j] == o;
        assert(button_index_spec(targets[j]) == i);
    }
}


impl CustomMidiMode {
    /// Force every other member of exclusive group `g` off: toggle state
    /// false, light off, and an OSC "0" queued, in member order.
    fn cascade_group(&mut self, button: Buttons, g: u8, ctx: &mut DriverContext)
        requires
            old(ctx).wf(),
            old(self).wf(old(ctx).settings),
        ensures
            final(ctx).wf(),
            final(self).wf(final(ctx).settings),
            final(ctx).settings == old(ctx).settings,
            final(ctx).now_ms == old(ctx).now_ms,
            final(ctx).midi_out@ == old(ctx).midi_out@,
            final(ctx).lights.pads@ == old(ctx).lights.pads@,
            final(ctx).lights.slider@ == old(ctx).lights.slider@,
            final(self).exclusive_groups@ == old(self).exclusive_groups@,
            final(self).last_encoder_val == old(self).last_encoder_val,
            final(self).encoder_is_pressed == old(self).encoder_is_pressed,
            final(self).toggle_on@.len() == BUTTON_COUNT,
            final(self).toggle_known@.len() == BUTTON_COUNT,
            final(ctx).lights.buttons@.len() == BUTTON_COUNT,
            ({
                let s = old(ctx).settings;
                let bi = button_index_spec(button);
                let targets = cascade_targets(group_members_spec(s, g), button);
                let forced = |i: int| index_in_group(s, i, g) && i != bi;
                &&& (forall|i: int|
                    0 <= i < BUTTON_COUNT ==> #[trigger] final(self).toggle_on@[i] == if forced(i) {
                        false
                    } else {
                        old(self).toggle_on@[i]
                    })
                &&& (forall|i: int|
                    0 <= i < BUTTON_COUNT ==> #[trigger] final(self).toggle_known@[i] == if forced(
                        i,
                    ) {
                        true
                    } else {
                        old(self).toggle_known@[i]
                    })
                &&& (forall|i: int|
                    0 <= i < BUTTON_COUNT ==> #[trigger] final(ctx).lights.buttons@[i] == if forced(
                        i,
                    ) {
                        Brightness::Off
                    } else {
                        old(ctx).lights.buttons@[i]
                    })
                &&& final(ctx).osc_out@.len() == old(ctx).osc_out@.len() + targets.len()
                &&& final(ctx).osc_out@.subrange(0, old(ctx).osc_out@.len() as int) == old(
                    ctx,
                ).osc_out@
                &&& (forall|k: int|
                    0 <= k < targets.len() ==> is_osc(
                        #[trigger] final(ctx).osc_out@[old(ctx).osc_out@.len() + k],
                        osc_button_addr(targets[k]),
                        0,
                    ))
            }),
    {
        let ghost s0 = old(ctx).settings;
        let ghost members = group_members_spec(s0, g);
        let ghost old_osc = old(ctx).osc_out@;
        proof {
            lemma_button_index_inverse();
            lemma_targets_hit_iff(s0, g, button);
        }
        let gi = g as usize;
        let n_members = self.exclusive_groups[gi].len();
        let mut k: usize = 0;
        while k < n_members
            invariant
                k <= n_members,
                ctx.wf(),
                s0.wf(),
                s0 == old(ctx).settings,
                old_osc == old(ctx).osc_out@,
                gi == g as usize,
                self.exclusive_groups@ == old(self).exclusive_groups@,
                self.exclusive_groups@.len() == GROUP_IDS,
                self.exclusive_groups@[g as int]@ == members,
                members == group_members_spec(s0, g),
                n_members == members.len(),
                self.toggle_known@.len() == BUTTON_COUNT,
                self.toggle_on@.len() == BUTTON_COUNT,
                self.last_encoder_val == old(self).last_encoder_val,
                self.encoder_is_pressed == old(self).encoder_is_pressed,
                ctx.settings == old(ctx).settings,
                ctx.now_ms == old(ctx).now_ms,
                ctx.midi_out@ == old(ctx).midi_out@,
                ctx.lights.pads@ == old(ctx).lights.pads@,
                ctx.lights.slider@ == old(ctx).lights.slider@,
                ctx.lights.buttons@.len() == BUTTON_COUNT,
                old(ctx).lights.buttons@.len() == BUTTON_COUNT,
                ({
                    let ct = cascade_targets(members.take(k as int), button);
                    &&& ctx.osc_out@.len() == old_osc.len() + ct.len()
                    &&& ctx.osc_out@.subrange(0, old_osc.len() as int) == old_osc
                    &&& (forall|j: int|
                        0 <= j < ct.len() ==> is_osc(
                            #[trigger] ctx.osc_out@[old_osc.len() + j],
                            osc_button_addr(ct[j]),
                            0,
                        ))
                    &&& (forall|i: int|
                        0 <= i < BUTTON_COUNT ==> #[trigger] self.toggle_on@[i] == if targets_hit(
                            ct,
                            i,
                        ) {
                            false
                        } else {
                            old(self).toggle_on@[i]
                        })
                    &&& (forall|i: int|
                        0 <= i < BUTTON_COUNT ==> #[trigger] self.toggle_known@[i] == if targets_hit(
                            ct,
                            i,
                        ) {
                            true
                        } else {
                            old(self).toggle_known@[i]
                        })
                    &&& (forall|i: int|
                        0 <= i < BUTTON_COUNT ==> #[trigger] ctx.lights.buttons@[i] == if targets_hit(
                            ct,
                            i,
                        ) {
                            Brightness::Off
                        } else {
                            old(ctx).lights.buttons@[i]
                        })
                }),
            decreases n_members - k,
        {
            let o = self.exclusive_groups[gi][k];
            let ghost ct_k = cascade_targets(members.take(k as int), button);
            let ghost ct_next = cascade_targets(members.take(k as int + 1), button);
            proof {
                assert(members.take(k as int + 1).drop_last() =~= members.take(k as int));
                assert(members.take(k as int + 1).last() == members[k as int]);
            }
            if !buttons_eq(o, button) {
                let oi = button_index(o);
                self.toggle_on.set(oi, false);
                self.toggle_known.set(oi, true);
                ctx.lights.set_button(o, Brightness::Off);
                let ghost before = ctx.osc_out@;
                ctx.send_osc_button(o, 0);
                proof {
                    assert(ct_next == ct_k.push(o));
                    assert forall|j: int| 0 <= j < before.len() implies #[trigger] ctx.osc_out@[j]
                        == before[j] by {
                        assert(ctx.osc_out@.subrange(0, before.len() as int)[j] == before[j]);
                    }
                    assert(ctx.osc_out@.subrange(0, old_osc.len() as int) =~= old_osc);
                    assert forall|i: int| 0 <= i < BUTTON_COUNT implies (targets_hit(ct_next, i)
                        <==> (targets_hit(ct_k, i) || i == oi)) by {
                        if targets_hit(ct_next, i) {
                            let j = choose|j: int|
                                0 <= j < ct_next.len() && button_index_spec(#[trigger] ct_next[j])
                                    == i;
                            if j < ct_k.len() {
                                assert(ct_k[j] == ct_next[j]);
                                assert(targets_hit(ct_k, i));
                            } else {
                                assert(ct_next[j] == o);
                            }
                        }
                        if targets_hit(ct_k, i) {
                            let j = choose|j: int|
                                0 <= j < ct_k.len() && button_index_spec(#[trigger] ct_k[j]) == i;
                            assert(ct_next[j] == ct_k[j]);
                            assert(targets_hit(ct_next, i));
                        }
                        if i == oi {
                            assert(ct_next[ct_next.len() - 1] == o);
                            assert(targets_hit(ct_next, i));
                        }
                    }
                }
            } else {
                proof {
                    assert(ct_next == ct_k);
                }
            }
            k = k + 1;
        }
        proof {
            assert(members.take(n_members as int) =~= members);
        }
    }
}

/// Whether two buttons are the same.
fn buttons_eq(a: Buttons, b: Buttons) -> (r: bool)
    ensures
        r == (a == b),
{
    button_index(a) == button_index(b)
}


impl CustomMidiMode {
    /// Handle one button edge from a report: the encoder-press button is
    /// purely edge-triggered over OSC; any other button acts per its
    /// configured mode, `Trigger` re-firing on a light/edge mismatch and
    /// `Toggle` flipping its stored state with exclusive-group cascading.
    /// Reports whether any light changed.
    #[verifier::rlimit(60)]
    pub fn handle_button(
        &mut self,
        button: Buttons,
        is_pressed: bool,
        ctx: &mut DriverContext,
    ) -> (changed: bool)
        requires
            old(ctx).wf(),
            old(self).wf(old(ctx).settings),
        ensures
            final(ctx).wf(),
            final(self).wf(final(ctx).settings),
            final(ctx).settings == old(ctx).settings,
            final(ctx).now_ms == old(ctx).now_ms,
            final(ctx).lights.pads@ == old(ctx).lights.pads@,
            final(ctx).lights.slider@ == old(ctx).lights.slider@,
            final(self).exclusive_groups@ == old(self).exclusive_groups@,
            final(self).last_encoder_val == old(self).last_encoder_val,
            old(self).groups_exclusive(old(ctx).settings) ==> final(self).groups_exclusive(
                old(ctx).settings,
            ),
            button == Buttons::EncoderPress ==> encoder_press_outcome(
                *old(self),
                *old(ctx),
                *final(self),
                *final(ctx),
                is_pressed,
                changed,
            ),
            button != Buttons::EncoderPress && old(ctx).settings.mode_of(button)
                == ButtonMode::Trigger ==> trigger_outcome(
                *old(self),
                *old(ctx),
                *final(self),
                *final(ctx),
                button,
                is_pressed,
                changed,
            ),
            button != Buttons::EncoderPress && old(ctx).settings.mode_of(button)
                == ButtonMode::Toggle ==> {
                let bi = button_index_spec(button);
                if is_pressed && old(ctx).lights.buttons@[bi] != Brightness::Bright {
                    toggle_flip_outcome(
                        *old(self),
                        *old(ctx),
                        *final(self),
                        *final(ctx),
                        button,
                        changed,
                    )
                } else if !is_pressed && old(ctx).lights.buttons@[bi] != Brightness::Off {
                    toggle_release_outcome(
                        *old(self),
                        *old(ctx),
                        *final(self),
                        *final(ctx),
                        button,
                        changed,
                    )
                } else {
                    idle_outcome(*old(self), *old(ctx), *final(self), *final(ctx), changed)
                }
            },
    {
        if matches!(button, Buttons::EncoderPress) {
            if is_pressed != self.encoder_is_pressed {
                self.encoder_is_pressed = is_pressed;
                ctx.send_osc_fixed("/maschine/encoderPress", if is_pressed { 1 } else { 0 });
            }
            return false;
        }

        proof {
            lemma_button_index_inverse();
        }
        let bi = button_index(button);
        let cfg = ctx_config(&ctx.settings, bi);
        let mode = match cfg {
            Some(c) => c.mode,
            None => ButtonMode::Trigger,
        };
        let cur_brightness = ctx.lights.get_button(button);

        match mode {
            ButtonMode::Trigger => {
                let cur = !matches!(cur_brightness, Brightness::Off);
                if is_pressed != cur {
                    let v: i32 = if is_pressed { 1 } else { 0 };
                    ctx.send_osc_button(button, v);
                    if let Some(c) = cfg {
                        if let Some(n) = c.cc {
                            let cc_v: u8 = if v == 1 { 127 } else { 0 };
                            ctx.send_midi(
                                MidiEmission::ControlChange { controller: n, value: cc_v },
                            );
                        }
                    }
                    let target = if is_pressed { Brightness::Normal } else { Brightness::Off };
                    ctx.lights.set_button(button, target);
                    true
                } else {
                    false
                }
            },
            ButtonMode::Toggle => {
                if is_pressed && !matches!(cur_brightness, Brightness::Bright) {
                    let new_on = !self.toggle_on[bi];
                    let ghost s0 = old(ctx).settings;
                    let ghost mid_self = *self;
                    let ghost mid_ctx = *ctx;
                    let mut cascaded = false;
                    if new_on {
                        if let Some(c) = cfg {
                            if let Some(g) = c.group_id {
                                self.cascade_group(button, g, ctx);
                                cascaded = true;
                            }
                        }
                    }
                    proof {
                        if !cascaded {
                            assert(*self == mid_self);
                            assert(*ctx == mid_ctx);
                        }
                    }
                    self.toggle_on.set(bi, new_on);
                    self.toggle_known.set(bi, true);
                    let v: i32 = if new_on { 1 } else { 0 };
                    let ghost before = ctx.osc_out@;
                    ctx.send_osc_button(button, v);
                    proof {
                        assert forall|j: int| 0 <= j < before.len() implies #[trigger] ctx.osc_out@[j]
                            == before[j] by {
                            assert(ctx.osc_out@.subrange(0, before.len() as int)[j] == before[j]);
                        }
                        assert(ctx.osc_out@.subrange(0, old(ctx).osc_out@.len() as int)
                            =~= old(ctx).osc_out@);
                    }
                    if let Some(c) = cfg {
                        if let Some(n) = c.cc {
                            let cc_v: u8 = if v == 1 { 127 } else { 0 };
                            ctx.send_midi(
                                MidiEmission::ControlChange { controller: n, value: cc_v },
                            );
                        }
                    }
                    ctx.lights.set_button(button, Brightness::Bright);
                    proof {
                        if old(self).groups_exclusive(s0) {
                            assert forall|g2: u8, i: int, j: int|
                                0 <= i < BUTTON_COUNT && 0 <= j < BUTTON_COUNT && i != j
                                    && #[trigger] index_in_group(s0, i, g2)
                                    && #[trigger] index_in_group(s0, j, g2) implies !(
                            self.toggle_on@[i] && self.toggle_on@[j]) by {
                                if self.toggle_on@[i] && self.toggle_on@[j] {
                                    assert(i == bi || j == bi);
                                }
                            }
                        }
                    }
                    true
                } else if !is_pressed && !matches!(cur_brightness, Brightness::Off) {
                    let target = if self.toggle_on[bi] {
                        Brightness::Bright
                    } else {
                        Brightness::Off
                    };
                    ctx.lights.set_button(button, target);
                    true
                } else {
                    false
                }
            },
        }
    }
}


/// Whether a pad record should light its pad: a touch kind with pressure.
pub open spec fn pad_active(kind: PadEventType, value: u16) -> bool {
    (kind == PadEventType::NoteOn || kind == PadEventType::PressOn || kind
        == PadEventType::Aftertouch) && value > 0
}

/// The note velocity a pad value maps to: the value scaled down to seven
/// bits, clamped to a minimum of 1 whenever the value is nonzero.
pub open spec fn pad_velocity(value: u16) -> u8 {
    if value > 0 && value / 32 == 0 {
        1u8
    } else {
        (value / 32) as u8
    }
}

/// The note message a pad record plays, if its kind plays one.
pub open spec fn pad_midi(kind: PadEventType, note: u8, value: u16) -> Option<MidiEmission> {
    if kind == PadEventType::NoteOn || kind == PadEventType::PressOn {
        Some(MidiEmission::NoteOn { key: note, velocity: pad_velocity(value) })
    } else if kind == PadEventType::NoteOff || kind == PadEventType::PressOff {
        Some(MidiEmission::NoteOff { key: note, velocity: pad_velocity(value) })
    } else {
        None
    }
}

impl CustomMidiMode {
    /// Translate one pad record: map the pad to its configured note, send
    /// note on/off over MIDI, and light the pad blue while it is active,
    /// writing the light only when it differs. Reports whether any light
    /// changed.
    pub fn handle_pad(
        &self,
        index: usize,
        event_type: PadEventType,
        value: u16,
        ctx: &mut DriverContext,
    ) -> (changed: bool)
        requires
            old(ctx).wf(),
            index < PAD_COUNT,
            value < 4096,
        ensures
            final(ctx).wf(),
            final(ctx).settings == old(ctx).settings,
            final(ctx).now_ms == old(ctx).now_ms,
            final(ctx).osc_out@ == old(ctx).osc_out@,
            final(ctx).lights.buttons@ == old(ctx).lights.buttons@,
            final(ctx).lights.slider@ == old(ctx).lights.slider@,
            ({
                let prev = old(ctx).lights.pads@[index as int].brightness;
                let target = if pad_active(event_type, value) {
                    Brightness::Normal
                } else {
                    Brightness::Off
                };
                &&& changed == (prev != target)
                &&& final(ctx).lights.pads@ == if prev != target {
                    old(ctx).lights.pads@.update(
                        index as int,
                        PadLight { color: PadColors::Blue, brightness: target },
                    )
                } else {
                    old(ctx).lights.pads@
                }
            }),
            ({
                let note = old(ctx).settings.notemaps@[index as int];
                match pad_midi(event_type, note, value) {
                    Some(e) => final(ctx).midi_out@ == old(ctx).midi_out@.push(e),
                    None => final(ctx).midi_out@ == old(ctx).midi_out@,
                }
            }),
    {
        let mut changed = false;
        let (_, prev_b) = ctx.lights.get_pad(index);
        let active = match event_type {
            PadEventType::NoteOn | PadEventType::PressOn | PadEventType::Aftertouch => value > 0,
            _ => false,
        };
        let target = if active {
            Brightness::Normal
        } else {
            Brightness::Off
        };
        if !brightness_eq(prev_b, target) {
            ctx.lights.set_pad(index, PadColors::Blue, target);
            changed = true;
        }

        let note = ctx.settings.note_of_pad(index);
        let mut velocity: u8 = (value >> 5) as u8;
        proof {
            assert(value >> 5 == value / 32) by (bit_vector);
        }
        if value > 0 && velocity == 0 {
            velocity = 1;
        }

        match event_type {
            PadEventType::NoteOn | PadEventType::PressOn => {
                ctx.send_midi(MidiEmission::NoteOn { key: note, velocity });
            },
            PadEventType::NoteOff | PadEventType::PressOff => {
                ctx.send_midi(MidiEmission::NoteOff { key: note, velocity });
            },
            PadEventType::Aftertouch => {},
        }

        changed
    }
}

/// Whether two brightness levels are the same.
fn brightness_eq(a: Brightness, b: Brightness) -> (r: bool)
    ensures
        r == (a == b),
{
    match (a, b) {
        (Brightness::Off, Brightness::Off) => true,
        (Brightness::Dim, Brightness::Dim) => true,
        (Brightness::Normal, Brightness::Normal) => true,
        (Brightness::Bright, Brightness::Bright) => true,
        _ => false,
    }
}

} // verus!
