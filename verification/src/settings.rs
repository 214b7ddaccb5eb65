//! The configuration the modes consume, keyed by button: each configured
//! button's behavior (trigger or toggle, an optional exclusive-group id and
//! an optional MIDI controller number), and the fixed pad-to-note table.
//!
//! Loading and validating the settings file is the caller's business; the
//! core only reads this table.

use vstd::prelude::*;
use vstd::pervasive::VecAdditionalExecFns;
use crate::controls::{
    button_index, button_index_spec, button_label, button_label_spec, str_eq, Buttons,
    BUTTON_COUNT,
};
use crate::lights::PAD_COUNT;

verus! {

/// How a configured button behaves: re-fire on every edge, or flip a stored
/// state on press. An unconfigured button behaves as `Trigger`.
#[derive(Clone, Copy, Debug, PartialEq, Eq, Structural)]
pub enum ButtonMode {
    Trigger,
    Toggle,
}

/// One button's configuration.
#[derive(Clone, Copy, Debug, PartialEq, Eq, Structural)]
pub struct ButtonConfig {
    pub mode: ButtonMode,
    pub group_id: Option<u8>,
    pub cc: Option<u8>,
}

/// The read-only configuration surface: per-button behavior and the
/// pad-index-to-MIDI-note table.
pub struct Settings {
    pub configs: Vec<Option<ButtonConfig>>,
    pub notemaps: Vec<u8>,
}

impl Settings {
    /// The fixed shape of the configuration, with every MIDI number in range.
    pub open spec fn wf(&self) -> bool {
        &&& self.configs@.len() == BUTTON_COUNT
        &&& self.notemaps@.len() == PAD_COUNT
        &&& forall|i: int| 0 <= i < PAD_COUNT ==> self.notemaps@[i] < 128
        &&& forall|i: int|
            0 <= i < BUTTON_COUNT && self.configs@[i] is Some
                ==> (self.configs@[i]->Some_0.cc matches Some(c) ==> c < 128)
    }

    /// The configuration of a button, if it has one.
    pub open spec fn config_of(&self, b: Buttons) -> Option<ButtonConfig> {
        self.configs@[button_index_spec(b)]
    }

    /// The behavior of a button: its configured mode, or `Trigger` when
    /// unconfigured.
    pub open spec fn mode_of(&self, b: Buttons) -> ButtonMode {
        match self.config_of(b) {
            Some(c) => c.mode,
            None => ButtonMode::Trigger,
        }
    }

    /// The exclusive-group id of a button configured as a toggle, if any.
    pub open spec fn group_of(&self, b: Buttons) -> Option<u8> {
        match self.config_of(b) {
            Some(c) => c.group_id,
            None => None,
        }
    }

    /// Whether a button is a toggle in exclusive group `g`.
    pub open spec fn in_group(&self, b: Buttons, g: u8) -> bool {
        match self.config_of(b) {
            Some(c) => c.mode == ButtonMode::Toggle && c.group_id == Some(g),
            None => false,
        }
    }

    /// A configuration with no button configured and the given note table.
    pub fn new(notemaps: Vec<u8>) -> (r: Settings)
        requires
            notemaps@.len() == PAD_COUNT,
            forall|i: int| 0 <= i < PAD_COUNT ==> notemaps@[i] < 128,
        ensures
            r.wf(),
            r.notemaps@ == notemaps@,
            forall|i: int| 0 <= i < BUTTON_COUNT ==> r.configs@[i] is None,
    {
        Settings { configs: vec![None; BUTTON_COUNT], notemaps }
    }

    /// Configure the button whose name is exactly `name`; a name that is no
    /// button's leaves the configuration unchanged.
    pub fn set_button_config(&mut self, name: &str, config: ButtonConfig)
        requires
            old(self).wf(),
            config.cc matches Some(c) ==> c < 128,
        ensures
            final(self).wf(),
            final(self).notemaps@ == old(self).notemaps@,
            match exact_button_of_name(name@) {
                Some(b) => final(self).configs@ == old(self).configs@.update(
                    button_index_spec(b),
                    Some(config),
                ),
                None => final(self).configs@ == old(self).configs@,
            },
    {
        if let Some(b) = exact_button_lookup(name) {
            let i = button_index(b);
            self.configs.set(i, Some(config));
        }
    }

    /// The note a pad plays.
    pub fn note_of_pad(&self, pad: usize) -> (r: u8)
        requires
            self.wf(),
            pad < PAD_COUNT,
        ensures
            r == self.notemaps@[pad as int],
            r < 128,
    {
        self.notemaps[pad]
    }
}

/// The first button, in bit order from position `i` on, whose name is
/// exactly `name`.
pub open spec fn exact_button_of_name_from(name: Seq<char>, i: int) -> Option<Buttons>
    decreases 41 - i,
{
    if i < 0 || i >= 41 {
        None
    } else {
        match crate::controls::button_of_index_spec(i) {
            Some(b) => {
                if name == button_label_spec(b) {
                    Some(b)
                } else {
                    exact_button_of_name_from(name, i + 1)
                }
            },
            None => None,
        }
    }
}

/// The button whose name is exactly `name`, if any. Configuration entries
/// name buttons in this exact spelling; group members are resolved more
/// loosely, ignoring ASCII case.
pub open spec fn exact_button_of_name(name: Seq<char>) -> Option<Buttons> {
    exact_button_of_name_from(name, 0)
}

/// Looks a button up by its exact name.
pub fn exact_button_lookup(name: &str) -> (r: Option<Buttons>)
    ensures
        r == exact_button_of_name(name@),
{
    let mut i: usize = 0;
    while i < 41
        invariant
            i <= 41,
            exact_button_of_name(name@) == exact_button_of_name_from(name@, i as int),
        decreases 41 - i,
    {
        if let Some(b) = crate::controls::button_of_index(i) {
            if str_eq(name, button_label(b)) {
                return Some(b);
            }
        }
        i = i + 1;
    }
    None
}

} // verus!
