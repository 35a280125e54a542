use vstd::prelude::*;
use crate::text::{decimal, push_decimal};

verus! {

/// Whether the slot screen saves the running game or loads a saved one.
#[derive(Clone, Copy, Debug, PartialEq, Eq, Structural)]
pub enum SaveLoadMode {
    Save,
    Load,
}

impl SaveLoadMode {
    /// Heading of the slot screen in this mode.
    pub fn title(&self) -> (title: &'static str)
        ensures
            title@ == (match *self {
                SaveLoadMode::Save => "SAVE GAME"@,
                SaveLoadMode::Load => "LOAD GAME"@,
            }),
    {
        match self {
            SaveLoadMode::Save => "SAVE GAME",
            SaveLoadMode::Load => "LOAD GAME",
        }
    }
}

/// A save or load the player asked for, to be carried out on the next frame.
pub struct PendingSaveLoadAction(pub Option<(SaveLoadMode, usize)>);

impl Default for PendingSaveLoadAction {
    fn default() -> (pending: PendingSaveLoadAction)
        ensures
            pending.0 is None,
    {
        PendingSaveLoadAction(None)
    }
}

/// Taking the queued action of `mode`: its slot, and what stays queued.
pub open spec fn spec_take(
    queued: Option<(SaveLoadMode, usize)>,
    mode: SaveLoadMode,
) -> (Option<usize>, Option<(SaveLoadMode, usize)>) {
    match queued {
        Some((m, s)) => if m == mode { (Some(s), None) } else { (None, queued) },
        None => (None, None),
    }
}

impl PendingSaveLoadAction {
    /// Takes the pending action if it is a save, returning its slot; a pending
    /// load (or nothing) is left untouched.
    pub fn take_save(&mut self) -> (slot: Option<usize>)
        ensures
            (slot, final(self).0) == spec_take(old(self).0, SaveLoadMode::Save),
    {
        match self.0 {
            Some((SaveLoadMode::Save, slot)) => {
                self.0 = None;
                Some(slot)
            },
            _ => None,
        }
    }

    /// Takes the pending action if it is a load, returning its slot; a pending
    /// save (or nothing) is left untouched.
    pub fn take_load(&mut self) -> (slot: Option<usize>)
        ensures
            (slot, final(self).0) == spec_take(old(self).0, SaveLoadMode::Load),
    {
        match self.0 {
            Some((SaveLoadMode::Load, slot)) => {
                self.0 = None;
                Some(slot)
            },
            _ => None,
        }
    }
}

/// Whether the slot screen is shown, and in which mode.
pub struct SaveLoadUIState {
    pub active: bool,
    pub mode: SaveLoadMode,
}

impl Default for SaveLoadUIState {
    fn default() -> (state: SaveLoadUIState)
        ensures
            !state.active,
            state.mode == SaveLoadMode::Save,
    {
        SaveLoadUIState { active: false, mode: SaveLoadMode::Save }
    }
}

impl SaveLoadUIState {
    /// Shows the slot screen in `mode`.
    pub fn open(&mut self, mode: SaveLoadMode)
        ensures
            final(self).active,
            final(self).mode == mode,
    {
        self.active = true;
        self.mode = mode;
    }

    /// Hides the slot screen (back button, escape, leaving the pause menu).
    pub fn close(&mut self)
        ensures
            !final(self).active,
            final(self).mode == old(self).mode,
    {
        self.active = false;
    }

    /// A slot was clicked: queue the screen's action on that slot and hide
    /// the screen.
    pub fn press_slot(&mut self, pending: &mut PendingSaveLoadAction, slot: usize)
        ensures
            final(pending).0 == Some((old(self).mode, slot)),
            !final(self).active,
            final(self).mode == old(self).mode,
    {
        pending.0 = Some((self.mode, slot));
        self.active = false;
    }
}

/// Text of a slot's button: its number counted from one, then the time of
/// the save it holds or "Empty".
pub open spec fn spec_slot_label(slot: nat, timestamp: Option<Seq<char>>) -> Seq<char> {
    seq!['S', 'l', 'o', 't', ' '] + decimal(slot + 1) + seq![' ', '-', ' '] + match timestamp {
        Some(t) => t,
        None => seq!['E', 'm', 'p', 't', 'y'],
    }
}

/// Text of a slot's button.
pub fn slot_label(slot: usize, timestamp: Option<&str>) -> (label: String)
    requires
        slot < usize::MAX,
    ensures
        label@ == spec_slot_label(slot as nat, match timestamp {
            Some(t) => Some(t@),
            None => None,
        }),
{
    proof {
        reveal_strlit("Slot ");
        reveal_strlit(" - ");
        reveal_strlit("Empty");
    }
    let mut label = String::from_str("Slot ");
    push_decimal(&mut label, (slot + 1) as u64);
    label.append(" - ");
    match timestamp {
        Some(t) => label.append(t),
        None => label.append("Empty"),
    }
    let ghost ts = match timestamp {
        Some(t) => Some(t@),
        None => None,
    };
    assert(label@ =~= spec_slot_label(slot as nat, ts));
    label
}

/// Name recorded in a save for its slot: "Slot" and the slot's number counted
/// from one.
pub fn save_slot_name(slot: usize) -> (name: String)
    requires
        slot < usize::MAX,
    ensures
        name@ == seq!['S', 'l', 'o', 't', ' '] + decimal((slot + 1) as nat),
{
    proof { reveal_strlit("Slot "); }
    let mut name = String::from_str("Slot ");
    push_decimal(&mut name, (slot + 1) as u64);
    name
}

/// A slot cannot be picked when loading from a slot that holds no save.
pub fn slot_disabled(mode: SaveLoadMode, has_save: bool) -> (disabled: bool)
    ensures
        disabled == (mode == SaveLoadMode::Load && !has_save),
{
    mode == SaveLoadMode::Load && !has_save
}

/// A clicked slot is acted upon exactly once, and only by the action of the
/// screen's mode: right after the click the take of that mode returns the
/// slot and empties the queue, the other take leaves it queued, and once
/// the queue is empty neither take returns anything.
pub proof fn lemma_press_then_take_once(mode: SaveLoadMode, other: SaveLoadMode, slot: usize)
    requires
        other != mode,
    ensures
        spec_take(Some((mode, slot)), mode) == (Some(slot), None::<(SaveLoadMode, usize)>),
        spec_take(Some((mode, slot)), other) == (None::<usize>, Some((mode, slot))),
        spec_take(None, mode) == (None::<usize>, None::<(SaveLoadMode, usize)>),
        spec_take(None, other) == (None::<usize>, None::<(SaveLoadMode, usize)>),
{
}

} // verus!
