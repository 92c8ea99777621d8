//! Configuration data: an ordered list of keybinding rules plus display
//! options.  A configuration value is produced by an external collaborator
//! (file parsing, command-line handling) and is immutable once handed to
//! the controller.

use vstd::prelude::*;

verus! {

/// One controller action, the closed set of things a keybinding or a
/// button press can ask for.
#[derive(Clone, Copy, Debug)]
pub enum Action {
    /// Cycle focus one tab up (towards higher indices, wrapping).
    FocusUp,
    /// Cycle focus one tab down (towards lower indices, wrapping).
    FocusDown,
    /// Swap the focused tab with its upper neighbor, keeping focus on it.
    ShiftUp,
    /// Swap the focused tab with its lower neighbor, keeping focus on it.
    ShiftDown,
    /// Focus the tab at a fixed index; silently ignored when out of range.
    Focus(usize),
    /// Reparent the focused child back to the screen root.
    DetachFocused,
    /// Reparent every child back to the screen root.
    DetachAll,
    /// Placeholder: reserved for an auto-attach mode, currently a no-op.
    ToggleAutoAttach,
}

/// A modifier flag of a keybinding rule.
#[derive(Clone, Copy, Debug)]
pub enum Mod {
    SHIFT,
    LOCK,
    CONTROL,
    ALT,
    ANY,
}

/// The bit a single modifier contributes to a modifier mask, following
/// the core windowing protocol's encoding.
pub open spec fn mod_bit_spec(m: Mod) -> u16 {
    match m {
        Mod::SHIFT => 0x1,
        Mod::LOCK => 0x2,
        Mod::CONTROL => 0x4,
        Mod::ALT => 0x8,
        Mod::ANY => 0x8000,
    }
}

/// The mask of a list of modifiers: the bitwise or of their bits, folded
/// left to right; 0 for the empty list.
pub open spec fn mods_fold(mods: Seq<Mod>) -> u16
    decreases mods.len(),
{
    if mods.len() == 0 {
        0u16
    } else {
        mods_fold(mods.drop_last()) | mod_bit_spec(mods.last())
    }
}

/// The bit a single modifier contributes to a modifier mask.
pub fn mod_bit(m: &Mod) -> (r: u16)
    ensures
        r == mod_bit_spec(*m),
{
    match m {
        Mod::SHIFT => 0x1,
        Mod::LOCK => 0x2,
        Mod::CONTROL => 0x4,
        Mod::ALT => 0x8,
        Mod::ANY => 0x8000,
    }
}

/// One keybinding rule: a set of modifier flags, a physical key code, and
/// the action the rule triggers.  Rules may overlap; the first match in
/// list order wins.
#[derive(Clone, Debug)]
pub struct Keybind {
    pub modifiers: Vec<Mod>,
    pub key: u8,
    pub action: Action,
}

impl Keybind {
    /// The modifier mask under which the key is grabbed: the or of the
    /// modifier bits, or the any-modifier mask when no modifier is given.
    pub fn mod_mask(&self) -> (r: u16)
        ensures
            r == (if self.modifiers@.len() == 0 {
                0x8000u16
            } else {
                mods_fold(self.modifiers@)
            }),
    {
        if self.modifiers.len() == 0 {
            return 0x8000;
        }
        let mut acc: u16 = 0;
        let mut i: usize = 0;
        while i < self.modifiers.len()
            invariant
                i <= self.modifiers@.len(),
                acc == mods_fold(self.modifiers@.take(i as int)),
            decreases self.modifiers@.len() - i,
        {
            acc = acc | mod_bit(&self.modifiers[i]);
            proof {
                assert(self.modifiers@.take(i + 1).drop_last() =~= self.modifiers@.take(i as int));
                assert(self.modifiers@.take(i + 1).last() == self.modifiers@[i as int]);
            }
            i = i + 1;
        }
        proof {
            assert(self.modifiers@.take(self.modifiers@.len() as int) =~= self.modifiers@);
        }
        acc
    }

    /// The modifier mask an incoming key event is matched against: the or
    /// of the modifier bits, or 0 when no modifier is given.
    pub fn key_but_mask(&self) -> (r: u16)
        ensures
            r == mods_fold(self.modifiers@),
    {
        let mut acc: u16 = 0;
        let mut i: usize = 0;
        while i < self.modifiers.len()
            invariant
                i <= self.modifiers@.len(),
                acc == mods_fold(self.modifiers@.take(i as int)),
            decreases self.modifiers@.len() - i,
        {
            acc = acc | mod_bit(&self.modifiers[i]);
            proof {
                assert(self.modifiers@.take(i + 1).drop_last() =~= self.modifiers@.take(i as int));
                assert(self.modifiers@.take(i + 1).last() == self.modifiers@[i as int]);
            }
            i = i + 1;
        }
        proof {
            assert(self.modifiers@.take(self.modifiers@.len() as int) =~= self.modifiers@);
        }
        acc
    }
}

/// The resolved configuration the controller consumes: the keybinding
/// list and the display options.
#[derive(Clone, Debug)]
pub struct Config {
    pub keybinds: Vec<Keybind>,
    /// Reserved for an auto-attach mode; read by no current action.
    pub auto_attach: bool,
    /// Whether tabs get colored identity bars.
    pub colors: bool,
    /// Optional font override for the tab bar.
    pub font: Option<String>,
}

/// What one keybind of the default configuration holds: both modifiers of
/// the pair (or the single one), the key code, and the action.
pub open spec fn keybind_is(kb: Keybind, mods: Seq<Mod>, key: u8, action: Action) -> bool {
    &&& kb.modifiers@ =~= mods
    &&& kb.key == key
    &&& kb.action == action
}

/// The shape of the default configuration: shift+control drives focus
/// cycling, tab reordering and detaching, and control plus a digit key
/// jumps straight to one of the first nine tabs.
pub open spec fn default_config_spec(c: Config) -> bool {
    &&& c.keybinds@.len() == 15
    &&& keybind_is(c.keybinds@[0], seq![Mod::SHIFT, Mod::CONTROL], 43, Action::FocusDown)
    &&& keybind_is(c.keybinds@[1], seq![Mod::SHIFT, Mod::CONTROL], 44, Action::ShiftDown)
    &&& keybind_is(c.keybinds@[2], seq![Mod::SHIFT, Mod::CONTROL], 45, Action::ShiftUp)
    &&& keybind_is(c.keybinds@[3], seq![Mod::SHIFT, Mod::CONTROL], 46, Action::FocusUp)
    &&& keybind_is(c.keybinds@[4], seq![Mod::SHIFT, Mod::CONTROL], 22, Action::DetachFocused)
    &&& keybind_is(c.keybinds@[5], seq![Mod::SHIFT, Mod::CONTROL], 9, Action::DetachAll)
    &&& forall|i: int|
        6 <= i < 15 ==> keybind_is(
            #[trigger] c.keybinds@[i],
            seq![Mod::CONTROL],
            (i + 4) as u8,
            Action::Focus((i - 6) as usize),
        )
    &&& c.auto_attach == false
    &&& c.colors == true
    &&& c.font is None
}

/// Build the immutable default configuration handed to the controller
/// when no configuration file overrides it.
pub fn default_config() -> (c: Config)
    ensures
        default_config_spec(c),
{
    let mut keybinds: Vec<Keybind> = Vec::new();
    keybinds.push(
        Keybind { modifiers: vec![Mod::SHIFT, Mod::CONTROL], key: 43, action: Action::FocusDown },
    );
    keybinds.push(
        Keybind { modifiers: vec![Mod::SHIFT, Mod::CONTROL], key: 44, action: Action::ShiftDown },
    );
    keybinds.push(
        Keybind { modifiers: vec![Mod::SHIFT, Mod::CONTROL], key: 45, action: Action::ShiftUp },
    );
    keybinds.push(
        Keybind { modifiers: vec![Mod::SHIFT, Mod::CONTROL], key: 46, action: Action::FocusUp },
    );
    keybinds.push(
        Keybind {
            modifiers: vec![Mod::SHIFT, Mod::CONTROL],
            key: 22,
            action: Action::DetachFocused,
        },
    );
    keybinds.push(
        Keybind { modifiers: vec![Mod::SHIFT, Mod::CONTROL], key: 9, action: Action::DetachAll },
    );
    let mut i: usize = 0;
    while i < 9
        invariant
            i <= 9,
            keybinds@.len() == 6 + i,
            keybind_is(keybinds@[0], seq![Mod::SHIFT, Mod::CONTROL], 43, Action::FocusDown),
            keybind_is(keybinds@[1], seq![Mod::SHIFT, Mod::CONTROL], 44, Action::ShiftDown),
            keybind_is(keybinds@[2], seq![Mod::SHIFT, Mod::CONTROL], 45, Action::ShiftUp),
            keybind_is(keybinds@[3], seq![Mod::SHIFT, Mod::CONTROL], 46, Action::FocusUp),
            keybind_is(keybinds@[4], seq![Mod::SHIFT, Mod::CONTROL], 22, Action::DetachFocused),
            keybind_is(keybinds@[5], seq![Mod::SHIFT, Mod::CONTROL], 9, Action::DetachAll),
            forall|j: int|
                6 <= j < 6 + i ==> keybind_is(
                    #[trigger] keybinds@[j],
                    seq![Mod::CONTROL],
                    (j + 4) as u8,
                    Action::Focus((j - 6) as usize),
                ),
        decreases 9 - i,
    {
        keybinds.push(
            Keybind { modifiers: vec![Mod::CONTROL], key: (i + 10) as u8, action: Action::Focus(i) },
        );
        i = i + 1;
    }
    Config { keybinds, auto_attach: false, colors: true, font: None }
}

} // verus!
