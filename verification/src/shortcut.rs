//! The global shortcuts: which key combinations are registered at startup, and
//! which coordinator triggers a key event fires.

use vstd::prelude::*;
use crate::window::Trigger;

verus! {

/// The modifier keys held with a key.
#[derive(Clone, Copy, Debug, PartialEq, Eq, Structural)]
pub struct Modifiers {
    pub alt: bool,
    pub control: bool,
    pub shift: bool,
    pub meta: bool,
}

/// The keys the controller distinguishes.
#[derive(Clone, Copy, Debug, PartialEq, Eq, Structural)]
pub enum Key {
    S,
    F,
    M,
    /// Any key that no binding uses.
    Other,
}

/// A key with its modifiers.
#[derive(Clone, Copy, Debug, PartialEq, Eq, Structural)]
pub struct KeyCombo {
    pub modifiers: Modifiers,
    pub key: Key,
}

/// Whether a key went down or came up.
#[derive(Clone, Copy, Debug, PartialEq, Eq, Structural)]
pub enum KeyState {
    Pressed,
    Released,
}

/// The shortcuts registered once at startup.
#[derive(Clone, Copy, Debug, PartialEq, Eq, Structural)]
pub enum Binding {
    ToggleQuickSearch,
    ForceFullMode,
    ToggleHideMode,
}

/// `Alt` alone.
pub open spec fn alt_only() -> Modifiers {
    Modifiers { alt: true, control: false, shift: false, meta: false }
}

impl Binding {
    /// The combination the binding listens for.
    pub open spec fn spec_combo(self) -> KeyCombo {
        match self {
            Binding::ToggleQuickSearch => KeyCombo { modifiers: alt_only(), key: Key::S },
            Binding::ForceFullMode => KeyCombo { modifiers: alt_only(), key: Key::F },
            Binding::ToggleHideMode => KeyCombo { modifiers: alt_only(), key: Key::M },
        }
    }

    /// The trigger the binding delivers to the coordinator.
    pub open spec fn spec_trigger(self) -> Trigger {
        match self {
            Binding::ToggleQuickSearch => Trigger::QuickSearch,
            Binding::ForceFullMode => Trigger::ForceFullMode,
            Binding::ToggleHideMode => Trigger::HideMode,
        }
    }

    /// The combination as the host's registration call spells it.
    pub open spec fn spec_accelerator(self) -> Seq<char> {
        match self {
            Binding::ToggleQuickSearch => "Alt+S"@,
            Binding::ForceFullMode => "Alt+F"@,
            Binding::ToggleHideMode => "Alt+M"@,
        }
    }

    /// Whether a key event with this combination concerns the binding: the
    /// modifiers and the key are both exactly the binding's.
    pub open spec fn spec_matches(self, combo: KeyCombo) -> bool {
        combo == self.spec_combo()
    }

    /// The combination the binding listens for.
    pub fn combo(self) -> (c: KeyCombo)
        ensures
            c == self.spec_combo(),
    {
        let modifiers = Modifiers { alt: true, control: false, shift: false, meta: false };
        match self {
            Binding::ToggleQuickSearch => KeyCombo { modifiers, key: Key::S },
            Binding::ForceFullMode => KeyCombo { modifiers, key: Key::F },
            Binding::ToggleHideMode => KeyCombo { modifiers, key: Key::M },
        }
    }

    /// The trigger the binding delivers to the coordinator.
    pub fn trigger(self) -> (t: Trigger)
        ensures
            t == self.spec_trigger(),
    {
        match self {
            Binding::ToggleQuickSearch => Trigger::QuickSearch,
            Binding::ForceFullMode => Trigger::ForceFullMode,
            Binding::ToggleHideMode => Trigger::HideMode,
        }
    }

    /// The combination as the host's registration call spells it.
    pub fn accelerator(self) -> (s: &'static str)
        ensures
            s@ == self.spec_accelerator(),
    {
        match self {
            Binding::ToggleQuickSearch => "Alt+S",
            Binding::ForceFullMode => "Alt+F",
            Binding::ToggleHideMode => "Alt+M",
        }
    }

    /// Whether a key event with this combination concerns the binding.
    pub fn matches(self, combo: KeyCombo) -> (m: bool)
        ensures
            m == self.spec_matches(combo),
    {
        combo == self.combo()
    }
}

/// The registration table, in registration order.
pub open spec fn spec_bindings() -> Seq<Binding> {
    seq![Binding::ToggleQuickSearch, Binding::ForceFullMode, Binding::ToggleHideMode]
}

/// The trigger of `binding` if the event concerns it, nothing otherwise.
pub open spec fn fired_by(binding: Binding, combo: KeyCombo) -> Seq<Trigger> {
    if binding.spec_matches(combo) {
        seq![binding.spec_trigger()]
    } else {
        seq![]
    }
}

/// The triggers a key event fires. Only a press fires anything. Every binding
/// is checked on its own, in registration order, and every one that matches
/// fires.
pub open spec fn spec_fired(combo: KeyCombo, state: KeyState) -> Seq<Trigger> {
    if state == KeyState::Pressed {
        fired_by(Binding::ToggleQuickSearch, combo) + fired_by(Binding::ForceFullMode, combo)
            + fired_by(Binding::ToggleHideMode, combo)
    } else {
        seq![]
    }
}

/// The registration table, in registration order.
pub fn bindings() -> (table: Vec<Binding>)
    ensures
        table@ == spec_bindings(),
{
    let mut table: Vec<Binding> = Vec::new();
    table.push(Binding::ToggleQuickSearch);
    table.push(Binding::ForceFullMode);
    table.push(Binding::ToggleHideMode);
    assert(table@ =~= spec_bindings());
    table
}

/// The triggers that a key event delivers to the coordinator, in order.
pub fn fired(combo: KeyCombo, state: KeyState) -> (triggers: Vec<Trigger>)
    ensures
        triggers@ == spec_fired(combo, state),
{
    let mut triggers: Vec<Trigger> = Vec::new();
    if state == KeyState::Pressed {
        if Binding::ToggleQuickSearch.matches(combo) {
            triggers.push(Binding::ToggleQuickSearch.trigger());
        }
        if Binding::ForceFullMode.matches(combo) {
            triggers.push(Binding::ForceFullMode.trigger());
        }
        if Binding::ToggleHideMode.matches(combo) {
            triggers.push(Binding::ToggleHideMode.trigger());
        }
    }
    assert(triggers@ =~= spec_fired(combo, state));
    triggers
}

/// Pressing a registered combination fires exactly the trigger of its
/// binding; releasing a key, or pressing any other combination, fires nothing.
pub proof fn lemma_fired_is_the_binding(combo: KeyCombo, state: KeyState)
    ensures
        state == KeyState::Released ==> spec_fired(combo, state) == Seq::<Trigger>::empty(),
        forall|b: Binding|
            state == KeyState::Pressed && #[trigger] b.spec_matches(combo) ==> spec_fired(
                combo,
                state,
            ) == seq![b.spec_trigger()],
        (forall|b: Binding| !#[trigger] b.spec_matches(combo)) ==> spec_fired(combo, state)
            == Seq::<Trigger>::empty(),
        spec_fired(combo, state).len() <= 1,
{
    if state == KeyState::Pressed {
        assert forall|b: Binding| #[trigger] b.spec_matches(combo) implies spec_fired(combo, state)
            =~= seq![b.spec_trigger()] by {}
        if forall|b: Binding| !#[trigger] b.spec_matches(combo) {
            assert(!Binding::ToggleQuickSearch.spec_matches(combo));
            assert(!Binding::ForceFullMode.spec_matches(combo));
            assert(!Binding::ToggleHideMode.spec_matches(combo));
            assert(spec_fired(combo, state) =~= Seq::<Trigger>::empty());
        }
    }
}

} // verus!
