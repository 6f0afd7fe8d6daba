//! Local view state that mirrors an externally supplied controlling value.
//!
//! A widget keeps a local boolean. It is seeded from the controlling value when
//! the widget is mounted, overwritten when a later update brings a controlling
//! value that differs from the one seen before, and changed by user
//! interaction in between. The controlling value is never written back: the
//! caller learns of an interaction through a [`Notice`] and decides for itself.

use vstd::prelude::*;

verus! {

/// The local value for the next render.
///
/// The controlling value overwrites the local value only when it differs from
/// the controlling value seen at the previous update; otherwise the local
/// value, which user interaction may have changed in the meantime, is kept.
pub open spec fn reconciled(previous_external: bool, new_external: bool, local: bool) -> bool {
    if new_external != previous_external {
        new_external
    } else {
        local
    }
}

/// Computes [`reconciled`].
pub fn reconcile(previous_external: bool, new_external: bool, local: bool) -> (next: bool)
    ensures
        next == reconciled(previous_external, new_external, local),
{
    if new_external != previous_external {
        new_external
    } else {
        local
    }
}

/// What the host hands to the caller's callback after an interaction.
#[derive(Clone, Copy, Debug, PartialEq, Eq, Structural)]
pub enum Notice {
    /// A notification without a payload.
    Signal,
    /// The new value of the local state.
    Value(bool),
}

/// A local boolean together with the controlling value seen last.
#[derive(Clone, Copy, Debug, PartialEq, Eq, Structural)]
pub struct Controlled {
    /// What the widget shows.
    pub local: bool,
    /// The controlling value of the latest update.
    pub observed: bool,
}

/// The state of a widget that was just mounted.
pub open spec fn mounted(controlling: bool) -> Controlled {
    Controlled { local: controlling, observed: controlling }
}

impl Controlled {
    /// The state after an update that brings `controlling`.
    pub open spec fn updated(self, controlling: bool) -> Controlled {
        Controlled {
            local: reconciled(self.observed, controlling, self.local),
            observed: controlling,
        }
    }

    /// The state after an interaction that sets the local value.
    pub open spec fn replaced(self, value: bool) -> Controlled {
        Controlled { local: value, observed: self.observed }
    }

    /// The state after an interaction that flips the local value.
    pub open spec fn toggled(self) -> Controlled {
        self.replaced(!self.local)
    }

    /// The state after the updates of `controlling`, oldest first.
    pub open spec fn after_updates(self, controlling: Seq<bool>) -> Controlled
        decreases controlling.len(),
    {
        if controlling.len() == 0 {
            self
        } else {
            self.after_updates(controlling.drop_last()).updated(controlling.last())
        }
    }

    /// The state after `count` interactions that each flip the local value.
    pub open spec fn after_toggles(self, count: nat) -> Controlled
        decreases count,
    {
        if count == 0 {
            self
        } else {
            self.after_toggles((count - 1) as nat).toggled()
        }
    }

    /// Whether no interaction has changed the local value since the latest
    /// change of the controlling value.
    pub open spec fn in_sync(self) -> bool {
        self.local == self.observed
    }

    /// The state of a widget at its first render: the local value is the
    /// controlling value.
    pub fn mount(controlling: bool) -> (state: Controlled)
        ensures
            state == mounted(controlling),
    {
        Controlled { local: controlling, observed: controlling }
    }

    /// Takes in the controlling value of an update, before any interaction of
    /// the same cycle is handled.
    pub fn update(self, controlling: bool) -> (state: Controlled)
        ensures
            state == self.updated(controlling),
    {
        Controlled {
            local: reconcile(self.observed, controlling, self.local),
            observed: controlling,
        }
    }

    /// Sets the local value on behalf of the user.
    pub fn replace(self, value: bool) -> (state: Controlled)
        ensures
            state == self.replaced(value),
    {
        Controlled { local: value, observed: self.observed }
    }

    /// Flips the local value on behalf of the user.
    pub fn toggle(self) -> (state: Controlled)
        ensures
            state == self.toggled(),
    {
        Controlled { local: !self.local, observed: self.observed }
    }

    /// The value to render.
    pub fn value(&self) -> (local: bool)
        ensures
            local == self.local,
    {
        self.local
    }
}

/// The controlling value that a widget has seen last, after it was mounted
/// with `first` and then updated with `rest`.
pub open spec fn latest(first: bool, rest: Seq<bool>) -> bool {
    if rest.len() == 0 {
        first
    } else {
        rest.last()
    }
}

/// External authority wins: after a widget was mounted and any sequence of
/// updates of the controlling value followed, with no interaction in between,
/// the local value is the latest controlling value.
pub proof fn lemma_external_authority_wins(first: bool, rest: Seq<bool>)
    ensures
        mounted(first).after_updates(rest).local == latest(first, rest),
        mounted(first).after_updates(rest).observed == latest(first, rest),
    decreases rest.len(),
{
    if rest.len() > 0 {
        lemma_external_authority_wins(first, rest.drop_last());
    }
}

/// From a state that no interaction has touched since the controlling value
/// last changed, any further updates leave the local value at the latest
/// controlling value.
pub proof fn lemma_updates_keep_sync(state: Controlled, controlling: Seq<bool>)
    requires
        state.in_sync(),
    ensures
        state.after_updates(controlling).in_sync(),
        state.after_updates(controlling).observed == latest(state.observed, controlling),
    decreases controlling.len(),
{
    if controlling.len() > 0 {
        lemma_updates_keep_sync(state, controlling.drop_last());
    }
}

/// After any updates, from any state: either the local value is the latest
/// controlling value, or every update supplied the controlling value that was
/// seen before, and the local value is what interaction left.
pub proof fn lemma_updates_win_or_change_nothing(state: Controlled, controlling: Seq<bool>)
    ensures
        state.after_updates(controlling).observed == latest(state.observed, controlling),
        state.after_updates(controlling).local == latest(state.observed, controlling) || (
        state.after_updates(controlling) == state && forall|i: int|
            0 <= i < controlling.len() ==> controlling[i] == state.observed),
    decreases controlling.len(),
{
    if controlling.len() > 0 {
        let earlier = controlling.drop_last();
        lemma_updates_win_or_change_nothing(state, earlier);
        let unchanged = forall|i: int| 0 <= i < earlier.len() ==> earlier[i] == state.observed;
        if state.after_updates(earlier) == state && unchanged && controlling.last()
            == state.observed {
            assert forall|i: int| 0 <= i < controlling.len() implies controlling[i]
                == state.observed by {
                if i < earlier.len() {
                    assert(controlling[i] == earlier[i]);
                }
            }
        }
    }
}

/// A controlling value that differs from the one seen before overwrites the
/// local value, whatever interaction made of it.
pub proof fn lemma_change_overwrites(state: Controlled, controlling: bool)
    requires
        controlling != state.observed,
    ensures
        state.updated(controlling).local == controlling,
{
}

/// A controlling value that is supplied again unchanged leaves the local value
/// to the user: the widget then behaves as if it had plain local state.
pub proof fn lemma_same_value_keeps_local(state: Controlled, controlling: bool)
    requires
        controlling == state.observed,
    ensures
        state.updated(controlling) == state,
{
}

/// Interactions between two updates change the local value only: the
/// controlling value seen last stays, and the local value is flipped once per
/// interaction.
pub proof fn lemma_toggles_are_local(state: Controlled, count: nat)
    ensures
        state.after_toggles(count).observed == state.observed,
        state.after_toggles(count).local == (if count % 2 == 0 {
            state.local
        } else {
            !state.local
        }),
    decreases count,
{
    if count > 0 {
        lemma_toggles_are_local(state, (count - 1) as nat);
    }
}

} // verus!
