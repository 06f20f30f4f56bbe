//! Where the checked value of a switch lives.
//!
//! A switch is either controlled, when the caller owns the value and the
//! switch only reports what the user asked for, or uncontrolled, when the
//! switch owns the value itself. Which of the two it is is settled once,
//! when the source is bound.

use vstd::prelude::*;

verus! {

/// The owner of the checked value, with the value as it stands.
#[derive(Clone, Copy, Debug, PartialEq, Eq, Structural)]
pub enum StateSource {
    /// The caller owns the value; `external` is what the caller's cell holds.
    Controlled { external: bool },
    /// The switch owns the value.
    Uncontrolled { internal: bool },
}

impl StateSource {
    /// The source of a switch that was given `checked` as the caller's cell,
    /// or none, and `default_checked` as the value to start from.
    pub open spec fn bound(checked: Option<bool>, default_checked: bool) -> StateSource {
        match checked {
            Some(external) => StateSource::Controlled { external },
            None => StateSource::Uncontrolled { internal: default_checked },
        }
    }

    pub open spec fn is_controlled(self) -> bool {
        self is Controlled
    }

    /// The current checked value.
    pub open spec fn checked(self) -> bool {
        match self {
            StateSource::Controlled { external } => external,
            StateSource::Uncontrolled { internal } => internal,
        }
    }

    /// The source after the switch has been asked to take `value`: a
    /// controlled source stays as it is, an uncontrolled one stores `value`.
    pub open spec fn after_set(self, value: bool) -> StateSource {
        match self {
            StateSource::Controlled { external } => self,
            StateSource::Uncontrolled { internal } => StateSource::Uncontrolled { internal: value },
        }
    }

    /// The source after the caller has written `value` to its own cell: a
    /// controlled source follows, an uncontrolled one has no such cell.
    pub open spec fn after_external_set(self, value: bool) -> StateSource {
        match self {
            StateSource::Controlled { external } => StateSource::Controlled { external: value },
            StateSource::Uncontrolled { internal } => self,
        }
    }

    /// Binds the source of a switch: controlled by the caller's cell where
    /// one is given, else owned by the switch and seeded with the default.
    pub fn bind(checked: Option<bool>, default_checked: bool) -> (source: StateSource)
        ensures
            source == StateSource::bound(checked, default_checked),
    {
        match checked {
            Some(external) => StateSource::Controlled { external },
            None => StateSource::Uncontrolled { internal: default_checked },
        }
    }

    pub fn controlled(&self) -> (controlled: bool)
        ensures
            controlled == self.is_controlled(),
    {
        match self {
            StateSource::Controlled { .. } => true,
            StateSource::Uncontrolled { .. } => false,
        }
    }

    /// Reads the current checked value.
    pub fn get(&self) -> (checked: bool)
        ensures
            checked == self.checked(),
    {
        match self {
            StateSource::Controlled { external } => *external,
            StateSource::Uncontrolled { internal } => *internal,
        }
    }

    /// Asks the switch to take `value`. Returns the value that the change
    /// callback is to be called with, which is `value` in either mode; only
    /// an uncontrolled source stores it.
    pub fn set(&mut self, value: bool) -> (notified: bool)
        ensures
            *final(self) == old(self).after_set(value),
            notified == value,
    {
        match self {
            StateSource::Controlled { .. } => {},
            StateSource::Uncontrolled { internal } => {
                *internal = value;
            },
        }
        value
    }

    /// Asks the switch to take the opposite of its current value. Returns
    /// the value that the change callback is to be called with.
    pub fn toggle(&mut self) -> (notified: bool)
        ensures
            notified == !old(self).checked(),
            *final(self) == old(self).after_set(!old(self).checked()),
    {
        let inverted = !self.get();
        self.set(inverted)
    }

    /// Records that the caller has written `value` to its own cell.
    pub fn external_set(&mut self, value: bool)
        ensures
            *final(self) == old(self).after_external_set(value),
    {
        match self {
            StateSource::Controlled { external } => {
                *external = value;
            },
            StateSource::Uncontrolled { .. } => {},
        }
    }
}

} // verus!
