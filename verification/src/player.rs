//! Player sessions: identifier values and the player entity itself.

use core::cmp::Ordering;
use vstd::prelude::*;

verus! {

/// Id type that uniquely identifies a player.
#[derive(Debug, PartialEq, Eq, Structural, Hash, PartialOrd, Copy, Clone)]
pub struct PlayerId(pub u128);

impl View for PlayerId {
    type V = u128;

    open spec fn view(&self) -> u128 {
        self.0
    }
}

impl From<u128> for PlayerId {
    fn from(value: u128) -> (r: Self) {
        PlayerId(value)
    }
}

impl vstd::std_specs::convert::FromSpecImpl<u128> for PlayerId {
    open spec fn obeys_from_spec() -> bool {
        true
    }

    open spec fn from_spec(value: u128) -> Self {
        PlayerId(value)
    }
}

/// A player in a room. Equality, ordering and hashing go by the identifier;
/// the entity currently carries no other attributes.
#[derive(Debug, Eq, Hash)]
pub struct Player {
    pub id: PlayerId,
}

impl PartialEq for Player {
    fn eq(&self, other: &Self) -> bool {
        self.id == other.id
    }
}

impl vstd::std_specs::cmp::PartialEqSpecImpl for Player {
    open spec fn obeys_eq_spec() -> bool {
        true
    }

    open spec fn eq_spec(&self, other: &Self) -> bool {
        self.id == other.id
    }
}

impl PartialOrd for Player {
    fn partial_cmp(&self, other: &Self) -> (r: Option<Ordering>) {
        if self.id.0 < other.id.0 {
            Some(Ordering::Less)
        } else if self.id.0 == other.id.0 {
            Some(Ordering::Equal)
        } else {
            Some(Ordering::Greater)
        }
    }
}

impl vstd::std_specs::cmp::PartialOrdSpecImpl for Player {
    open spec fn obeys_partial_cmp_spec() -> bool {
        true
    }

    open spec fn partial_cmp_spec(&self, other: &Self) -> Option<Ordering> {
        if self.id.0 < other.id.0 {
            Some(Ordering::Less)
        } else if self.id.0 == other.id.0 {
            Some(Ordering::Equal)
        } else {
            Some(Ordering::Greater)
        }
    }
}

} // verus!
