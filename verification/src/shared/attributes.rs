//! Per-unit attributes: movement speed and hit points.

use vstd::prelude::*;

verus! {

/// Default movement speed in milli-pixels per second (125 pixels per second).
pub const DEFAULT_MOVEMENT_SPEED: i64 = 125_000;

/// How fast a unit moves, in milli-pixels per second.
#[derive(Clone, Copy, PartialEq, Eq, Structural, Debug)]
pub struct MovementSpeed {
    pub value: i64,
}

impl Default for MovementSpeed {
    fn default() -> (s: MovementSpeed)
        ensures
            s.value == DEFAULT_MOVEMENT_SPEED,
    {
        MovementSpeed { value: DEFAULT_MOVEMENT_SPEED }
    }
}

/// Hit points of a unit: what it started with and what is left.
#[derive(Clone, Copy, PartialEq, Eq, Structural, Debug)]
pub struct Health {
    pub original_hp: u32,
    pub current_hp: u32,
}

impl Default for Health {
    /// Most units start with a single hit point.
    fn default() -> (h: Health)
        ensures
            h.original_hp == 1,
            h.current_hp == 1,
    {
        Health { original_hp: 1, current_hp: 1 }
    }
}

/// Hit points after taking `damage`: health never goes below zero,
/// a blow past zero leaves the unit dead at zero.
pub open spec fn spec_damaged(h: Health, damage: u32) -> Health {
    Health {
        original_hp: h.original_hp,
        current_hp: if damage > h.current_hp {
            0u32
        } else {
            (h.current_hp - damage) as u32
        },
    }
}

impl Health {
    /// A unit that starts with `hp` hit points, all of them left.
    pub fn from(hp: u32) -> (h: Health)
        ensures
            h.original_hp == hp,
            h.current_hp == hp,
    {
        Health { original_hp: hp, current_hp: hp }
    }

    /// A unit is dead exactly when no hit points are left.
    pub open spec fn spec_dead(self) -> bool {
        self.current_hp == 0
    }

    pub fn dead(&self) -> (d: bool)
        ensures
            d == self.spec_dead(),
    {
        self.current_hp == 0
    }

    /// Take `damage` hit points, stopping at zero.
    pub fn take_damage(&mut self, damage: u32)
        ensures
            *final(self) == spec_damaged(*old(self), damage),
    {
        self.current_hp = self.current_hp.saturating_sub(damage);
    }
}

} // verus!
