//! A two-state switch that remembers whether it has just been turned.

use bevy::prelude::Resource;
use std::marker::PhantomData;
use vstd::prelude::*;

verus! {

/// A switch, told from other switches by the marker `M`.
pub struct Switch<M> {
    turned_on: bool,
    just_changed: bool,
    marker: PhantomData<M>,
}

impl<M: Send + Sync + 'static> Resource for Switch<M> {

}

impl<M> Switch<M> {
    /// Whether the switch is on.
    pub closed spec fn is_on(&self) -> bool {
        self.turned_on
    }

    /// Whether the switch was turned, or made, since it last settled.
    pub closed spec fn just_changed(&self) -> bool {
        self.just_changed
    }

    /// Creates a switch in the given position. A new switch counts as just turned.
    pub fn new(turn_on: bool) -> (switch: Self)
        ensures
            switch.is_on() == turn_on,
            switch.just_changed(),
    {
        Switch { turned_on: turn_on, just_changed: true, marker: PhantomData }
    }

    /// Turns the switch. Turning it to the position it is in changes nothing.
    pub fn set(&mut self, turn_on: bool)
        ensures
            final(self).is_on() == turn_on,
            final(self).just_changed() == (old(self).just_changed() || old(self).is_on()
                != turn_on),
    {
        if self.turned_on != turn_on {
            self.just_changed = true;
            self.turned_on = turn_on;
        }
    }

    /// Forgets that the switch was turned; the host calls this at the end of a tick.
    pub fn settle(&mut self)
        ensures
            final(self).is_on() == old(self).is_on(),
            !final(self).just_changed(),
    {
        self.just_changed = false;
    }

    /// Tells whether the switch is on.
    pub fn turned_on(&self) -> (yes: bool)
        ensures
            yes == self.is_on(),
    {
        self.turned_on
    }

    /// Tells whether the switch is off.
    pub fn turned_off(&self) -> (yes: bool)
        ensures
            yes == !self.is_on(),
    {
        !self.turned_on
    }

    /// Tells whether the switch is on and has just been turned.
    pub fn just_turned_on(&self) -> (yes: bool)
        ensures
            yes == (self.is_on() && self.just_changed()),
    {
        self.turned_on && self.just_changed
    }

    /// Tells whether the switch is off and has just been turned.
    pub fn just_turned_off(&self) -> (yes: bool)
        ensures
            yes == (!self.is_on() && self.just_changed()),
    {
        !self.turned_on && self.just_changed
    }
}

} // verus!
