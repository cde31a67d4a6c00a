//! A traffic-light intersection cycled by a pluggable signal policy.

use vstd::prelude::*;

verus! {

#[derive(Debug, Clone, Copy, PartialEq, Eq, Structural)]
pub enum TrafficLight {
    Red,
    Green,
    Yellow,
}

#[derive(Debug, Clone, Copy, PartialEq, Eq, Structural)]
pub struct Intersection {
    pub id: u32,
    pub light: TrafficLight,
}

/// A policy that says which light follows which.
pub trait SingnalCycle {
    /// What the policy promises `next_light` returns.
    spec fn next_light_spec(current: TrafficLight) -> TrafficLight;

    fn next_light(current: TrafficLight) -> (next: TrafficLight)
        ensures
            next == Self::next_light_spec(current),
    ;
}

/// The standard rotation: red, green, yellow, red.
pub struct DefaultCycle;

impl SingnalCycle for DefaultCycle {
    open spec fn next_light_spec(current: TrafficLight) -> TrafficLight {
        match current {
            TrafficLight::Red => TrafficLight::Green,
            TrafficLight::Green => TrafficLight::Yellow,
            TrafficLight::Yellow => TrafficLight::Red,
        }
    }

    fn next_light(current: TrafficLight) -> (next: TrafficLight) {
        match current {
            TrafficLight::Red => TrafficLight::Green,
            TrafficLight::Green => TrafficLight::Yellow,
            TrafficLight::Yellow => TrafficLight::Red,
        }
    }
}

impl Intersection {
    /// A new intersection starts red.
    pub fn new(id: u32) -> (r: Intersection)
        ensures
            r.id == id,
            r.light == TrafficLight::Red,
    {
        Intersection { id, light: TrafficLight::Red }
    }

    /// Advances the light one step of the chosen policy.
    pub fn cycle<T: SingnalCycle>(&mut self, _logic: T)
        ensures
            final(self).id == old(self).id,
            final(self).light == T::next_light_spec(old(self).light),
    {
        self.light = T::next_light(self.light);
    }

    /// The light's name, for display.
    pub fn light_name(&self) -> (r: &'static str)
        ensures
            self.light is Red ==> r@ == "Red"@,
            self.light is Green ==> r@ == "Green"@,
            self.light is Yellow ==> r@ == "Yellow"@,
    {
        match self.light {
            TrafficLight::Red => "Red",
            TrafficLight::Green => "Green",
            TrafficLight::Yellow => "Yellow",
        }
    }
}

} // verus!
