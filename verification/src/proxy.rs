//! Proxy: a stand-in that controls access to another object.
//!
//! A `ProxyCar` lets the real car drive only where the driver is older than
//! eighteen.

use vstd::prelude::*;
use vstd::string::*;

verus! {

/// The interface of a car.
pub trait ICar {
    /// What driving the car reports.
    spec fn journey(&self) -> Seq<char>;

    fn drive(&self) -> (r: String)
        ensures
            r@ == self.journey(),
    ;
}

/// A simple car.
pub struct Car;

impl ICar for Car {
    open spec fn journey(&self) -> Seq<char> {
        "car is driving"@
    }

    /// Returns that the car is driving.
    fn drive(&self) -> (r: String) {
        String::from_str("car is driving")
    }
}

/// The proxy of a car.
pub struct ProxyCar<'a, C: ICar + ?Sized> {
    real_car: &'a C,
    driver_age: i32,
}

impl<'a, C: ICar + ?Sized> ICar for ProxyCar<'a, C> {
    closed spec fn journey(&self) -> Seq<char> {
        if self.driver_age > 18 {
            self.real_car.journey()
        } else {
            "driver is too young"@
        }
    }

    fn drive(&self) -> (r: String) {
        if self.driver_age > 18 {
            self.real_car.drive()
        } else {
            String::from_str("driver is too young")
        }
    }
}

impl<'a, C: ICar + ?Sized> ProxyCar<'a, C> {
    /// A proxy for `other_car` with a driver of the given age.
    pub fn new(driver_age: i32, other_car: &'a C) -> (r: ProxyCar<'a, C>)
        ensures
            r.journey() == (if driver_age > 18 {
                other_car.journey()
            } else {
                "driver is too young"@
            }),
    {
        ProxyCar { real_car: other_car, driver_age }
    }
}

} // verus!
