//! Builder: the construction of a complex object kept apart from its
//! representation, so that the same steps can give different objects.
//!
//! `CarBuilder` assembles a `Car` step by step. `CarBuilderDirector` knows
//! which steps give a red car with four wheels and five seats.

use vstd::prelude::*;
use vstd::string::*;
use crate::text::{decimal, push_decimal};

verus! {

/// A car.
pub struct Car {
    /// Number of wheels the car has.
    pub wheels: u8,
    /// Number of seats in the car.
    pub seats: u8,
    /// The colour of the car.
    pub colour: String,
}

/// The sentence that describes a car of this colour with these wheels and
/// seats.
pub open spec fn car_description(colour: Seq<char>, wheels: u8, seats: u8) -> Seq<char> {
    "This is a "@ + colour + " car with "@ + decimal(wheels as nat) + " wheels and "@ + decimal(
        seats as nat,
    ) + " seats."@
}

impl Car {
    /// A black car without wheels or seats.
    pub fn new() -> (r: Self)
        ensures
            r.wheels == 0,
            r.seats == 0,
            r.colour@ == "black"@,
    {
        Car { wheels: 0, seats: 0, colour: String::from_str("black") }
    }

    /// Returns a description of the car.
    pub fn description(&self) -> (r: String)
        ensures
            r@ == car_description(self.colour@, self.wheels, self.seats),
    {
        let mut text = String::from_str("This is a ");
        text.append(self.colour.as_str());
        text.append(" car with ");
        push_decimal(&mut text, self.wheels as u64);
        text.append(" wheels and ");
        push_decimal(&mut text, self.seats as u64);
        text.append(" seats.");
        text
    }
}

impl Clone for Car {
    fn clone(&self) -> (r: Self)
        ensures
            r.wheels == self.wheels,
            r.seats == self.seats,
            r.colour@ == self.colour@,
    {
        Car { wheels: self.wheels, seats: self.seats, colour: self.colour.clone() }
    }
}

/// The steps that a builder offers. Each step sets one part and leaves the
/// others as they are.
pub trait Builder {
    type Product;

    /// The wheel count set so far.
    spec fn wheels(&self) -> u8;

    /// The seat count set so far.
    spec fn seats(&self) -> u8;

    /// The colour set so far.
    spec fn colour(&self) -> Seq<char>;

    /// Whether `product` is what the parts set so far make.
    spec fn makes(&self, product: &Self::Product) -> bool;

    /// Sets the wheel count.
    fn set_wheels(&mut self, num: u8)
        ensures
            final(self).wheels() == num,
            final(self).seats() == old(self).seats(),
            final(self).colour() == old(self).colour(),
    ;

    /// Sets the seat count.
    fn set_seats(&mut self, num: u8)
        ensures
            final(self).seats() == num,
            final(self).wheels() == old(self).wheels(),
            final(self).colour() == old(self).colour(),
    ;

    /// Sets the colour.
    fn set_colour(&mut self, colour: String)
        ensures
            final(self).colour() == colour@,
            final(self).wheels() == old(self).wheels(),
            final(self).seats() == old(self).seats(),
    ;

    /// Hands out the product. The builder keeps its parts and can build
    /// again.
    fn build(&self) -> (r: Self::Product)
        ensures
            self.makes(&r),
    ;
}

pub struct CarBuilder {
    car: Car,
}

impl CarBuilder {
    /// A builder that starts from a new car.
    pub fn new() -> (r: Self)
        ensures
            r.wheels() == 0,
            r.seats() == 0,
            r.colour() == "black"@,
    {
        CarBuilder { car: Car::new() }
    }
}

impl Builder for CarBuilder {
    type Product = Car;

    closed spec fn wheels(&self) -> u8 {
        self.car.wheels
    }

    closed spec fn seats(&self) -> u8 {
        self.car.seats
    }

    closed spec fn colour(&self) -> Seq<char> {
        self.car.colour@
    }

    open spec fn makes(&self, product: &Car) -> bool {
        &&& product.wheels == self.wheels()
        &&& product.seats == self.seats()
        &&& product.colour@ == self.colour()
    }

    fn set_wheels(&mut self, num: u8) {
        self.car.wheels = num;
    }

    fn set_seats(&mut self, num: u8) {
        self.car.seats = num;
    }

    fn set_colour(&mut self, colour: String) {
        self.car.colour = colour;
    }

    fn build(&self) -> (r: Car) {
        self.car.clone()
    }
}

pub struct CarBuilderDirector {
    builder: CarBuilder,
}

impl CarBuilderDirector {
    /// The wheel count that the director's builder holds.
    pub closed spec fn wheels(&self) -> u8 {
        self.builder.wheels()
    }

    /// The seat count that the director's builder holds.
    pub closed spec fn seats(&self) -> u8 {
        self.builder.seats()
    }

    /// The colour that the director's builder holds.
    pub closed spec fn colour(&self) -> Seq<char> {
        self.builder.colour()
    }

    /// A director whose builder starts from a new car: black, without
    /// wheels or seats.
    pub fn new() -> (r: Self)
        ensures
            r.wheels() == 0,
            r.seats() == 0,
            r.colour() == "black"@,
    {
        CarBuilderDirector { builder: CarBuilder::new() }
    }

    /// Builds a red car with four wheels and five seats, and leaves the
    /// builder set to these parts.
    pub fn construct(&mut self) -> (r: Car)
        ensures
            r.colour@ == "red"@,
            r.wheels == 4,
            r.seats == 5,
            final(self).colour() == "red"@,
            final(self).wheels() == 4,
            final(self).seats() == 5,
    {
        self.builder.set_colour(String::from_str("red"));
        self.builder.set_wheels(4);
        self.builder.set_seats(5);
        self.builder.build()
    }
}

} // verus!
