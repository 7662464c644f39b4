//! Factory method: an interface for creating an object that lets the
//! implementor decide which type to create.
//!
//! A `CarFactory` hands its car out in a box, so that it may hide the car's
//! type behind the `Car` interface: `SedanFactory` does. A `CarFactory2`
//! hands it out as it is: `BetterSedanFactory` does.

use vstd::prelude::*;
use vstd::string::*;

verus! {

/// The behaviour of a car.
pub trait Car {
    /// The name of the kind of car.
    spec fn kind(&self) -> Seq<char>;

    /// Gets the type of the car.
    fn get_type(&self) -> (r: &'static str)
        ensures
            r@ == self.kind(),
    ;
}

/// The factory, whose car comes boxed.
pub trait CarFactory {
    type Product: Car + ?Sized;

    /// The type name of every car that this factory makes.
    spec fn makes(&self) -> Seq<char>;

    /// Makes a car. This is the factory method.
    fn make_car(&self) -> (r: Box<Self::Product>)
        ensures
            r.kind() == self.makes(),
    ;
}

/// A car of type sedan.
pub struct Sedan;

impl Car for Sedan {
    open spec fn kind(&self) -> Seq<char> {
        "Sedan"@
    }

    fn get_type(&self) -> (r: &'static str) {
        "Sedan"
    }
}

/// A factory building sedans.
pub struct SedanFactory;

impl CarFactory for SedanFactory {
    type Product = dyn Car;

    open spec fn makes(&self) -> Seq<char> {
        "Sedan"@
    }

    fn make_car(&self) -> (r: Box<dyn Car>) {
        return Box::new(Sedan {});
    }
}

/// The factory, whose car comes as it is.
pub trait CarFactory2 {
    type CarType: Car;

    /// The type name of every car that this factory makes.
    spec fn makes(&self) -> Seq<char>;

    fn make_car(&self) -> (r: Self::CarType)
        ensures
            r.kind() == self.makes(),
    ;
}

pub struct BetterSedanFactory;

impl CarFactory2 for BetterSedanFactory {
    type CarType = Sedan;

    open spec fn makes(&self) -> Seq<char> {
        "Sedan"@
    }

    fn make_car(&self) -> (r: Sedan) {
        Sedan {}
    }
}

} // verus!
