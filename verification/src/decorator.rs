//! Decorator: behaviour added to an object by wrapping it, without touching
//! its type.
//!
//! A `ColouredShape` wraps any shape, itself included, and adds a colour to
//! the shape's description.

use vstd::prelude::*;
use vstd::string::*;

verus! {

/// A shape.
pub trait Shape {
    /// The description of the shape. An implementor states it; where none
    /// is stated, nothing is known of it.
    open spec fn text(&self) -> Seq<char> {
        arbitrary()
    }

    /// Gives a description of the shape.
    fn description(&self) -> (r: String)
        ensures
            r@ == self.text(),
    ;
}

/// What a shape with description `inner` reads like once it is coloured.
pub open spec fn coloured(inner: Seq<char>, colour: Seq<char>) -> Seq<char> {
    inner + " which is coloured "@ + colour
}

/// Any coloured shape.
pub struct ColouredShape<T> {
    shape: T,
    colour: String,
}

impl<T: Shape> Shape for ColouredShape<T> {
    closed spec fn text(&self) -> Seq<char> {
        coloured(self.shape.text(), self.colour@)
    }

    fn description(&self) -> (r: String) {
        let mut text = self.shape.description();
        text.append(" which is coloured ");
        text.append(self.colour.as_str());
        text
    }
}

impl<T> ColouredShape<T> where T: Shape {
    /// Wraps `shape` and colours it.
    pub fn new(colour: &str, shape: T) -> (r: Self)
        ensures
            r.text() == coloured(shape.text(), colour@),
    {
        ColouredShape { shape, colour: String::from_str(colour) }
    }
}

} // verus!
