//! Bridge: an abstraction and its implementation kept apart, so that the two
//! can vary independently.
//!
//! `Shape` is the abstraction and `DrawingAPI` the implementation. A
//! `ColouredShape` draws whatever the API that it was made with draws.

use vstd::prelude::*;
use vstd::string::*;

verus! {

/// The interface of the implementation.
pub trait DrawingAPI {
    /// The circle that this API draws.
    spec fn circle(&self) -> Seq<char>;

    /// The rectangle that this API draws.
    spec fn rectangle(&self) -> Seq<char>;

    fn draw_circle(&self) -> (r: &str)
        ensures
            r@ == self.circle(),
    ;

    fn draw_rectangle(&self) -> (r: &str)
        ensures
            r@ == self.rectangle(),
    ;
}

/// An implementation of the `DrawingAPI`.
pub struct DrawingRed;

impl DrawingAPI for DrawingRed {
    open spec fn circle(&self) -> Seq<char> {
        "red circle"@
    }

    open spec fn rectangle(&self) -> Seq<char> {
        "red rectangle"@
    }

    fn draw_circle(&self) -> (r: &str) {
        "red circle"
    }

    fn draw_rectangle(&self) -> (r: &str) {
        "red rectangle"
    }
}

/// Another implementation of the `DrawingAPI`.
pub struct DrawingBlue;

impl DrawingAPI for DrawingBlue {
    open spec fn circle(&self) -> Seq<char> {
        "blue circle"@
    }

    open spec fn rectangle(&self) -> Seq<char> {
        "blue rectangle"@
    }

    fn draw_circle(&self) -> (r: &str) {
        "blue circle"
    }

    fn draw_rectangle(&self) -> (r: &str) {
        "blue rectangle"
    }
}

/// What a shape reports when it draws a circle and a rectangle.
pub open spec fn drawing(circle: Seq<char>, rectangle: Seq<char>) -> Seq<char> {
    "Shape drawing a "@ + circle + " and a "@ + rectangle
}

/// The abstraction.
pub trait Shape<T>: Sized where T: DrawingAPI {
    /// The circle that this shape draws.
    spec fn circle(&self) -> Seq<char>;

    /// The rectangle that this shape draws.
    spec fn rectangle(&self) -> Seq<char>;

    /// A shape that draws through `api`.
    fn new(api: T) -> (r: Self)
        ensures
            r.circle() == api.circle(),
            r.rectangle() == api.rectangle(),
    ;

    fn draw_circle(&self) -> (r: &str)
        ensures
            r@ == self.circle(),
    ;

    fn draw_rectangle(&self) -> (r: &str)
        ensures
            r@ == self.rectangle(),
    ;

    /// Draws a circle and a rectangle and reports both.
    fn draw(&self) -> (r: String)
        ensures
            r@ == drawing(self.circle(), self.rectangle()),
    {
        let mut report = String::from_str("Shape drawing a ");
        report.append(self.draw_circle());
        report.append(" and a ");
        report.append(self.draw_rectangle());
        report
    }
}

/// A concrete object using the abstraction.
pub struct ColouredShape<T> where T: DrawingAPI {
    api: T,
}

impl<T> Shape<T> for ColouredShape<T> where T: DrawingAPI {
    closed spec fn circle(&self) -> Seq<char> {
        self.api.circle()
    }

    closed spec fn rectangle(&self) -> Seq<char> {
        self.api.rectangle()
    }

    fn new(api: T) -> (r: Self) {
        ColouredShape { api }
    }

    fn draw_circle(&self) -> (r: &str) {
        self.api.draw_circle()
    }

    fn draw_rectangle(&self) -> (r: &str) {
        self.api.draw_rectangle()
    }
}

} // verus!
