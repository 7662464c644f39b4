//! Strategy: a family of algorithms behind one interface, so that an object
//! can change the algorithm it uses while it runs.

use vstd::prelude::*;
use vstd::string::*;

verus! {

/// The interface that all algorithms implement.
pub trait Algorithm {
    /// What running the algorithm answers.
    spec fn answer(&self) -> Seq<char>;

    /// Runs the algorithm.
    fn run(&self) -> (r: &str)
        ensures
            r@ == self.answer(),
    ;
}

/// A concrete algorithm.
pub struct FastAlgorithm;

impl Algorithm for FastAlgorithm {
    open spec fn answer(&self) -> Seq<char> {
        "very fast algorithm"@
    }

    fn run(&self) -> (r: &str) {
        "very fast algorithm"
    }
}

/// Another concrete algorithm.
pub struct SlowAlgorithm;

impl Algorithm for SlowAlgorithm {
    open spec fn answer(&self) -> Seq<char> {
        "very slow algorithm ..."@
    }

    fn run(&self) -> (r: &str) {
        "very slow algorithm ..."
    }
}

/// An object whose behaviour is that of the algorithm attached to it. By
/// default the algorithm is any one behind the interface, chosen at run time.
pub struct SomeObject<A: Algorithm + ?Sized = dyn Algorithm> {
    behaviour: Box<A>,
}

impl<A: Algorithm + ?Sized> SomeObject<A> {
    /// What the object answers when run: the answer of its current algorithm.
    pub closed spec fn answer(&self) -> Seq<char> {
        self.behaviour.answer()
    }

    fn with(alg: Box<A>) -> (r: Self)
        ensures
            r.answer() == alg.answer(),
    {
        SomeObject { behaviour: alg }
    }

    /// Replaces the algorithm.
    pub fn set_behaviour(&mut self, alg: Box<A>)
        ensures
            final(self).answer() == alg.answer(),
    {
        self.behaviour = alg;
    }

    pub fn run(&self) -> (r: &str)
        ensures
            r@ == self.answer(),
    {
        self.behaviour.run()
    }
}

impl SomeObject<dyn Algorithm> {
    pub fn new(alg: Box<dyn Algorithm>) -> (r: SomeObject)
        ensures
            r.answer() == alg.answer(),
    {
        let object = SomeObject::with(alg);
        object
    }
}

} // verus!
