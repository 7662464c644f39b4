//! Observer: a subject tells every object that registered with it when its
//! state changes.
//!
//! A `Model` is the subject and a `View` an observer. So that the exchange
//! can be seen, an update answers with a line of text, and the subject
//! returns the lines of all its observers.

use vstd::prelude::*;
use vstd::string::*;
use vstd::view::View as _;
use crate::text::{decimal, push_decimal};

verus! {

/// The interface of observers.
pub trait Observer {
    /// The line with which this observer answers to `data`.
    spec fn message(&self, data: u64) -> Seq<char>;

    /// Called by the observed object.
    fn update(&self, data: u64) -> (r: String)
        ensures
            r@ == self.message(data),
    ;
}

/// What a subject returns after its observers have answered with `lines`:
/// for each line, in order, a line break and the line.
pub open spec fn notification(lines: Seq<Seq<char>>) -> Seq<char>
    decreases lines.len(),
{
    if lines.len() == 0 {
        Seq::empty()
    } else {
        notification(lines.drop_last()) + "\n"@ + lines.last()
    }
}

/// The interface of an observable object.
pub trait Observable<'a> {
    /// The lines with which the observers registered so far answer to
    /// `data`, in the order of their registration.
    spec fn answers(&self, data: u64) -> Seq<Seq<char>>;

    /// Registers a new observer for this object, behind those that are
    /// registered already.
    fn register_observer(&mut self, observer: &'a dyn Observer)
        ensures
            forall|data: u64| #[trigger]
                final(self).answers(data) == old(self).answers(data).push(observer.message(data)),
    ;

    /// Notifies all observers registered with this object.
    fn notify_observers(&self, data: u64) -> (r: String)
        ensures
            r@ == notification(self.answers(data)),
    ;
}

/// The observer.
pub struct View {
    pub name: String,
}

impl Observer for View {
    open spec fn message(&self, data: u64) -> Seq<char> {
        "View "@ + self.name@ + " got data: "@ + decimal(data as nat)
    }

    fn update(&self, data: u64) -> (r: String) {
        let mut line = String::from_str("View ");
        line.append(self.name.as_str());
        line.append(" got data: ");
        push_decimal(&mut line, data);
        line
    }
}

/// Appends an observer to a list of observers. The observer comes first, so
/// that its type is taken from the observer and an observer behind the
/// interface is handed on as it is.
fn enlist<T>(observer: T, observers: &mut Vec<T>)
    ensures
        final(observers)@ == old(observers)@.push(observer),
{
    observers.push(observer);
}

/// The subject.
pub struct Model<'a> {
    pub data: u64,
    pub observers: Vec<&'a dyn Observer>,
}

impl<'a> Model<'a> {
    /// Stores `data` and tells every observer of it.
    pub fn set_data(&mut self, data: u64) -> (r: String)
        ensures
            final(self).data == data,
            final(self).observers@ == old(self).observers@,
            r@ == notification(old(self).answers(data)),
    {
        self.data = data;
        self.notify_observers(self.data)
    }
}

impl<'a> Observable<'a> for Model<'a> {
    open spec fn answers(&self, data: u64) -> Seq<Seq<char>> {
        self.observers@.map_values(|o: &'a dyn Observer| o.message(data))
    }

    fn register_observer(&mut self, observer: &'a dyn Observer) {
        enlist(observer, &mut self.observers);
        assert forall|data: u64| #[trigger]
            self.answers(data) == old(self).answers(data).push(observer.message(data)) by {
            assert(self.answers(data) =~= old(self).answers(data).push(observer.message(data)));
        }
    }

    fn notify_observers(&self, data: u64) -> (r: String) {
        let mut result = String::new();
        let mut i: usize = 0;
        while i < self.observers.len()
            invariant
                i <= self.observers.len(),
                result@ == notification(self.answers(data).take(i as int)),
            decreases self.observers.len() - i,
        {
            let line = self.observers[i].update(data);
            result.append("\n");
            result.append(line.as_str());
            proof {
                let upto = self.answers(data).take(i + 1);
                assert(upto.drop_last() =~= self.answers(data).take(i as int));
                assert(upto.last() == line@);
            }
            i += 1;
        }
        assert(self.answers(data).take(i as int) =~= self.answers(data));
        result
    }
}

} // verus!
