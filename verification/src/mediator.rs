//! Mediator: participants do not talk to each other; they talk to a
//! mediator, which knows them all.
//!
//! Three buttons and a display are registered with a `ParticipantMediator`.
//! Asking the mediator to view, search or book presses the matching button
//! and shows the action on the display. The mediator owns its participants,
//! so that every press is a change of the mediator's own state.

use vstd::prelude::*;
use vstd::string::*;

verus! {

/// What every button can do.
pub trait Button {
    /// How often the button has been pressed.
    spec fn presses(&self) -> u8;

    fn press(&mut self)
        requires
            old(self).presses() < u8::MAX,
        ensures
            final(self).presses() == old(self).presses() + 1,
    ;

    fn get_press_count(&self) -> (r: u8)
        ensures
            r == self.presses(),
    ;
}

pub struct ButtonBook {
    count: u8,
}

impl ButtonBook {
    pub fn new() -> (r: ButtonBook)
        ensures
            r.presses() == 0,
    {
        ButtonBook { count: 0 }
    }
}

impl Button for ButtonBook {
    closed spec fn presses(&self) -> u8 {
        self.count
    }

    fn press(&mut self) {
        let count = self.count;
        self.count = count + 1;
    }

    fn get_press_count(&self) -> (r: u8) {
        self.count
    }
}

pub struct ButtonView {
    count: u8,
}

impl ButtonView {
    pub fn new() -> (r: ButtonView)
        ensures
            r.presses() == 0,
    {
        ButtonView { count: 0 }
    }
}

impl Button for ButtonView {
    closed spec fn presses(&self) -> u8 {
        self.count
    }

    fn press(&mut self) {
        let count = self.count;
        self.count = count + 1;
    }

    fn get_press_count(&self) -> (r: u8) {
        self.count
    }
}

pub struct ButtonSearch {
    count: u8,
}

impl ButtonSearch {
    pub fn new() -> (r: ButtonSearch)
        ensures
            r.presses() == 0,
    {
        ButtonSearch { count: 0 }
    }
}

impl Button for ButtonSearch {
    closed spec fn presses(&self) -> u8 {
        self.count
    }

    fn press(&mut self) {
        let count = self.count;
        self.count = count + 1;
    }

    fn get_press_count(&self) -> (r: u8) {
        self.count
    }
}

/// Shows what it is given.
pub struct Display;

impl Display {
    pub fn print<'a>(&self, string: &'a str) -> (r: &'a str)
        ensures
            r@ == string@,
    {
        string
    }
}

/// The mediator interface.
///
/// `view_presses`, `search_presses` and `book_presses` say how often the
/// registered button of that kind has been pressed, or `None` where none is
/// registered.
pub trait Mediator {
    spec fn view_presses(&self) -> Option<u8>;

    spec fn search_presses(&self) -> Option<u8>;

    spec fn book_presses(&self) -> Option<u8>;

    spec fn has_display(&self) -> bool;

    /// Presses the book button and shows the action.
    fn book(&mut self) -> (r: &str)
        requires
            old(self).book_presses() is Some,
            old(self).book_presses().unwrap() < u8::MAX,
            old(self).has_display(),
        ensures
            r@ == "booking"@,
            final(self).book_presses() == Some((old(self).book_presses().unwrap() + 1) as u8),
            final(self).view_presses() == old(self).view_presses(),
            final(self).search_presses() == old(self).search_presses(),
            final(self).has_display(),
    ;

    /// Presses the view button and shows the action.
    fn view(&mut self) -> (r: &str)
        requires
            old(self).view_presses() is Some,
            old(self).view_presses().unwrap() < u8::MAX,
            old(self).has_display(),
        ensures
            r@ == "viewing"@,
            final(self).view_presses() == Some((old(self).view_presses().unwrap() + 1) as u8),
            final(self).search_presses() == old(self).search_presses(),
            final(self).book_presses() == old(self).book_presses(),
            final(self).has_display(),
    ;

    /// Presses the search button and shows the action.
    fn search(&mut self) -> (r: &str)
        requires
            old(self).search_presses() is Some,
            old(self).search_presses().unwrap() < u8::MAX,
            old(self).has_display(),
        ensures
            r@ == "searching"@,
            final(self).search_presses() == Some((old(self).search_presses().unwrap() + 1) as u8),
            final(self).view_presses() == old(self).view_presses(),
            final(self).book_presses() == old(self).book_presses(),
            final(self).has_display(),
    ;

    fn register_view(&mut self, view: ButtonView)
        ensures
            final(self).view_presses() == Some(view.presses()),
            final(self).search_presses() == old(self).search_presses(),
            final(self).book_presses() == old(self).book_presses(),
            final(self).has_display() == old(self).has_display(),
    ;

    fn register_search(&mut self, search: ButtonSearch)
        ensures
            final(self).search_presses() == Some(search.presses()),
            final(self).view_presses() == old(self).view_presses(),
            final(self).book_presses() == old(self).book_presses(),
            final(self).has_display() == old(self).has_display(),
    ;

    fn register_book(&mut self, book: ButtonBook)
        ensures
            final(self).book_presses() == Some(book.presses()),
            final(self).view_presses() == old(self).view_presses(),
            final(self).search_presses() == old(self).search_presses(),
            final(self).has_display() == old(self).has_display(),
    ;

    fn register_display(&mut self, display: Display)
        ensures
            final(self).has_display(),
            final(self).view_presses() == old(self).view_presses(),
            final(self).search_presses() == old(self).search_presses(),
            final(self).book_presses() == old(self).book_presses(),
    ;

    /// The press counts of the view, search and book buttons, in that order.
    fn get_counts(&self) -> (r: (u8, u8, u8))
        requires
            self.view_presses() is Some,
            self.search_presses() is Some,
            self.book_presses() is Some,
        ensures
            r == (
                self.view_presses().unwrap(),
                self.search_presses().unwrap(),
                self.book_presses().unwrap(),
            ),
    ;
}

/// A concrete mediator: the middle agent between the book, search and view
/// buttons and the display.
pub struct ParticipantMediator {
    view: Option<ButtonView>,
    search: Option<ButtonSearch>,
    book: Option<ButtonBook>,
    display: Option<Display>,
}

impl ParticipantMediator {
    /// A mediator with nothing registered.
    pub fn new() -> (r: ParticipantMediator)
        ensures
            r.view_presses() is None,
            r.search_presses() is None,
            r.book_presses() is None,
            !r.has_display(),
    {
        ParticipantMediator { view: None, search: None, book: None, display: None }
    }
}

impl Mediator for ParticipantMediator {
    closed spec fn view_presses(&self) -> Option<u8> {
        match self.view {
            Some(button) => Some(button.presses()),
            None => None,
        }
    }

    closed spec fn search_presses(&self) -> Option<u8> {
        match self.search {
            Some(button) => Some(button.presses()),
            None => None,
        }
    }

    closed spec fn book_presses(&self) -> Option<u8> {
        match self.book {
            Some(button) => Some(button.presses()),
            None => None,
        }
    }

    closed spec fn has_display(&self) -> bool {
        self.display is Some
    }

    fn register_book(&mut self, book: ButtonBook) {
        self.book = Some(book);
    }

    fn register_display(&mut self, display: Display) {
        self.display = Some(display);
    }

    fn register_search(&mut self, search: ButtonSearch) {
        self.search = Some(search);
    }

    fn register_view(&mut self, view: ButtonView) {
        self.view = Some(view);
    }

    fn book(&mut self) -> (r: &str) {
        let mut button = self.book.take().expect("No book button registered with mediator");
        button.press();
        self.book = Some(button);
        self.display.as_ref().expect("No display registered with mediator").print("booking")
    }

    fn view(&mut self) -> (r: &str) {
        let mut button = self.view.take().expect("No view button registered with mediator");
        button.press();
        self.view = Some(button);
        self.display.as_ref().expect("No display registered with mediator").print("viewing")
    }

    fn search(&mut self) -> (r: &str) {
        let mut button = self.search.take().expect("No search button registered with mediator");
        button.press();
        self.search = Some(button);
        self.display.as_ref().expect("No display registered with mediator").print("searching")
    }

    fn get_counts(&self) -> (r: (u8, u8, u8)) {
        let c_s = self.search.as_ref().expect(
            "No search button registered with mediator",
        ).get_press_count();
        let c_v = self.view.as_ref().expect(
            "No view button registered with mediator",
        ).get_press_count();
        let c_b = self.book.as_ref().expect(
            "No book button registered with mediator",
        ).get_press_count();
        (c_v, c_s, c_b)
    }
}

} // verus!
