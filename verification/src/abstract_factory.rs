//! Abstract factory: an interface for creating families of related products
//! without naming their concrete types.
//!
//! A `Factory` hands its products out in a box, so that it may hide their
//! type behind the product interface: `Linux` and `OSX` do. A `Factory2`
//! hands them out as they are, which shows the client their concrete type
//! and needs no dynamic dispatch: `Debian` does.

use vstd::prelude::*;
use vstd::string::*;

verus! {

/// A button.
pub trait Button {
    /// The label on the button.
    spec fn label(&self) -> Seq<char>;

    /// Returns the label on the button.
    fn paint(&self) -> (r: &str)
        ensures
            r@ == self.label(),
    ;
}

/// A window.
pub trait Window {
    /// Width and height of the window.
    spec fn extent(&self) -> (u32, u32);

    /// Returns the size of the window.
    fn size(&self) -> (r: (u32, u32))
        ensures
            r == self.extent(),
    ;
}

/// An abstract factory whose products come boxed.
pub trait Factory {
    type ButtonType: Button + ?Sized;

    type WindowType: Window + ?Sized;

    /// The label of every button that this factory creates.
    spec fn button_label(&self) -> Seq<char>;

    /// The extent of every window that this factory creates.
    spec fn window_extent(&self) -> (u32, u32);

    /// Creates a button.
    fn create_button(&self) -> (r: Box<Self::ButtonType>)
        ensures
            r.label() == self.button_label(),
    ;

    /// Creates a window.
    fn create_window(&self) -> (r: Box<Self::WindowType>)
        ensures
            r.extent() == self.window_extent(),
    ;
}

/// A linux button.
pub struct LinuxButton;

/// A linux window.
pub struct LinuxWindow;

impl Button for LinuxButton {
    open spec fn label(&self) -> Seq<char> {
        "LinuxButton"@
    }

    fn paint(&self) -> (r: &str) {
        "LinuxButton"
    }
}

impl Window for LinuxWindow {
    open spec fn extent(&self) -> (u32, u32) {
        (400, 400)
    }

    fn size(&self) -> (r: (u32, u32)) {
        (400, 400)
    }
}

/// An OSX button.
pub struct OSXButton;

/// An OSX window.
pub struct OSXWindow;

impl Button for OSXButton {
    open spec fn label(&self) -> Seq<char> {
        "OSXButton"@
    }

    fn paint(&self) -> (r: &str) {
        "OSXButton"
    }
}

impl Window for OSXWindow {
    open spec fn extent(&self) -> (u32, u32) {
        (800, 800)
    }

    fn size(&self) -> (r: (u32, u32)) {
        (800, 800)
    }
}

/// A linux system.
pub struct Linux;

/// An OSX system.
pub struct OSX;

impl Factory for Linux {
    type ButtonType = dyn Button;

    type WindowType = dyn Window;

    open spec fn button_label(&self) -> Seq<char> {
        "LinuxButton"@
    }

    open spec fn window_extent(&self) -> (u32, u32) {
        (400, 400)
    }

    fn create_button(&self) -> (r: Box<dyn Button>) {
        return Box::new(LinuxButton {});
    }

    fn create_window(&self) -> (r: Box<dyn Window>) {
        return Box::new(LinuxWindow {});
    }
}

impl Factory for OSX {
    type ButtonType = dyn Button;

    type WindowType = dyn Window;

    open spec fn button_label(&self) -> Seq<char> {
        "OSXButton"@
    }

    open spec fn window_extent(&self) -> (u32, u32) {
        (800, 800)
    }

    fn create_button(&self) -> (r: Box<dyn Button>) {
        return Box::new(OSXButton {});
    }

    fn create_window(&self) -> (r: Box<dyn Window>) {
        return Box::new(OSXWindow {});
    }
}

/// An abstract factory whose products come as they are.
pub trait Factory2 {
    type ButtonType: Button;

    type WindowType: Window;

    /// The label of every button that this factory creates.
    spec fn button_label(&self) -> Seq<char>;

    /// The extent of every window that this factory creates.
    spec fn window_extent(&self) -> (u32, u32);

    fn create_button(&self) -> (r: Self::ButtonType)
        ensures
            r.label() == self.button_label(),
    ;

    fn create_window(&self) -> (r: Self::WindowType)
        ensures
            r.extent() == self.window_extent(),
    ;
}

pub struct DebianButton;

pub struct DebianWindow;

impl Button for DebianButton {
    open spec fn label(&self) -> Seq<char> {
        "DebianButton"@
    }

    fn paint(&self) -> (r: &str) {
        "DebianButton"
    }
}

impl Window for DebianWindow {
    open spec fn extent(&self) -> (u32, u32) {
        (1600, 1600)
    }

    fn size(&self) -> (r: (u32, u32)) {
        (1600, 1600)
    }
}

pub struct Debian;

impl Factory2 for Debian {
    type ButtonType = DebianButton;

    type WindowType = DebianWindow;

    open spec fn button_label(&self) -> Seq<char> {
        "DebianButton"@
    }

    open spec fn window_extent(&self) -> (u32, u32) {
        (1600, 1600)
    }

    fn create_button(&self) -> (r: DebianButton) {
        DebianButton {}
    }

    fn create_window(&self) -> (r: DebianWindow) {
        DebianWindow {}
    }
}

} // verus!
