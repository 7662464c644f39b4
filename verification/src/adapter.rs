//! Adapter: an object with the wrong interface, wrapped so that it offers
//! the interface a client asks for.
//!
//! `IPhone` can charge, but the `Client` wants something to recharge.
//! `USBCharger` holds a phone and offers `TargetInterface`.

use vstd::prelude::*;
use vstd::string::*;

verus! {

/// The interface that the client requires.
pub trait TargetInterface {
    /// What recharging reports.
    spec fn report(&self) -> Seq<char>;

    fn recharge(&self) -> (r: String)
        ensures
            r@ == self.report(),
    ;
}

/// A client that works with the target interface only.
pub struct Client;

impl Client {
    pub fn do_stuff_with_usb<T>(obj: &T) -> (r: String) where T: TargetInterface
        ensures
            r@ == obj.report(),
    {
        obj.recharge()
    }
}

/// An object that does what the target interface asks for, under another
/// interface.
pub struct IPhone;

impl IPhone {
    pub fn charge(&self) -> (r: &str)
        ensures
            r@ == "Is charging"@,
    {
        "Is charging"
    }
}

/// The adapter: it offers the target interface and leaves the work to the
/// phone that it holds.
pub struct USBCharger {
    phone: IPhone,
}

impl USBCharger {
    pub fn new() -> (r: USBCharger)
        ensures
            r.report() == "Is charging"@ + " using a USB-C adapter"@,
    {
        USBCharger { phone: IPhone }
    }
}

impl TargetInterface for USBCharger {
    open spec fn report(&self) -> Seq<char> {
        "Is charging"@ + " using a USB-C adapter"@
    }

    fn recharge(&self) -> (r: String) {
        let mut report = String::from_str(self.phone.charge());
        report.append(" using a USB-C adapter");
        report
    }
}

} // verus!
