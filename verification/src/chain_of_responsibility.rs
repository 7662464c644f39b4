//! Chain of responsibility: a request travels along a chain of handlers
//! until one of them takes it.
//!
//! Each `Employee` may approve purchases below its own limit and otherwise
//! hands the request to its successor. Exactly one handler answers: the
//! nearest one whose limit lies above the amount. Where there is none, the
//! request is refused.

use vstd::prelude::*;
use vstd::string::*;
use crate::text::{decimal, push_decimal};

verus! {

/// What the chain needs to know of one handler.
pub ghost struct Handler {
    pub role: Seq<char>,
    pub allowable: u32,
}

/// The answer of a handler that approves.
pub open spec fn approval(role: Seq<char>, amount: u32, purpose: Seq<char>) -> Seq<char> {
    role + " will approve $"@ + decimal(amount as nat) + " for "@ + purpose
}

/// The answer where no handler may approve.
pub open spec fn refusal() -> Seq<char> {
    "Request amount is too high"@
}

/// The answer of a chain of handlers, nearest first: the first handler whose
/// limit lies above the amount approves.
pub open spec fn decision(chain: Seq<Handler>, amount: u32, purpose: Seq<char>) -> Seq<char>
    decreases chain.len(),
{
    if chain.len() == 0 {
        refusal()
    } else if amount < chain[0].allowable {
        approval(chain[0].role, amount, purpose)
    } else {
        decision(chain.drop_first(), amount, purpose)
    }
}

/// Where no limit in the chain lies above the amount, the request is refused.
pub proof fn lemma_decision_refused(chain: Seq<Handler>, amount: u32, purpose: Seq<char>)
    requires
        forall|i: int| 0 <= i < chain.len() ==> amount >= (#[trigger] chain[i]).allowable,
    ensures
        decision(chain, amount, purpose) == refusal(),
    decreases chain.len(),
{
    if chain.len() > 0 {
        let rest = chain.drop_first();
        assert forall|i: int| 0 <= i < rest.len() implies amount >= (#[trigger] rest[i]).allowable by {
            assert(rest[i] == chain[i + 1]);
        }
        lemma_decision_refused(rest, amount, purpose);
    }
}

/// The handler that approves is the nearest one whose limit lies above the
/// amount: nobody before it may approve, and nobody after it is asked.
pub proof fn lemma_decision_approved(
    chain: Seq<Handler>,
    amount: u32,
    purpose: Seq<char>,
    k: int,
)
    requires
        0 <= k < chain.len(),
        amount < chain[k].allowable,
        forall|i: int| 0 <= i < k ==> amount >= (#[trigger] chain[i]).allowable,
    ensures
        decision(chain, amount, purpose) == approval(chain[k].role, amount, purpose),
    decreases chain.len(),
{
    if k > 0 {
        let rest = chain.drop_first();
        assert(rest[k - 1] == chain[k]);
        assert forall|i: int| 0 <= i < k - 1 implies amount >= (#[trigger] rest[i]).allowable by {
            assert(rest[i] == chain[i + 1]);
        }
        lemma_decision_approved(rest, amount, purpose, k - 1);
    }
}

/// A request to be sent to the handlers.
pub struct PurchaseRequest {
    amount: u32,
    purpose: String,
}

impl PurchaseRequest {
    /// The amount asked for.
    pub closed spec fn amount(&self) -> u32 {
        self.amount
    }

    /// What the money is for.
    pub closed spec fn purpose(&self) -> Seq<char> {
        self.purpose@
    }

    pub fn new(amount: u32, purpose: &str) -> (r: PurchaseRequest)
        ensures
            r.amount() == amount,
            r.purpose() == purpose@,
    {
        PurchaseRequest { amount, purpose: String::from_str(purpose) }
    }

    pub fn get_amount(&self) -> (r: u32)
        ensures
            r == self.amount(),
    {
        self.amount
    }

    pub fn get_purpose(&self) -> (r: &str)
        ensures
            r@ == self.purpose(),
    {
        self.purpose.as_str()
    }
}

/// The interface of all handlers.
pub trait PurchasePower {
    /// The name under which this handler approves.
    spec fn role(&self) -> Seq<char>;

    /// The limit below which this handler may approve.
    spec fn allowable(&self) -> u32;

    /// The handlers that come after this one, nearest first.
    spec fn successors(&self) -> Seq<Handler>;

    /// Answers the request: this handler approves it if it may, else the
    /// handlers after it decide.
    fn process_request(&self, request: PurchaseRequest) -> (r: String)
        ensures
            r@ == decision(
                seq![Handler { role: self.role(), allowable: self.allowable() }]
                    + self.successors(),
                request.amount(),
                request.purpose(),
            ),
    ;

    fn get_allowable(&self) -> (r: u32)
        ensures
            r == self.allowable(),
    ;

    fn get_role(&self) -> (r: &str)
        ensures
            r@ == self.role(),
    ;
}

/// The chain that starts at `p`: the handler itself, then its successors.
pub open spec fn chain_from<P: PurchasePower + ?Sized>(p: &P) -> Seq<Handler> {
    seq![Handler { role: p.role(), allowable: p.allowable() }] + p.successors()
}

/// A concrete handler.
pub struct Employee<'a> {
    allowable: u32,
    successor: Option<Box<dyn PurchasePower + 'a>>,
    category: &'a str,
}

impl<'a> Employee<'a> {
    /// A handler with no successor.
    pub fn new(category: &'a str, allowable: u32) -> (r: Employee<'a>)
        ensures
            r.role() == category@,
            r.allowable() == allowable,
            r.successors() == Seq::<Handler>::empty(),
    {
        Employee { allowable, successor: None, category }
    }

    /// Puts `successor`, with all that follows it, behind this handler. An
    /// earlier successor is dropped.
    pub fn set_successor(&mut self, successor: Box<dyn PurchasePower + 'a>)
        ensures
            final(self).role() == old(self).role(),
            final(self).allowable() == old(self).allowable(),
            final(self).successors() == chain_from(&*successor),
    {
        let next = Some(successor);
        self.successor = next;
    }

    /// The handler that comes next, if there is one.
    pub fn get_successor(&self) -> (r: Option<&Box<dyn PurchasePower + 'a>>)
        ensures
            match r {
                Some(next) => self.successors() == chain_from(&**next),
                None => self.successors() == Seq::<Handler>::empty(),
            },
    {
        self.successor.as_ref()
    }
}

impl<'a> PurchasePower for Employee<'a> {
    closed spec fn role(&self) -> Seq<char> {
        self.category@
    }

    closed spec fn allowable(&self) -> u32 {
        self.allowable
    }

    closed spec fn successors(&self) -> Seq<Handler> {
        match self.successor {
            Some(next) => chain_from(&*next),
            None => Seq::empty(),
        }
    }

    fn process_request(&self, request: PurchaseRequest) -> (r: String) {
        let ghost chain = seq![Handler { role: self.role(), allowable: self.allowable() }]
            + self.successors();
        if request.get_amount() < self.get_allowable() {
            let mut answer = String::from_str(self.get_role());
            answer.append(" will approve $");
            push_decimal(&mut answer, request.get_amount() as u64);
            answer.append(" for ");
            answer.append(request.get_purpose());
            assert(answer@ =~= approval(chain[0].role, request.amount(), request.purpose()));
            answer
        } else {
            match self.get_successor() {
                Some(successor) => {
                    assert(chain.drop_first() =~= chain_from(&**successor));
                    successor.process_request(request)
                },
                None => {
                    assert(chain.drop_first() =~= Seq::<Handler>::empty());
                    assert(decision(chain.drop_first(), request.amount(), request.purpose())
                        == refusal());
                    String::from_str("Request amount is too high")
                },
            }
        }
    }

    fn get_allowable(&self) -> (r: u32) {
        self.allowable
    }

    fn get_role(&self) -> (r: &str) {
        self.category
    }
}

} // verus!
