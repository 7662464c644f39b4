//! State: an object whose behaviour changes with its internal state, as if
//! it changed its type.
//!
//! A `Post` is a draft, then waits for review, then is published, and shows
//! its text only once it is published. Each state is a type of its own that
//! knows which state follows on a request for review and on an approval.

use vstd::prelude::*;
use vstd::string::*;

verus! {

/// Any one of the states that a post can be in.
#[derive(Clone, Copy, PartialEq, Eq, Debug)]
pub enum AnyState {
    Draft(Draft),
    PendingReview(PendingReview),
    Published(Published),
}

/// The state interface.
pub trait State: Sized {
    /// The state that follows when a review is requested.
    spec fn after_review(&self) -> AnyState;

    /// The state that follows when the post is approved.
    spec fn after_approval(&self) -> AnyState;

    /// What a post with the text `text` shows in this state.
    spec fn shown(&self, text: Seq<char>) -> Seq<char>;

    fn request_review(self) -> (r: AnyState)
        ensures
            r == self.after_review(),
    ;

    fn approve(self) -> (r: AnyState)
        ensures
            r == self.after_approval(),
    ;

    fn content<'a>(&self, post: &'a Post) -> (r: &'a str)
        ensures
            r@ == self.shown(post.text()),
    ;
}

/// A concrete state: the post is being written.
#[derive(Clone, Copy, PartialEq, Eq, Debug)]
pub struct Draft;

impl State for Draft {
    open spec fn after_review(&self) -> AnyState {
        AnyState::PendingReview(PendingReview)
    }

    open spec fn after_approval(&self) -> AnyState {
        AnyState::Draft(Draft)
    }

    open spec fn shown(&self, text: Seq<char>) -> Seq<char> {
        Seq::empty()
    }

    fn request_review(self) -> (r: AnyState) {
        AnyState::PendingReview(PendingReview)
    }

    fn approve(self) -> (r: AnyState) {
        AnyState::Draft(self)
    }

    fn content<'a>(&self, post: &'a Post) -> (r: &'a str) {
        proof {
            reveal_strlit("");
        }
        let hidden = "";
        assert(hidden@ =~= Seq::<char>::empty());
        hidden
    }
}

/// A concrete state: the post waits for its review.
#[derive(Clone, Copy, PartialEq, Eq, Debug)]
pub struct PendingReview;

impl State for PendingReview {
    open spec fn after_review(&self) -> AnyState {
        AnyState::PendingReview(PendingReview)
    }

    open spec fn after_approval(&self) -> AnyState {
        AnyState::Published(Published)
    }

    open spec fn shown(&self, text: Seq<char>) -> Seq<char> {
        Seq::empty()
    }

    fn request_review(self) -> (r: AnyState) {
        AnyState::PendingReview(self)
    }

    fn approve(self) -> (r: AnyState) {
        AnyState::Published(Published)
    }

    fn content<'a>(&self, post: &'a Post) -> (r: &'a str) {
        proof {
            reveal_strlit("");
        }
        let hidden = "";
        assert(hidden@ =~= Seq::<char>::empty());
        hidden
    }
}

/// A concrete state: the post is published.
#[derive(Clone, Copy, PartialEq, Eq, Debug)]
pub struct Published;

impl State for Published {
    open spec fn after_review(&self) -> AnyState {
        AnyState::Published(Published)
    }

    open spec fn after_approval(&self) -> AnyState {
        AnyState::Published(Published)
    }

    open spec fn shown(&self, text: Seq<char>) -> Seq<char> {
        text
    }

    fn request_review(self) -> (r: AnyState) {
        AnyState::Published(self)
    }

    fn approve(self) -> (r: AnyState) {
        AnyState::Published(self)
    }

    fn content<'a>(&self, post: &'a Post) -> (r: &'a str) {
        post.content.as_str()
    }
}

impl State for AnyState {
    open spec fn after_review(&self) -> AnyState {
        match self {
            AnyState::Draft(s) => s.after_review(),
            AnyState::PendingReview(s) => s.after_review(),
            AnyState::Published(s) => s.after_review(),
        }
    }

    open spec fn after_approval(&self) -> AnyState {
        match self {
            AnyState::Draft(s) => s.after_approval(),
            AnyState::PendingReview(s) => s.after_approval(),
            AnyState::Published(s) => s.after_approval(),
        }
    }

    open spec fn shown(&self, text: Seq<char>) -> Seq<char> {
        match self {
            AnyState::Draft(s) => s.shown(text),
            AnyState::PendingReview(s) => s.shown(text),
            AnyState::Published(s) => s.shown(text),
        }
    }

    fn request_review(self) -> (r: AnyState) {
        match self {
            AnyState::Draft(s) => s.request_review(),
            AnyState::PendingReview(s) => s.request_review(),
            AnyState::Published(s) => s.request_review(),
        }
    }

    fn approve(self) -> (r: AnyState) {
        match self {
            AnyState::Draft(s) => s.approve(),
            AnyState::PendingReview(s) => s.approve(),
            AnyState::Published(s) => s.approve(),
        }
    }

    fn content<'a>(&self, post: &'a Post) -> (r: &'a str) {
        match self {
            AnyState::Draft(s) => s.content(post),
            AnyState::PendingReview(s) => s.content(post),
            AnyState::Published(s) => s.content(post),
        }
    }
}

/// The state machine.
pub struct Post {
    state: AnyState,
    content: String,
}

impl Post {
    /// The state that the post is in.
    pub closed spec fn state(&self) -> AnyState {
        self.state
    }

    /// The text written so far, shown or not.
    pub closed spec fn text(&self) -> Seq<char> {
        self.content@
    }

    /// An empty draft.
    pub fn new() -> (r: Post)
        ensures
            r.state() == AnyState::Draft(Draft),
            r.text() == Seq::<char>::empty(),
    {
        Post { state: AnyState::Draft(Draft), content: String::new() }
    }

    /// Appends `text` to the post, whatever its state.
    pub fn add_text(&mut self, text: &str)
        ensures
            final(self).state() == old(self).state(),
            final(self).text() == old(self).text() + text@,
    {
        self.content.append(text);
    }

    /// What the post shows: its text once it is published, nothing before.
    pub fn content(&self) -> (r: &str)
        ensures
            r@ == self.state().shown(self.text()),
    {
        self.state.content(self)
    }

    /// Asks for a review of the post.
    pub fn request_review(&mut self)
        ensures
            final(self).state() == old(self).state().after_review(),
            final(self).text() == old(self).text(),
    {
        self.state = self.state.request_review();
    }

    /// Approves the post.
    pub fn approve(&mut self)
        ensures
            final(self).state() == old(self).state().after_approval(),
            final(self).text() == old(self).text(),
    {
        self.state = self.state.approve();
    }
}

/// A post shows its text if and only if it is published, and it is
/// published once a review was requested and an approval followed, whatever
/// else was asked for in between or before.
pub proof fn lemma_published_after_review_and_approval(s: AnyState)
    ensures
        s.after_review().after_approval() == AnyState::Published(Published),
        s.after_approval() is Published <==> (s is PendingReview || s is Published),
        s.after_review() is Published <==> s is Published,
        forall|text: Seq<char>| #[trigger]
            s.shown(text) == (if s is Published {
                text
            } else {
                Seq::empty()
            }),
{
}

} // verus!
