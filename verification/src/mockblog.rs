//! A blog post that goes from draft through review to publication. Its text
//! can be read only once it is published.

use vstd::prelude::*;
use vstd::string::StringExecFns;

verus! {

/// Where a post stands on its way to publication.
#[derive(Clone, Copy, Debug, PartialEq, Eq, Structural)]
pub enum State {
    /// Being written.
    Draft,
    /// Waiting for approval.
    PendingReview,
    /// Approved, and open to readers.
    Published,
}

impl State {
    /// The state after a review has been asked for.
    pub open spec fn after_request(self) -> State {
        match self {
            State::Draft => State::PendingReview,
            other => other,
        }
    }

    /// The state after approval has been given.
    pub open spec fn after_approval(self) -> State {
        match self {
            State::PendingReview => State::Published,
            other => other,
        }
    }

    /// A review is asked for: a draft goes to review, anything else stays.
    pub fn request_review(self) -> (next: State)
        ensures
            next == self.after_request(),
    {
        match self {
            State::Draft => State::PendingReview,
            other => other,
        }
    }

    /// Approval is given: a post under review is published, anything else stays.
    pub fn approve(self) -> (next: State)
        ensures
            next == self.after_approval(),
    {
        match self {
            State::PendingReview => State::Published,
            other => other,
        }
    }

    /// What readers see of `post` in this state: its text once it is
    /// published, nothing before.
    pub fn content<'a>(&self, post: &'a Post) -> (shown: &'a str)
        ensures
            shown@ == if *self == State::Published {
                post@.text
            } else {
                Seq::<char>::empty()
            },
    {
        match self {
            State::Published => post.content.as_str(),
            _ => {
                proof {
                    reveal_strlit("");
                }
                ""
            },
        }
    }
}

/// A post: its state and its text.
pub struct Post {
    state: State,
    content: String,
}

/// What a post is, to the contracts.
pub struct PostView {
    /// Where the post stands.
    pub state: State,
    /// All the text written into it so far.
    pub text: Seq<char>,
}

impl View for Post {
    type V = PostView;

    closed spec fn view(&self) -> PostView {
        PostView { state: self.state, text: self.content@ }
    }
}

impl Post {
    /// A new post: a draft without text.
    pub fn new() -> (post: Post)
        ensures
            post@ == (PostView { state: State::Draft, text: Seq::empty() }),
    {
        Post { state: State::Draft, content: String::new() }
    }

    /// Writes `text` at the end of the post.
    pub fn add_text(&mut self, text: &str)
        ensures
            final(self)@ == (PostView { text: old(self)@.text + text@, ..old(self)@ }),
    {
        self.content.append(text);
    }

    /// What readers see of the post: its text once it is published,
    /// nothing before.
    pub fn content(&self) -> (shown: &str)
        ensures
            shown@ == if self@.state == State::Published {
                self@.text
            } else {
                Seq::<char>::empty()
            },
    {
        self.state.content(self)
    }

    /// Asks for a review of the post.
    pub fn request_review(&mut self)
        ensures
            final(self)@ == (PostView { state: old(self)@.state.after_request(), ..old(self)@ }),
    {
        self.state = self.state.request_review();
    }

    /// Approves of the post.
    pub fn approve(&mut self)
        ensures
            final(self)@ == (PostView { state: old(self)@.state.after_approval(), ..old(self)@ }),
    {
        self.state = self.state.approve();
    }
}

/// A post is published by a request for review followed by approval, and in
/// no shorter way: approval alone leaves a draft a draft.
pub proof fn lemma_publication_takes_review_and_approval(state: State)
    ensures
        State::Draft.after_request().after_approval() == State::Published,
        State::Draft.after_approval() == State::Draft,
        state.after_request() == State::Published ==> state == State::Published,
        state.after_approval() == State::Published ==> state == State::PendingReview || state
            == State::Published,
        State::Published.after_request() == State::Published,
        State::Published.after_approval() == State::Published,
{
}

} // verus!
