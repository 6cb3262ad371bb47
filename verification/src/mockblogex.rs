//! The same workflow with a type for each stage: a draft can be written to
//! and sent to review, a post under review can be approved or rejected, and
//! only a published post has text to read.

use vstd::prelude::*;
use vstd::string::StringExecFns;

verus! {

/// A published post.
pub struct Post {
    content: String,
}

/// A post that is being written.
pub struct DraftPost {
    content: String,
}

/// A post that waits for approval.
pub struct PendingReviewPost {
    content: String,
}

impl View for Post {
    type V = Seq<char>;

    closed spec fn view(&self) -> Seq<char> {
        self.content@
    }
}

impl View for DraftPost {
    type V = Seq<char>;

    closed spec fn view(&self) -> Seq<char> {
        self.content@
    }
}

impl View for PendingReviewPost {
    type V = Seq<char>;

    closed spec fn view(&self) -> Seq<char> {
        self.content@
    }
}

impl Post {
    /// A new post: a draft without text.
    pub fn new() -> (draft: DraftPost)
        ensures
            draft@ == Seq::<char>::empty(),
    {
        DraftPost { content: String::new() }
    }

    /// The text of the post.
    pub fn content(&self) -> (text: &str)
        ensures
            text@ == self@,
    {
        self.content.as_str()
    }
}

impl DraftPost {
    /// Writes `text` at the end of the draft.
    pub fn add_text(&mut self, text: &str)
        ensures
            final(self)@ == old(self)@ + text@,
    {
        self.content.append(text);
    }

    /// Sends the draft to review, with its text as it stands.
    pub fn request_review(self) -> (pending: PendingReviewPost)
        ensures
            pending@ == self@,
    {
        PendingReviewPost { content: self.content }
    }
}

impl PendingReviewPost {
    /// Approves of the post: it is published, with its text as it stands.
    pub fn approve(self) -> (post: Post)
        ensures
            post@ == self@,
    {
        Post { content: self.content }
    }

    /// Rejects the post: it is a draft again, with its text as it stands.
    pub fn reject(self) -> (draft: DraftPost)
        ensures
            draft@ == self@,
    {
        DraftPost { content: self.content }
    }
}

} // verus!
