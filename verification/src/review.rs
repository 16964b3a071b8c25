//! The review loop for one file's draft message. The loop starts by
//! asking the backend for a draft, shows each draft to the operator, and
//! either finishes on acceptance or asks the backend again — with the
//! identical prompt — on rejection. Only the decisions live here; the
//! backend call and the console read are the surrounding program's work.
use vstd::prelude::*;

use crate::text::{is_rejection, is_rejection_spec};

verus! {

/// Where the review of one file's draft stands.
#[derive(Clone, Copy, Debug, PartialEq, Eq, Structural)]
pub enum ReviewState {
    /// A backend call for a draft is outstanding.
    Drafting,
    /// A draft is shown; the operator's answer is outstanding.
    AwaitingApproval,
    /// The operator accepted the current draft; terminal.
    Approved,
}

/// The draft text as presented: the operator-supplied prefix in brackets
/// before the backend's text when a prefix is configured, the raw text
/// alone otherwise.
pub open spec fn prefixed(prefix: Seq<char>, text: Seq<char>) -> Seq<char> {
    if prefix.len() == 0 {
        text
    } else {
        "["@ + prefix + "] "@ + text
    }
}

/// Applies the configured prefix to a backend's raw text.
pub fn apply_prefix(prefix: &str, text: &str) -> (r: String)
    ensures
        r@ == prefixed(prefix@, text@),
{
    if prefix.is_empty() {
        text.to_owned()
    } else {
        let mut out = "[".to_owned();
        out.append(prefix);
        out.append("] ");
        out.append(text);
        out
    }
}

/// The review loop's state for one file: the prompt it asks the backend
/// with (fixed for the file's whole review), the prefix, the current
/// draft, and how often the backend answered and the operator rejected.
#[derive(Clone, Debug)]
pub struct ReviewLoop {
    pub prompt: String,
    pub prefix: String,
    pub state: ReviewState,
    pub draft: String,
    pub backend_successes: u64,
    pub rejections: u64,
}

impl ReviewLoop {
    /// The loop's invariant: every rejection was answered by exactly one
    /// further backend success, and a draft exists exactly outside
    /// `Drafting`.
    pub open spec fn inv(&self) -> bool {
        match self.state {
            ReviewState::Drafting => self.backend_successes == self.rejections,
            ReviewState::AwaitingApproval => self.backend_successes == self.rejections + 1,
            ReviewState::Approved => self.backend_successes == self.rejections + 1,
        }
    }

    /// Opens the review of one file: the backend is to be asked with
    /// `prompt`, and nothing has been drafted yet.
    pub fn new(prompt: String, prefix: String) -> (r: ReviewLoop)
        ensures
            r.inv(),
            r.state is Drafting,
            r.prompt@ == prompt@,
            r.prefix@ == prefix@,
            r.backend_successes == 0,
            r.rejections == 0,
    {
        ReviewLoop {
            prompt,
            prefix,
            state: ReviewState::Drafting,
            draft: String::new(),
            backend_successes: 0,
            rejections: 0,
        }
    }

    /// Consumes a successful backend response: the prefixed text becomes
    /// the draft and the operator is to be asked next.
    pub fn on_backend_success(&mut self, text: &str)
        requires
            old(self).inv(),
            old(self).state is Drafting,
            old(self).backend_successes < u64::MAX,
        ensures
            final(self).inv(),
            final(self).state is AwaitingApproval,
            final(self).draft@ == prefixed(old(self).prefix@, text@),
            final(self).prompt == old(self).prompt,
            final(self).prefix == old(self).prefix,
            final(self).backend_successes == old(self).backend_successes + 1,
            final(self).rejections == old(self).rejections,
    {
        self.draft = apply_prefix(self.prefix.as_str(), text);
        self.state = ReviewState::AwaitingApproval;
        self.backend_successes = self.backend_successes + 1;
    }

    /// Consumes the operator's answer to the approval prompt: the
    /// rejection token sends the loop back to drafting, with the prompt
    /// unchanged; any other answer, the empty line included, approves
    /// the draft.
    pub fn on_operator_line(&mut self, line: &str) -> (approved: bool)
        requires
            old(self).inv(),
            old(self).state is AwaitingApproval,
        ensures
            final(self).inv(),
            approved == !is_rejection_spec(line@),
            final(self).prompt == old(self).prompt,
            final(self).prefix == old(self).prefix,
            final(self).draft == old(self).draft,
            final(self).backend_successes == old(self).backend_successes,
            approved ==> final(self).state is Approved && final(self).rejections == old(
                self,
            ).rejections,
            !approved ==> final(self).state is Drafting && final(self).rejections == old(
                self,
            ).rejections + 1,
    {
        if is_rejection(line) {
            self.state = ReviewState::Drafting;
            self.rejections = self.rejections + 1;
            false
        } else {
            self.state = ReviewState::Approved;
            true
        }
    }
}

/// A review never reaches approval without a successful backend call, and
/// after N rejections exactly N + 1 backend successes — each regeneration
/// one more call with the unchanged prompt — have been consumed.
pub proof fn lemma_approval_needs_backend(r: ReviewLoop)
    requires
        r.inv(),
        r.state is Approved,
    ensures
        r.backend_successes >= 1,
        r.backend_successes == r.rejections + 1,
{
}

} // verus!
