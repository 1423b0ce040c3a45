//! Requests that alternate between statements and decisions.
//!
//! A request is answered in steps. Each step either asks for a statement to be run, and goes on
//! with what the statement comes to, or is done.

use vstd::prelude::*;

use crate::error::{ApiError, ApiErrorView};
use crate::json::{Json, JsonView};
use crate::query::{Query, QueryView, Reply, ReplyView};
#[allow(unused_imports)]
use crate::query::reply_view;
#[allow(unused_imports)]
use crate::sql::permitted;

verus! {

/// What the statements of a request come to: the reply to each, by its number within the request.
pub type Replies = spec_fn(nat, QueryView) -> ReplyView;

/// What a request is answered.
pub type Response = Result<Json, ApiError>;

/// What a [`Response`] is.
pub type ResponseView = Result<JsonView, ApiErrorView>;

/// What `response` is.
pub open spec fn response_view(response: Response) -> ResponseView {
    match response {
        Ok(json) => Ok(json@),
        Err(error) => Err(error@),
    }
}

/// What comes next for a request.
pub enum Step<F, R> {
    /// The statement is to be run, and its reply handed to `next`.
    Ask { query: Query, next: F },
    /// The request is settled.
    Done { result: R },
}

/// A request that waits for the reply to a statement.
pub trait Flow: Sized {
    /// What the request comes to.
    type Outcome;

    /// What an [`Flow::Outcome`] is.
    type OutcomeView;

    /// What `outcome` is.
    spec fn outcome_view(outcome: Self::Outcome) -> Self::OutcomeView;

    /// Whether the request is in one of the states that it can reach.
    spec fn wf(&self) -> bool;

    /// The statement that the request waits for.
    spec fn pending(&self) -> QueryView;

    /// How many parts of the request are still ahead, the current one included.
    spec fn parts(&self) -> nat;

    /// How many statements the current part of the request waits for at most.
    spec fn left(&self) -> nat;

    /// What the request comes to, where the statement that it waits for is number `n` and the
    /// statements from there on come to `replies`.
    spec fn outcome(&self, replies: Replies, n: nat) -> Self::OutcomeView;

    /// The statements that the request asks for from the one that it waits for on, in order, where
    /// that one is number `n` and the statements from there on come to `replies`.
    spec fn asked(&self, replies: Replies, n: nat) -> Seq<QueryView>;

    /// Whether the statements of the request write.
    spec fn writes() -> bool;

    /// The statement that the request waits for may be run, and writes only where the request
    /// does.
    proof fn pending_permitted(&self)
        requires
            self.wf(),
        ensures
            permitted(self.pending()),
            self.pending().write == Self::writes(),
    ;

    /// Goes on with the reply to the statement that the request waits for. Whatever the later
    /// statements come to, what the request comes to stays the same, what it asks for after this
    /// statement stays the same, and less is left to ask.
    fn resume(self, reply: Reply) -> (step: Step<Self, Self::Outcome>)
        requires
            self.wf(),
        ensures
            step matches Step::Ask { query, next } ==> {
                &&& next.wf()
                &&& query@ == next.pending()
                &&& next.parts() < self.parts() || next.parts() == self.parts() && next.left()
                    < self.left()
            },
            forall|replies: Replies, n: nat| #![trigger self.outcome(replies, n)]
                replies(n, self.pending()) == reply_view(reply) ==> self.outcome(replies, n)
                    == match step {
                    Step::Ask { query, next } => next.outcome(replies, n + 1),
                    Step::Done { result } => Self::outcome_view(result),
                },
            forall|replies: Replies, n: nat| #![trigger self.asked(replies, n)]
                replies(n, self.pending()) == reply_view(reply) ==> self.asked(replies, n)
                    =~= seq![self.pending()] + match step {
                    Step::Ask { query, next } => next.asked(replies, n + 1),
                    Step::Done { result } => Seq::empty(),
                },
    ;
}

/// What a request comes to after a step, where the next statement is number `n`.
pub open spec fn step_outcome<F: Flow>(
    step: Step<F, F::Outcome>,
    replies: Replies,
    n: nat,
) -> F::OutcomeView {
    match step {
        Step::Ask { query, next } => next.outcome(replies, n),
        Step::Done { result } => F::outcome_view(result),
    }
}

/// The statements that a request asks for from a step on, in order, where the next is number `n`.
pub open spec fn step_asked<F: Flow>(
    step: Step<F, F::Outcome>,
    replies: Replies,
    n: nat,
) -> Seq<QueryView> {
    match step {
        Step::Ask { query, next } => next.asked(replies, n),
        Step::Done { result } => Seq::empty(),
    }
}

/// Whether a step is one that a request can be left at.
pub open spec fn step_wf<F: Flow>(step: Step<F, F::Outcome>) -> bool {
    step matches Step::Ask { query, next } ==> next.wf() && query@ == next.pending()
}

} // verus!
