//! The shared answer store: a single piece of text that background tasks
//! overwrite on completion and the render side reads, together with the
//! loading flag that tracks an in-flight submission.
//!
//! The surrounding application keeps one value of [`SharedState`] behind a
//! mutual-exclusion lock; every verified operation here is a single
//! read-or-write performed while that lock is held, so each completed write
//! is observed whole. Writes carry no ordering: whichever task's write runs
//! last determines the visible answer (see [`lemma_last_write_wins`]).

use vstd::prelude::*;

verus! {

/// Mathematical model of the shared store: the answer text and the
/// loading flag.
pub struct StoreModel {
    pub answer: Seq<char>,
    pub loading: bool,
}

/// The store after a submission has been registered: the flag is up,
/// the answer is untouched.
pub open spec fn begun(m: StoreModel) -> StoreModel {
    StoreModel { answer: m.answer, loading: true }
}

/// The store after a task has completed with result `text`: the answer is
/// overwritten unconditionally and the flag is down. The prior state plays
/// no part in the outcome.
pub open spec fn written(m: StoreModel, text: Seq<char>) -> StoreModel {
    StoreModel { answer: text, loading: false }
}

/// The state shared between the render side and every background task:
/// the most recent completed result and the loading flag.
pub struct SharedState {
    pub answer: String,
    pub loading: bool,
}

impl View for SharedState {
    type V = StoreModel;

    open spec fn view(&self) -> StoreModel {
        StoreModel { answer: self.answer@, loading: self.loading }
    }
}

impl SharedState {
    /// A fresh store: empty answer, no submission in flight.
    pub fn new() -> (s: SharedState)
        ensures
            s@.answer == Seq::<char>::empty(),
            !s@.loading,
    {
        SharedState { answer: String::new(), loading: false }
    }

    /// Registers a submission: raises the loading flag, leaves the answer
    /// as it was.
    pub fn begin_request(&mut self)
        ensures
            final(self)@ == begun(old(self)@),
    {
        self.loading = true;
    }

    /// A completing task delivers its result: overwrites the answer
    /// unconditionally and lowers the loading flag.
    pub fn complete(&mut self, text: String)
        ensures
            final(self)@ == written(old(self)@, text@),
    {
        self.answer = text;
        self.loading = false;
    }

    /// Returns a copy of the current answer text.
    pub fn read_answer(&self) -> (r: String)
        ensures
            r@ == self@.answer,
    {
        self.answer.clone()
    }
}

/// Last write wins: after two completions, the answer equals the text of
/// the later one, whatever the earlier one wrote and whatever state the
/// store was in before.
pub proof fn lemma_last_write_wins(m: StoreModel, a: Seq<char>, b: Seq<char>)
    ensures
        written(written(m, a), b).answer == b,
        !written(written(m, a), b).loading,
{
}

} // verus!
