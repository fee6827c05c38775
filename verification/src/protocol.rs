//! The shared-cell stage protocol.
//!
//! When a cell is shared between threads or tasks, its stage lives in one
//! atomic byte and every transition is a compare-and-swap or a store on that
//! byte. The atomic operations themselves cannot be verified here; what can
//! be is the protocol around them: which stage codes exist, which
//! transitions are legal, that the machine only moves forward, and what a
//! caller must do after observing each stage. Drivers perform the atomic
//! step and hand the observed code to [`next_action`] or [`reached`] for the
//! decision.

use vstd::prelude::*;

verus! {

/// Stage code: the initializer has not been claimed.
pub const UNINIT: u8 = 0;

/// Stage code: one caller holds the claim and is running the initializer.
pub const INITIALIZING: u8 = 1;

/// Stage code: the value is written and published.
pub const INIT: u8 = 2;

/// The stage codes a cell can ever hold.
pub open spec fn valid_stage(s: u8) -> bool {
    s == UNINIT || s == INITIALIZING || s == INIT
}

/// The legal transitions of the stage machine: claiming the initializer and
/// publishing its value. Nothing else ever changes the stage.
pub open spec fn stage_step(pre: u8, post: u8) -> bool {
    ||| (pre == UNINIT && post == INITIALIZING)
    ||| (pre == INITIALIZING && post == INIT)
}

/// What a caller does after its claim attempt observed stage `s`.
#[derive(Clone, Copy, Debug)]
pub enum Action {
    /// The claim was won: run the initializer, then publish.
    RunInitializer,
    /// Someone else holds the claim: wait until the value is published.
    Wait,
    /// The value is already published: read it.
    ReadValue,
}

/// The decision table for [`next_action`].
pub open spec fn spec_next_action(s: u8) -> Action {
    if s == UNINIT {
        Action::RunInitializer
    } else if s == INITIALIZING {
        Action::Wait
    } else {
        Action::ReadValue
    }
}

/// Decides what a caller must do after its claim attempt (a compare-and-swap
/// from [`UNINIT`] to [`INITIALIZING`]) observed stage `s`: the observer of
/// `UNINIT` is the unique winner and runs the initializer; an observer of
/// `INITIALIZING` waits; an observer of `INIT` reads. A code outside the
/// three stages is a fatal internal fault of the caller and is excluded.
pub fn next_action(observed: u8) -> (r: Action)
    requires
        valid_stage(observed),
    ensures
        r == spec_next_action(observed),
{
    if observed == UNINIT {
        Action::RunInitializer
    } else if observed == INITIALIZING {
        Action::Wait
    } else {
        Action::ReadValue
    }
}

/// The re-check a waiting caller performs on every wake-up or spin turn:
/// waiting is over exactly when the observed stage is the target. A waiter
/// woken before the target stage is reached must keep waiting.
pub fn reached(observed: u8, target: u8) -> (r: bool)
    ensures
        r == (observed == target),
{
    observed == target
}

/// Law: the stage machine only moves forward. Every legal transition starts
/// and ends on a valid stage and strictly increases the stage code, so no
/// cell ever regresses, and in particular a published value stays published.
pub proof fn lemma_stage_step_monotone(pre: u8, post: u8)
    requires
        stage_step(pre, post),
    ensures
        valid_stage(pre),
        valid_stage(post),
        pre < post,
{
}

/// Law: publication is terminal. No legal transition leaves [`INIT`], so a
/// caller that once observed the published stage observes it forever.
pub proof fn lemma_init_terminal()
    ensures
        forall|post: u8| !stage_step(INIT, post),
{
}

/// Law: along any run of the protocol — a sequence of stage values whose
/// consecutive entries are legal transitions — the stage strictly
/// increases, so no stage is ever revisited.
pub proof fn lemma_run_monotone(run: Seq<u8>, i: int, j: int)
    requires
        forall|k: int| 0 <= k < run.len() - 1 ==> stage_step(#[trigger] run[k], run[k + 1]),
        0 <= i < j < run.len(),
    ensures
        run[i] < run[j],
    decreases j - i,
{
    if j > i + 1 {
        lemma_run_monotone(run, i, j - 1);
    }
    lemma_stage_step_monotone(run[j - 1], run[j]);
}

/// Law: the claim is won at most once. Along any run of the protocol, at
/// most one position holds [`UNINIT`], so at most one claim attempt can
/// ever observe it and become the caller that runs the initializer.
pub proof fn lemma_claim_unique(run: Seq<u8>)
    requires
        forall|k: int| 0 <= k < run.len() - 1 ==> stage_step(#[trigger] run[k], run[k + 1]),
    ensures
        forall|i: int, j: int|
            0 <= i < j < run.len() && run[i] == UNINIT ==> run[j] != UNINIT,
{
    assert forall|i: int, j: int|
        0 <= i < j < run.len() && run[i] == UNINIT implies run[j] != UNINIT by {
        lemma_run_monotone(run, i, j);
    }
}

} // verus!
