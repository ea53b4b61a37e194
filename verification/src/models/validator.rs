//! The flow that turns an identifier and a secret into a principal or a
//! rejection, and the flow that stores a new hash.
//!
//! Each flow alternates work that it cannot do itself (asking the store,
//! running the hashing function on a worker) with decisions. The decisions are
//! a transition function: the caller performs the action it is handed and
//! reports what happened as the next event.

use crate::models::credentials::{AuthError, Fault};
use crate::models::hasher::HashString;
use vstd::prelude::*;

verus! {

/// The hash that a secret is verified against when the identifier is unknown.
/// It is a well-formed hash with the cost parameters of real ones, so that
/// the verification costs what a real one costs.
pub const DUMMY_HASH: &'static str =
    "$argon2id$v=19$m=15000,t=2,p=1$gZiV/M1gPc22ElAH/Jh1Hw$CWOrkoo7oJBQ/iyh7uJ0LO2aLEfrHwTWllSAxT0zRno";

/// Where a validation stands.
#[derive(Clone, Copy, Debug, PartialEq, Eq, Structural)]
pub enum ValidatorState {
    /// Nothing was asked yet.
    Start,
    /// The store was asked for the identifier.
    Lookup,
    /// A verification is running, for the principal that the store named or
    /// for nobody.
    Verify { principal: Option<i32> },
    /// The secret matched the hash of this principal.
    Accepted(i32),
    /// The request was turned down.
    Rejected(AuthError),
}

/// What happened since the last action.
pub enum ValidatorEvent {
    /// An identifier and a secret were submitted.
    Submitted,
    /// The store holds the identifier.
    Found { principal: i32, hash: HashString },
    /// The store does not hold the identifier.
    Missing,
    /// The store could not answer.
    StoreFailed,
    /// The verification ran, and this is whether the hash accepted the secret.
    Verified(bool),
    /// The worker could not run the verification.
    OffloadFailed,
}

/// What the caller of a validation does next.
pub enum ValidatorAction {
    /// Ask the store for the submitted identifier.
    QueryStore,
    /// Verify the submitted secret against this hash, on a worker.
    Verify(HashString),
    /// Nothing: the validation has ended.
    Finish,
}

/// An event as a plain value.
pub enum ValidatorEventView {
    Submitted,
    Found { principal: i32, hash: Seq<char> },
    Missing,
    StoreFailed,
    Verified(bool),
    OffloadFailed,
}

/// An action as a plain value.
pub enum ValidatorActionView {
    QueryStore,
    Verify(Seq<char>),
    Finish,
}

impl View for ValidatorEvent {
    type V = ValidatorEventView;

    open spec fn view(&self) -> ValidatorEventView {
        match *self {
            ValidatorEvent::Submitted => ValidatorEventView::Submitted,
            ValidatorEvent::Found { principal, hash } => ValidatorEventView::Found {
                principal,
                hash: hash@,
            },
            ValidatorEvent::Missing => ValidatorEventView::Missing,
            ValidatorEvent::StoreFailed => ValidatorEventView::StoreFailed,
            ValidatorEvent::Verified(ok) => ValidatorEventView::Verified(ok),
            ValidatorEvent::OffloadFailed => ValidatorEventView::OffloadFailed,
        }
    }
}

impl View for ValidatorAction {
    type V = ValidatorActionView;

    open spec fn view(&self) -> ValidatorActionView {
        match *self {
            ValidatorAction::QueryStore => ValidatorActionView::QueryStore,
            ValidatorAction::Verify(hash) => ValidatorActionView::Verify(hash@),
            ValidatorAction::Finish => ValidatorActionView::Finish,
        }
    }
}

impl ValidatorEvent {
    /// A second copy of the event.
    pub fn duplicate(&self) -> (event: Self)
        ensures
            event@ == self@,
    {
        match self {
            ValidatorEvent::Submitted => ValidatorEvent::Submitted,
            ValidatorEvent::Found { principal, hash } => ValidatorEvent::Found {
                principal: *principal,
                hash: hash.duplicate(),
            },
            ValidatorEvent::Missing => ValidatorEvent::Missing,
            ValidatorEvent::StoreFailed => ValidatorEvent::StoreFailed,
            ValidatorEvent::Verified(ok) => ValidatorEvent::Verified(*ok),
            ValidatorEvent::OffloadFailed => ValidatorEvent::OffloadFailed,
        }
    }
}

impl ValidatorAction {
    /// A second copy of the action.
    pub fn duplicate(&self) -> (action: Self)
        ensures
            action@ == self@,
    {
        match self {
            ValidatorAction::QueryStore => ValidatorAction::QueryStore,
            ValidatorAction::Verify(hash) => ValidatorAction::Verify(hash.duplicate()),
            ValidatorAction::Finish => ValidatorAction::Finish,
        }
    }
}

/// The decision once the store has answered and the verification has run: a
/// principal is accepted only if the store named it and its hash accepted the
/// secret. Every other combination is the same rejection.
pub open spec fn decision(found: Option<i32>, verified: bool) -> Result<i32, AuthError> {
    match found {
        Some(principal) if verified => Ok(principal),
        _ => Err(AuthError::InvalidCredentials),
    }
}

/// The decision once the store has answered and the verification has run.
pub fn decide(found: Option<i32>, verified: bool) -> (r: Result<i32, AuthError>)
    ensures
        r == decision(found, verified),
{
    match found {
        Some(principal) => if verified {
            Ok(principal)
        } else {
            Err(AuthError::InvalidCredentials)
        },
        None => Err(AuthError::InvalidCredentials),
    }
}

impl ValidatorState {
    /// Whether the validation has ended.
    pub open spec fn terminal(self) -> bool {
        self is Accepted || self is Rejected
    }

    /// The state that ends a validation with the given result.
    pub open spec fn ending(result: Result<i32, AuthError>) -> ValidatorState {
        match result {
            Ok(principal) => ValidatorState::Accepted(principal),
            Err(e) => ValidatorState::Rejected(e),
        }
    }

    /// The state after an event, and the action to perform.
    ///
    /// Whatever the store answers, a verification follows: against the stored
    /// hash if the identifier is known, against the dummy hash if it is not.
    /// A failing store or worker ends the validation at once, as does an event
    /// that the state was not waiting for. A validation that has ended stays
    /// as it is.
    pub open spec fn next(self, event: ValidatorEventView) -> (ValidatorState, ValidatorActionView) {
        match (self, event) {
            (ValidatorState::Accepted(_), _) => (self, ValidatorActionView::Finish),
            (ValidatorState::Rejected(_), _) => (self, ValidatorActionView::Finish),
            (ValidatorState::Start, ValidatorEventView::Submitted) => (
                ValidatorState::Lookup,
                ValidatorActionView::QueryStore,
            ),
            (ValidatorState::Lookup, ValidatorEventView::Found { principal, hash }) => (
                ValidatorState::Verify { principal: Some(principal) },
                ValidatorActionView::Verify(hash),
            ),
            (ValidatorState::Lookup, ValidatorEventView::Missing) => (
                ValidatorState::Verify { principal: None },
                ValidatorActionView::Verify(DUMMY_HASH@),
            ),
            (ValidatorState::Lookup, ValidatorEventView::StoreFailed) => (
                ValidatorState::Rejected(AuthError::UnexpectedError(Fault::Store)),
                ValidatorActionView::Finish,
            ),
            (ValidatorState::Verify { principal }, ValidatorEventView::Verified(ok)) => (
                ValidatorState::ending(decision(principal, ok)),
                ValidatorActionView::Finish,
            ),
            (ValidatorState::Verify { .. }, ValidatorEventView::OffloadFailed) => (
                ValidatorState::Rejected(AuthError::UnexpectedError(Fault::Offload)),
                ValidatorActionView::Finish,
            ),
            _ => (
                ValidatorState::Rejected(AuthError::UnexpectedError(Fault::Protocol)),
                ValidatorActionView::Finish,
            ),
        }
    }

    /// The result of a validation that has ended.
    pub open spec fn result(self) -> Option<Result<i32, AuthError>> {
        match self {
            ValidatorState::Accepted(principal) => Some(Ok(principal)),
            ValidatorState::Rejected(e) => Some(Err(e)),
            _ => None,
        }
    }

    /// A validation before anything was submitted.
    pub fn new() -> (state: Self)
        ensures
            state == ValidatorState::Start,
    {
        ValidatorState::Start
    }

    /// Takes one event, and says what to do next.
    pub fn step(self, event: ValidatorEvent) -> (r: (ValidatorState, ValidatorAction))
        ensures
            (r.0, r.1@) == self.next(event@),
    {
        match self {
            ValidatorState::Accepted(_) => (self, ValidatorAction::Finish),
            ValidatorState::Rejected(_) => (self, ValidatorAction::Finish),
            ValidatorState::Start => match event {
                ValidatorEvent::Submitted => (ValidatorState::Lookup, ValidatorAction::QueryStore),
                _ => (protocol_violation(), ValidatorAction::Finish),
            },
            ValidatorState::Lookup => match event {
                ValidatorEvent::Found { principal, hash } => (
                    ValidatorState::Verify { principal: Some(principal) },
                    ValidatorAction::Verify(hash),
                ),
                ValidatorEvent::Missing => (
                    ValidatorState::Verify { principal: None },
                    ValidatorAction::Verify(HashString::from_str(DUMMY_HASH)),
                ),
                ValidatorEvent::StoreFailed => (
                    ValidatorState::Rejected(AuthError::UnexpectedError(Fault::Store)),
                    ValidatorAction::Finish,
                ),
                _ => (protocol_violation(), ValidatorAction::Finish),
            },
            ValidatorState::Verify { principal } => match event {
                ValidatorEvent::Verified(ok) => {
                    let state = match decide(principal, ok) {
                        Ok(accepted) => ValidatorState::Accepted(accepted),
                        Err(e) => ValidatorState::Rejected(e),
                    };
                    (state, ValidatorAction::Finish)
                },
                ValidatorEvent::OffloadFailed => (
                    ValidatorState::Rejected(AuthError::UnexpectedError(Fault::Offload)),
                    ValidatorAction::Finish,
                ),
                _ => (protocol_violation(), ValidatorAction::Finish),
            },
        }
    }

    /// The result, once the validation has ended.
    pub fn outcome(&self) -> (r: Option<Result<i32, AuthError>>)
        ensures
            r == self.result(),
    {
        match self {
            ValidatorState::Accepted(principal) => Some(Ok(*principal)),
            ValidatorState::Rejected(e) => Some(Err(*e)),
            _ => None,
        }
    }
}

/// The state that a sequence of events leads to from the start, and the
/// actions handed out on the way, in order.
pub open spec fn run(events: Seq<ValidatorEventView>) -> (ValidatorState, Seq<ValidatorActionView>)
    decreases events.len(),
{
    if events.len() == 0 {
        (ValidatorState::Start, Seq::<ValidatorActionView>::empty())
    } else {
        let before = run(events.drop_last());
        let after = before.0.next(events.last());
        (after.0, before.1.push(after.1))
    }
}

/// How many of the actions are verifications.
pub open spec fn verifications(actions: Seq<ValidatorActionView>) -> nat
    decreases actions.len(),
{
    if actions.len() == 0 {
        0
    } else if actions.last() is Verify {
        verifications(actions.drop_last()) + 1
    } else {
        verifications(actions.drop_last())
    }
}

/// Whatever the events, a validation asks for at most one verification, and
/// it has asked for exactly one when it accepts a principal or rejects the
/// credentials: an unknown identifier costs the verification that a wrong
/// secret costs. Only a failing store, or an event out of turn, ends a
/// validation without one.
pub proof fn lemma_one_verification_per_decision(events: Seq<ValidatorEventView>)
    ensures
        verifications(run(events).1) <= 1,
        run(events).0 is Start || run(events).0 is Lookup ==> verifications(run(events).1) == 0,
        run(events).0 is Verify || run(events).0 is Accepted || run(events).0
            == ValidatorState::Rejected(AuthError::InvalidCredentials) ==> verifications(
            run(events).1,
        ) == 1,
    decreases events.len(),
{
    if events.len() > 0 {
        lemma_one_verification_per_decision(events.drop_last());
        let before = run(events.drop_last());
        let after = before.0.next(events.last());
        assert(run(events).1.drop_last() =~= before.1);
        assert(run(events).1.last() == after.1);
    }
}

/// The hash that a validation hands out for verification is the stored hash
/// of the identifier, or the dummy hash where the store holds none; and it is
/// handed out on every answer of the store.
pub proof fn lemma_lookup_is_followed_by_verification(found: Option<(i32, Seq<char>)>)
    ensures
        match found {
            Some((principal, hash)) => ValidatorState::Lookup.next(
                ValidatorEventView::Found { principal, hash },
            ) == (
                ValidatorState::Verify { principal: Some(principal) },
                ValidatorActionView::Verify(hash),
            ),
            None => ValidatorState::Lookup.next(ValidatorEventView::Missing) == (
                ValidatorState::Verify { principal: None },
                ValidatorActionView::Verify(DUMMY_HASH@),
            ),
        },
{
}

/// A principal is accepted only out of a verification that succeeded for the
/// principal that the store named.
pub proof fn lemma_accepted_only_after_match(state: ValidatorState, event: ValidatorEventView)
    requires
        !state.terminal(),
        state.next(event).0 is Accepted,
    ensures
        event == ValidatorEventView::Verified(true),
        state.next(event).0 matches ValidatorState::Accepted(principal) && state
            == (ValidatorState::Verify { principal: Some(principal) }),
{
}

/// Where the storing of a new hash stands: at sign-up and at a change of
/// password.
#[derive(Clone, Copy, Debug, PartialEq, Eq, Structural)]
pub enum WriterState {
    /// Nothing was asked yet.
    Start,
    /// The secret is being hashed.
    Hashing,
    /// The store was asked to write the hash.
    Storing,
    /// The hash was written, or would have been had the environment been
    /// durable.
    Written,
    /// The flow ended without a write.
    Failed(AuthError),
}

/// What happened since the last action of a writer.
pub enum WriterEvent {
    /// A secret to store was submitted.
    Submitted,
    /// The secret was hashed.
    Hashed(HashString),
    /// The secret could not be hashed, for this reason.
    HashFailed(AuthError),
    /// The worker could not run the hashing.
    OffloadFailed,
    /// The store answered the write.
    Stored(Result<(), AuthError>),
}

/// What the caller of a writer does next.
pub enum WriterAction {
    /// Hash the submitted secret, on a worker.
    ComputeHash,
    /// Write this hash to the store, as one unit of work.
    Write(HashString),
    /// Nothing: the flow has ended.
    Finish,
}

/// A writer's event as a plain value.
pub enum WriterEventView {
    Submitted,
    Hashed(Seq<char>),
    HashFailed(AuthError),
    OffloadFailed,
    Stored(Result<(), AuthError>),
}

/// A writer's action as a plain value.
pub enum WriterActionView {
    ComputeHash,
    Write(Seq<char>),
    Finish,
}

impl View for WriterEvent {
    type V = WriterEventView;

    open spec fn view(&self) -> WriterEventView {
        match *self {
            WriterEvent::Submitted => WriterEventView::Submitted,
            WriterEvent::Hashed(hash) => WriterEventView::Hashed(hash@),
            WriterEvent::HashFailed(e) => WriterEventView::HashFailed(e),
            WriterEvent::OffloadFailed => WriterEventView::OffloadFailed,
            WriterEvent::Stored(answer) => WriterEventView::Stored(answer),
        }
    }
}

impl View for WriterAction {
    type V = WriterActionView;

    open spec fn view(&self) -> WriterActionView {
        match *self {
            WriterAction::ComputeHash => WriterActionView::ComputeHash,
            WriterAction::Write(hash) => WriterActionView::Write(hash@),
            WriterAction::Finish => WriterActionView::Finish,
        }
    }
}

impl WriterState {
    /// The state after an event, and the action to perform.
    ///
    /// The secret is hashed first, and only a hash is ever written. A failure
    /// to hash ends the flow with that failure and nothing written; the
    /// store's answer to the write is the flow's result.
    pub open spec fn next(self, event: WriterEventView) -> (WriterState, WriterActionView) {
        match (self, event) {
            (WriterState::Written, _) => (self, WriterActionView::Finish),
            (WriterState::Failed(_), _) => (self, WriterActionView::Finish),
            (WriterState::Start, WriterEventView::Submitted) => (
                WriterState::Hashing,
                WriterActionView::ComputeHash,
            ),
            (WriterState::Hashing, WriterEventView::Hashed(hash)) => (
                WriterState::Storing,
                WriterActionView::Write(hash),
            ),
            (WriterState::Hashing, WriterEventView::HashFailed(e)) => (
                WriterState::Failed(e),
                WriterActionView::Finish,
            ),
            (WriterState::Hashing, WriterEventView::OffloadFailed) => (
                WriterState::Failed(AuthError::UnexpectedError(Fault::Offload)),
                WriterActionView::Finish,
            ),
            (WriterState::Storing, WriterEventView::Stored(answer)) => (
                WriterState::ending(answer),
                WriterActionView::Finish,
            ),
            _ => (
                WriterState::Failed(AuthError::UnexpectedError(Fault::Protocol)),
                WriterActionView::Finish,
            ),
        }
    }

    /// The state that ends a flow with the given result.
    pub open spec fn ending(result: Result<(), AuthError>) -> WriterState {
        match result {
            Ok(()) => WriterState::Written,
            Err(e) => WriterState::Failed(e),
        }
    }

    /// The result of a flow that has ended.
    pub open spec fn result(self) -> Option<Result<(), AuthError>> {
        match self {
            WriterState::Written => Some(Ok(())),
            WriterState::Failed(e) => Some(Err(e)),
            _ => None,
        }
    }

    /// A writer before anything was submitted.
    pub fn new() -> (state: Self)
        ensures
            state == WriterState::Start,
    {
        WriterState::Start
    }

    /// Takes one event, and says what to do next.
    pub fn step(self, event: WriterEvent) -> (r: (WriterState, WriterAction))
        ensures
            (r.0, r.1@) == self.next(event@),
    {
        match self {
            WriterState::Written => (self, WriterAction::Finish),
            WriterState::Failed(_) => (self, WriterAction::Finish),
            WriterState::Start => match event {
                WriterEvent::Submitted => (WriterState::Hashing, WriterAction::ComputeHash),
                _ => (writer_violation(), WriterAction::Finish),
            },
            WriterState::Hashing => match event {
                WriterEvent::Hashed(hash) => (WriterState::Storing, WriterAction::Write(hash)),
                WriterEvent::HashFailed(e) => (WriterState::Failed(e), WriterAction::Finish),
                WriterEvent::OffloadFailed => (
                    WriterState::Failed(AuthError::UnexpectedError(Fault::Offload)),
                    WriterAction::Finish,
                ),
                _ => (writer_violation(), WriterAction::Finish),
            },
            WriterState::Storing => match event {
                WriterEvent::Stored(Ok(())) => (WriterState::Written, WriterAction::Finish),
                WriterEvent::Stored(Err(e)) => (WriterState::Failed(e), WriterAction::Finish),
                _ => (writer_violation(), WriterAction::Finish),
            },
        }
    }

    /// The result, once the flow has ended.
    pub fn outcome(&self) -> (r: Option<Result<(), AuthError>>)
        ensures
            r == self.result(),
    {
        match self {
            WriterState::Written => Some(Ok(())),
            WriterState::Failed(e) => Some(Err(*e)),
            _ => None,
        }
    }
}

/// The state that an unexpected event leads a writer to.
fn writer_violation() -> (state: WriterState)
    ensures
        state == WriterState::Failed(AuthError::UnexpectedError(Fault::Protocol)),
{
    WriterState::Failed(AuthError::UnexpectedError(Fault::Protocol))
}

/// The state that an unexpected event leads to.
fn protocol_violation() -> (state: ValidatorState)
    ensures
        state == ValidatorState::Rejected(AuthError::UnexpectedError(Fault::Protocol)),
{
    ValidatorState::Rejected(AuthError::UnexpectedError(Fault::Protocol))
}

} // verus!
