//! Signing up, logging in and changing a password.

use crate::configuration::AppData;
use crate::controllers::{LoginForm, SignupForm};
use crate::models::hasher::{
    phc_matches, HashParams, HashString, SecretHasher, MAX_SECRET_CHARS,
};
use crate::models::secret::PendingSecret;
use crate::models::store::{Record, StoreView};
use crate::models::validator::{
    decision, lemma_one_verification_per_decision, run, verifications, ValidatorAction,
    ValidatorActionView, ValidatorEvent, ValidatorEventView, ValidatorState, WriterAction,
    WriterEvent, WriterEventView, WriterState, DUMMY_HASH,
};
use vstd::prelude::*;
use vstd::string::StringExecFns;

verus! {

/// What went wrong below the credential rules. Kept for diagnostics; a caller
/// never shows it to the user.
#[derive(Clone, Copy, Debug, PartialEq, Eq, Structural)]
pub enum Fault {
    /// The cost parameters of the hasher are not ones the algorithm accepts.
    Configuration,
    /// The hashing function itself reported an error.
    Hashing,
    /// The worker that should have run the hashing could not run it.
    Offload,
    /// The store could not carry out the operation.
    Store,
    /// The store holds no credential for the principal.
    UnknownPrincipal,
    /// The session could not take the principal.
    Session,
    /// A step was reported that the flow was not waiting for.
    Protocol,
}

/// Why a request was turned down.
#[derive(Clone, Copy, Debug, PartialEq, Eq, Structural)]
pub enum AuthError {
    /// The identifier is unknown or the secret does not match. The two are
    /// deliberately one kind.
    InvalidCredentials,
    /// The identifier is already registered.
    Conflict,
    /// Anything unrelated to the credential itself.
    UnexpectedError(Fault),
}

impl Fault {
    /// What the fault is called in diagnostics.
    pub open spec fn description(self) -> Seq<char> {
        match self {
            Fault::Configuration => "Failed to construct the hashing parameters."@,
            Fault::Hashing => "Failed to hash password"@,
            Fault::Offload => "Failed to spawn blocking task."@,
            Fault::Store => "Failed to perform a query on the stored credentials."@,
            Fault::UnknownPrincipal => "No credential is stored for the user."@,
            Fault::Session => "Failed to store the user in the session."@,
            Fault::Protocol => "A step was reported out of turn."@,
        }
    }

    /// What the fault is called in diagnostics.
    pub fn message(&self) -> (text: String)
        ensures
            text@ == self.description(),
    {
        match self {
            Fault::Configuration => String::from_str("Failed to construct the hashing parameters."),
            Fault::Hashing => String::from_str("Failed to hash password"),
            Fault::Offload => String::from_str("Failed to spawn blocking task."),
            Fault::Store => String::from_str("Failed to perform a query on the stored credentials."),
            Fault::UnknownPrincipal => String::from_str("No credential is stored for the user."),
            Fault::Session => String::from_str("Failed to store the user in the session."),
            Fault::Protocol => String::from_str("A step was reported out of turn."),
        }
    }
}

impl AuthError {
    /// What the error says of itself. An unexpected error says what its fault
    /// says.
    pub open spec fn description(self) -> Seq<char> {
        match self {
            AuthError::InvalidCredentials => "Invalid credentials."@,
            AuthError::Conflict => "The identifier is already registered."@,
            AuthError::UnexpectedError(fault) => fault.description(),
        }
    }

    /// What the error says of itself.
    pub fn message(&self) -> (text: String)
        ensures
            text@ == self.description(),
    {
        match self {
            AuthError::InvalidCredentials => String::from_str("Invalid credentials."),
            AuthError::Conflict => String::from_str("The identifier is already registered."),
            AuthError::UnexpectedError(fault) => fault.message(),
        }
    }
}

/// What the store's answer to a lookup is as an event of a validation.
pub open spec fn store_answer(found: Option<Record>) -> ValidatorEventView {
    match found {
        Some(record) => ValidatorEventView::Found {
            principal: record.principal as i32,
            hash: record.hash,
        },
        None => ValidatorEventView::Missing,
    }
}

/// The result of validating a secret against what the store holds under the
/// identifier. The stored hash decides for a known identifier. For an unknown
/// one the secret is held against the dummy hash, and is rejected whatever
/// comes of it.
pub open spec fn validation_result(found: Option<Record>, secret: Seq<char>) -> Result<
    i32,
    AuthError,
> {
    match found {
        Some(record) => decision(Some(record.principal as i32), phc_matches(record.hash, secret)),
        None => decision(None, phc_matches(DUMMY_HASH@, secret)),
    }
}

/// The hash that a secret is verified against: the stored one, or the dummy
/// hash where the store holds none.
pub open spec fn hash_to_verify(found: Option<Record>) -> Seq<char> {
    match found {
        Some(record) => record.hash,
        None => DUMMY_HASH@,
    }
}

/// What happens in the course of a validation, given what the store holds
/// under the identifier: the submission, the store's answer, and the outcome
/// of verifying the secret against the hash to verify.
pub open spec fn validation_events(found: Option<Record>, secret: Seq<char>) -> Seq<
    ValidatorEventView,
> {
    seq![
        ValidatorEventView::Submitted,
        store_answer(found),
        ValidatorEventView::Verified(phc_matches(hash_to_verify(found), secret)),
    ]
}

/// The result of a validation is where the flow ends on the events of that
/// validation, and on the way the flow asks for the store once and for one
/// verification, of the stored hash or of the dummy hash: the same actions
/// whether the identifier is known or not.
pub proof fn lemma_validation_is_one_run(found: Option<Record>, secret: Seq<char>)
    ensures
        run(validation_events(found, secret)).0 == ValidatorState::ending(
            validation_result(found, secret),
        ),
        run(validation_events(found, secret)).1 == seq![
            ValidatorActionView::QueryStore,
            ValidatorActionView::Verify(hash_to_verify(found)),
            ValidatorActionView::Finish,
        ],
        verifications(run(validation_events(found, secret)).1) == 1,
{
    let events = validation_events(found, secret);
    let none = Seq::<ValidatorEventView>::empty();
    let one = seq![ValidatorEventView::Submitted];
    let two = seq![ValidatorEventView::Submitted, store_answer(found)];
    assert(one.drop_last() =~= none);
    assert(two.drop_last() =~= one);
    assert(events.drop_last() =~= two);
    assert(run(none).0 == ValidatorState::Start);
    assert(run(one).0 == ValidatorState::Lookup);
    assert(run(two).0 is Verify);
    assert(run(events).1 =~= seq![
        ValidatorActionView::QueryStore,
        ValidatorActionView::Verify(hash_to_verify(found)),
        ValidatorActionView::Finish,
    ]);
    lemma_one_verification_per_decision(events);
}

/// How many steps a validation in this state is from its end, at most.
pub open spec fn validator_steps_left(state: ValidatorState) -> nat {
    match state {
        ValidatorState::Start => 3,
        ValidatorState::Lookup => 2,
        ValidatorState::Verify { .. } => 1,
        _ => 0,
    }
}

/// How many steps a writer in this state is from its end, at most.
pub open spec fn writer_steps_left(state: WriterState) -> nat {
    match state {
        WriterState::Start => 3,
        WriterState::Hashing => 2,
        WriterState::Storing => 1,
        _ => 0,
    }
}

/// The events as plain values.
pub open spec fn event_views(events: Seq<ValidatorEvent>) -> Seq<ValidatorEventView> {
    Seq::new(events.len(), |i: int| events[i]@)
}

/// The actions as plain values.
pub open spec fn action_views(actions: Seq<ValidatorAction>) -> Seq<ValidatorActionView> {
    Seq::new(actions.len(), |i: int| actions[i]@)
}

/// A validation with everything that happened in its course.
pub struct ValidationTrace {
    /// The accepted principal, or why the credentials were rejected.
    pub result: Result<i32, AuthError>,
    /// What happened, in order: the submission, the store's answer, and what
    /// the verification came to.
    pub events: Vec<ValidatorEvent>,
    /// What was done, in order.
    pub actions: Vec<ValidatorAction>,
}

/// Validates a submitted identifier and secret against the store, and hands
/// back what it did on the way.
///
/// The store is asked once and the secret is verified once, against the
/// stored hash or, where the store holds none, against the dummy hash; the
/// events hold what that verification came to. The store is only read.
pub fn trace_validation(config: &AppData, login_data: LoginForm) -> (trace: ValidationTrace)
    ensures
        trace.result == validate(config.store@, login_data.email@, login_data.password@).1,
        event_views(trace.events@) == validation_events(
            config.store@.lookup(login_data.email@),
            login_data.password@,
        ),
        action_views(trace.actions@) == run(
            validation_events(config.store@.lookup(login_data.email@), login_data.password@),
        ).1,
        action_views(trace.actions@) == seq![
            ValidatorActionView::QueryStore,
            ValidatorActionView::Verify(hash_to_verify(config.store@.lookup(login_data.email@))),
            ValidatorActionView::Finish,
        ],
{
    let mut state = ValidatorState::new();
    let mut event = ValidatorEvent::Submitted;
    let mut events: Vec<ValidatorEvent> = Vec::new();
    let mut actions: Vec<ValidatorAction> = Vec::new();
    let ghost found = config.store@.lookup(login_data.email@);
    let ghost all = validation_events(found, login_data.password@);
    proof {
        assert(event_views(events@) =~= all.take(0));
        assert(action_views(actions@) =~= run(all.take(0)).1);
    }
    loop
        invariant
            found == config.store@.lookup(login_data.email@),
            all == validation_events(found, login_data.password@),
            0 <= events@.len() < 3,
            event_views(events@) == all.take(events@.len() as int),
            event@ == all[events@.len() as int],
            run(event_views(events@)) == (state, action_views(actions@)),
            validator_steps_left(state) == 3 - events@.len(),
        decreases validator_steps_left(state),
    {
        let ghost seen = event_views(events@);
        let ghost done = action_views(actions@);
        events.push(event.duplicate());
        let (next, action) = state.step(event);
        actions.push(action.duplicate());
        proof {
            assert(event_views(events@) =~= seen.push(event@));
            assert(event_views(events@).drop_last() =~= seen);
            assert(event_views(events@) =~= all.take(events@.len() as int));
            assert(action_views(actions@) =~= done.push(action@));
            assert(run(event_views(events@)) == (next, action_views(actions@)));
        }
        state = next;
        match action {
            ValidatorAction::QueryStore => {
                event =
                match config.store.lookup(login_data.email.as_str()) {
                    Some((principal, hash)) => ValidatorEvent::Found { principal, hash },
                    None => ValidatorEvent::Missing,
                };
            },
            ValidatorAction::Verify(hash) => {
                event =
                ValidatorEvent::Verified(
                    SecretHasher::verify_password_hash(&hash, &login_data.password),
                );
            },
            ValidatorAction::Finish => {
                proof {
                    lemma_validation_is_one_run(found, login_data.password@);
                    assert(all.take(3) =~= all);
                }
                let result = match state.outcome() {
                    Some(result) => result,
                    None => Err(AuthError::UnexpectedError(Fault::Protocol)),
                };
                return ValidationTrace { result, events, actions };
            },
        }
    }
}

/// Validates a submitted identifier and secret against the store.
///
/// The principal of the identifier is accepted if its stored hash accepts the
/// secret. An unknown identifier and a wrong secret are rejected alike, and
/// after the same work: one verification, against the stored hash or against
/// the dummy hash. The store is only read.
pub fn validate_credentials(config: &AppData, login_data: LoginForm) -> (r: Result<i32, AuthError>)
    ensures
        r == validate(config.store@, login_data.email@, login_data.password@).1,
{
    trace_validation(config, login_data).result
}

/// What a writer asks the store to do with the hash it computed.
pub enum Write {
    /// Create a credential under this identifier, for a user of this name.
    Create { email: String, name: String },
    /// Replace the hash of this principal.
    Update { user_id: i32 },
}

/// A write as a plain value.
pub enum WriteView {
    Create { email: Seq<char>, name: Seq<char> },
    Update { principal: int },
}

impl View for Write {
    type V = WriteView;

    open spec fn view(&self) -> WriteView {
        match *self {
            Write::Create { email, name } => WriteView::Create { email: email@, name: name@ },
            Write::Update { user_id } => WriteView::Update { principal: user_id as int },
        }
    }
}

/// What the store answers to a write and leaves behind.
pub open spec fn written(before: StoreView, write: WriteView, hash: Seq<char>) -> (
    StoreView,
    Result<(), AuthError>,
) {
    match write {
        WriteView::Create { email, name } => before.create(email, name, hash),
        WriteView::Update { principal } => before.update_hash(principal, hash),
    }
}

/// What hashing a secret and writing the hash answers and leaves behind.
///
/// Cost parameters that the hashing function does not accept are a
/// configuration fault, and the store is left alone. Otherwise the secret is
/// hashed under those parameters and the store is asked to write the hash,
/// and answers. Only a secret of more than `MAX_SECRET_CHARS` characters may
/// instead be a fault of the hashing, which leaves the store alone too.
pub open spec fn write_outcome(
    before: StoreView,
    params: HashParams,
    write: WriteView,
    secret: Seq<char>,
    after: StoreView,
    r: Result<(), AuthError>,
) -> bool {
    if !params.valid() {
        after == before && r == Err::<(), AuthError>(AuthError::UnexpectedError(Fault::Configuration))
    } else {
        ||| secret.len() > MAX_SECRET_CHARS && after == before && r == Err::<(), AuthError>(
            AuthError::UnexpectedError(Fault::Hashing),
        )
        ||| exists|hash: Seq<char>|
            #[trigger] params.hashed(hash, secret) && (after, r) == written(before, write, hash)
    }
}

/// What a sign-up answers and leaves behind: the secret is hashed, and the
/// store is asked to create the credential with that hash.
pub open spec fn signup_outcome(
    before: StoreView,
    params: HashParams,
    email: Seq<char>,
    name: Seq<char>,
    secret: Seq<char>,
    after: StoreView,
    r: Result<(), AuthError>,
) -> bool {
    write_outcome(before, params, WriteView::Create { email, name }, secret, after, r)
}

/// What a change of password answers and leaves behind: the new secret is
/// hashed, and the store is asked to replace the hash of the principal.
pub open spec fn change_outcome(
    before: StoreView,
    params: HashParams,
    principal: int,
    secret: Seq<char>,
    after: StoreView,
    r: Result<(), AuthError>,
) -> bool {
    write_outcome(before, params, WriteView::Update { principal }, secret, after, r)
}

/// What a writer is told once the hashing has run.
fn hashing_event(hashed: Result<HashString, AuthError>) -> (event: WriterEvent)
    ensures
        event@ == match hashed {
            Ok(hash) => WriterEventView::Hashed(hash@),
            Err(e) => WriterEventView::HashFailed(e),
        },
{
    match hashed {
        Ok(hash) => WriterEvent::Hashed(hash),
        Err(e) => WriterEvent::HashFailed(e),
    }
}

/// Asks the store to write the hash.
fn store_hash(write: &Write, hash: HashString, config: &mut AppData) -> (r: Result<(), AuthError>)
    ensures
        final(config).env == old(config).env,
        final(config).db_name == old(config).db_name,
        final(config).hasher == old(config).hasher,
        final(config).store@.wf(),
        (final(config).store@, r) == written(old(config).store@, write@, hash@),
{
    match write {
        Write::Create { email, name } => config.store.create(email.as_str(), name.as_str(), hash),
        Write::Update { user_id } => config.store.update_hash(*user_id, hash),
    }
}

/// Hashes the secret, then asks the store to write the hash, as one unit of
/// work.
fn write_hash(write: &Write, secret: &PendingSecret, config: &mut AppData) -> (r: Result<
    (),
    AuthError,
>)
    ensures
        final(config).env == old(config).env,
        final(config).db_name == old(config).db_name,
        final(config).hasher == old(config).hasher,
        final(config).store@.wf(),
        write_outcome(
            old(config).store@,
            old(config).hasher.params,
            write@,
            secret@,
            final(config).store@,
            r,
        ),
{
    let ghost before = config.store@;
    let ghost params = config.hasher.params;
    let ghost mut stored: Seq<char> = Seq::empty();
    proof {
        use_type_invariant(&config.store);
    }
    let mut state = WriterState::new();
    let mut event = WriterEvent::Submitted;
    loop
        invariant
            config.env == old(config).env,
            config.db_name == old(config).db_name,
            config.hasher == old(config).hasher,
            params == config.hasher.params,
            before == old(config).store@,
            config.store@.wf(),
            match state {
                WriterState::Start => event@ == WriterEventView::Submitted && config.store@
                    == before,
                WriterState::Hashing => config.store@ == before && match event@ {
                    WriterEventView::Hashed(hash) => params.valid() && params.hashed(
                        hash,
                        secret@,
                    ),
                    WriterEventView::HashFailed(e) => if params.valid() {
                        e == AuthError::UnexpectedError(Fault::Hashing) && secret@.len()
                            > MAX_SECRET_CHARS
                    } else {
                        e == AuthError::UnexpectedError(Fault::Configuration)
                    },
                    _ => false,
                },
                WriterState::Storing => {
                    &&& params.valid()
                    &&& params.hashed(stored, secret@)
                    &&& event@ matches WriterEventView::Stored(answer)
                    &&& (config.store@, answer) == written(before, write@, stored)
                },
                _ => false,
            },
        decreases writer_steps_left(state),
    {
        let (next, action) = state.step(event);
        state = next;
        match action {
            WriterAction::ComputeHash => {
                event = hashing_event(config.hasher.compute_password_hash(secret));
            },
            WriterAction::Write(hash) => {
                proof {
                    stored = hash@;
                }
                event = WriterEvent::Stored(store_hash(write, hash, config));
            },
            WriterAction::Finish => {
                return match state.outcome() {
                    Some(result) => result,
                    None => Err(AuthError::UnexpectedError(Fault::Protocol)),
                };
            },
        }
    }
}

/// Signs a user up: hashes the secret, then stores the credential under the
/// identifier, as one unit of work.
///
/// With cost parameters that the hashing function accepts and a secret of at
/// most `MAX_SECRET_CHARS` characters, the store is asked and its answer is
/// the result: a conflict for an identifier that is taken, else the new
/// credential, whose hash names the cost parameters and accepts the secret.
/// Nothing but the store changes.
pub fn create_user(user: SignupForm, config: &mut AppData) -> (r: Result<(), AuthError>)
    ensures
        final(config).env == old(config).env,
        final(config).db_name == old(config).db_name,
        final(config).hasher == old(config).hasher,
        final(config).store@.wf(),
        signup_outcome(
            old(config).store@,
            old(config).hasher.params,
            user.email@,
            user.name@,
            user.password@,
            final(config).store@,
            r,
        ),
        old(config).hasher.params.valid() && user.password@.len() <= MAX_SECRET_CHARS ==> (r
            is Ok <==> !old(config).store@.holds(user.email@) && old(config).store@.next_id
            < i32::MAX),
        old(config).hasher.params.valid() && user.password@.len() <= MAX_SECRET_CHARS && old(
            config,
        ).store@.holds(user.email@) ==> r == Err::<(), AuthError>(AuthError::Conflict),
{
    let write = Write::Create { email: user.email, name: user.name };
    write_hash(&write, &user.password, config)
}

/// Changes the password of a principal: hashes the new secret, then replaces
/// the stored hash, as one unit of work.
///
/// With cost parameters that the hashing function accepts and a secret of at
/// most `MAX_SECRET_CHARS` characters, the store is asked and its answer is
/// the result: a fault for a principal without a credential, else the
/// credential with its new hash. Nothing but the store changes.
pub fn change_password(user_id: i32, password: PendingSecret, config: &mut AppData) -> (r: Result<
    (),
    AuthError,
>)
    ensures
        final(config).env == old(config).env,
        final(config).db_name == old(config).db_name,
        final(config).hasher == old(config).hasher,
        final(config).store@.wf(),
        change_outcome(
            old(config).store@,
            old(config).hasher.params,
            user_id as int,
            password@,
            final(config).store@,
            r,
        ),
        old(config).hasher.params.valid() && password@.len() <= MAX_SECRET_CHARS ==> (r is Ok
            <==> old(config).store@.knows(user_id as int)),
{
    let write = Write::Update { user_id };
    write_hash(&write, &password, config)
}

/// The name of a principal. A principal without a credential is a fault.
pub fn get_name(user_id: i32, config: &AppData) -> (r: Result<String, AuthError>)
    ensures
        match r {
            Ok(name) => config.store@.credential_of(user_id as int) matches Some(record)
                && record.name == name@,
            Err(e) => config.store@.credential_of(user_id as int) is None && e
                == AuthError::UnexpectedError(Fault::UnknownPrincipal),
        },
{
    config.store.get_name(user_id)
}

/// What a validation answers and leaves behind: the store as it was.
pub open spec fn validate(s: StoreView, identifier: Seq<char>, secret: Seq<char>) -> (
    StoreView,
    Result<i32, AuthError>,
) {
    (s, validation_result(s.lookup(identifier), secret))
}

/// An identifier that the store does not hold is rejected as invalid
/// credentials, whatever the secret, and whatever the dummy hash makes of it.
pub proof fn lemma_unknown_identifier_is_rejected(
    s: StoreView,
    identifier: Seq<char>,
    secret: Seq<char>,
)
    requires
        !s.holds(identifier),
    ensures
        validate(s, identifier, secret).1 == Err::<i32, AuthError>(AuthError::InvalidCredentials),
{
}

/// A known identifier with a secret that its hash does not accept is rejected
/// exactly as an unknown identifier is.
pub proof fn lemma_wrong_secret_is_rejected_alike(
    s: StoreView,
    known: Seq<char>,
    unknown: Seq<char>,
    secret: Seq<char>,
    other: Seq<char>,
)
    requires
        s.lookup(known) matches Some(record) && !phc_matches(record.hash, secret),
        !s.holds(unknown),
    ensures
        validate(s, known, secret).1 == validate(s, unknown, other).1,
{
}

/// After a sign-up that succeeded in a durable environment, validating the
/// identifier with the secret it was signed up with accepts the principal
/// that the sign-up issued.
///
/// `hash` stands for the hash that the sign-up computed: all that is known of
/// it is that it accepts the secret.
pub proof fn lemma_signup_then_validate(
    s: StoreView,
    identifier: Seq<char>,
    name: Seq<char>,
    hash: Seq<char>,
    secret: Seq<char>,
)
    requires
        s.wf(),
        s.durable(),
        phc_matches(hash, secret),
        s.create(identifier, name, hash).1 is Ok,
    ensures
        validate(s.create(identifier, name, hash).0, identifier, secret).1 == Ok::<i32, AuthError>(
            s.next_id as i32,
        ),
        !s.knows(s.next_id),
{
    let after = s.with_credential(identifier, name, hash);
    crate::models::store::lemma_with_credential_wf(s, identifier, name, hash);
    let last = after.records.len() - 1;
    assert(after.records[last].identifier == identifier);
    crate::models::store::lemma_lookup_finds(after, last);
}

/// A second sign-up under an identifier that a first one took is a conflict,
/// and leaves the store, the first credential with it, as the first sign-up
/// left it.
pub proof fn lemma_second_signup_conflicts(
    s: StoreView,
    identifier: Seq<char>,
    name: Seq<char>,
    hash: Seq<char>,
    second_name: Seq<char>,
    second_hash: Seq<char>,
)
    requires
        s.wf(),
        s.durable(),
        s.create(identifier, name, hash).1 is Ok,
    ensures
        s.create(identifier, name, hash).0.create(identifier, second_name, second_hash) == (
            s.create(identifier, name, hash).0,
            Err::<(), AuthError>(AuthError::Conflict),
        ),
{
    let after = s.with_credential(identifier, name, hash);
    let last = after.records.len() - 1;
    assert(after.records[last].identifier == identifier);
}

/// In a durable environment, what is looked up under a principal's
/// identifier after its hash was replaced is the credential it had, with the
/// new hash.
pub proof fn lemma_changed_hash_is_looked_up(
    s: StoreView,
    identifier: Seq<char>,
    principal: int,
    hash: Seq<char>,
)
    requires
        s.wf(),
        s.durable(),
        s.lookup(identifier) matches Some(record) && record.principal == principal,
    ensures
        s.knows(principal),
        s.update_hash(principal, hash).0 == s.with_hash(principal, hash),
        s.lookup(identifier) matches Some(record) && s.with_hash(principal, hash).lookup(
            identifier,
        ) == Some(
            Record { principal, identifier, name: record.name, hash },
        ),
{
    let at = choose|i: int|
        0 <= i < s.records.len() && (#[trigger] s.records[i]).identifier == identifier;
    let after = s.with_hash(principal, hash);
    crate::models::store::lemma_with_hash_wf(s, principal, hash);
    assert(s.records[at].principal == principal);
    assert(after.records[at].identifier == identifier);
    crate::models::store::lemma_lookup_finds(after, at);
}

/// A sign-up under a free identifier, with cost parameters that the hashing
/// function accepts and a secret of at most `MAX_SECRET_CHARS` characters,
/// succeeds while the store has a principal left to issue.
pub proof fn lemma_signup_succeeds(
    before: StoreView,
    params: HashParams,
    email: Seq<char>,
    name: Seq<char>,
    secret: Seq<char>,
    after: StoreView,
    r: Result<(), AuthError>,
)
    requires
        params.valid(),
        secret.len() <= MAX_SECRET_CHARS,
        !before.holds(email),
        before.next_id < i32::MAX,
        signup_outcome(before, params, email, name, secret, after, r),
    ensures
        r == Ok::<(), AuthError>(()),
{
}

/// For every identifier and secret that a sign-up stored in a durable
/// environment, validating them right after accepts the principal that the
/// sign-up issued; and the stored hash has the form of a hash, names the
/// cost parameters of the hasher, and accepts the secret.
pub proof fn lemma_signed_up_user_validates(
    before: StoreView,
    params: HashParams,
    email: Seq<char>,
    name: Seq<char>,
    secret: Seq<char>,
    after: StoreView,
)
    requires
        before.wf(),
        before.durable(),
        signup_outcome(before, params, email, name, secret, after, Ok(())),
    ensures
        validate(after, email, secret).1 == Ok::<i32, AuthError>(before.next_id as i32),
        !before.knows(before.next_id),
        after.lookup(email) matches Some(record) && params.hashed(record.hash, secret)
            && record.principal == before.next_id && record.name == name,
{
    let hash = choose|hash: Seq<char>|
        #[trigger] params.hashed(hash, secret) && (after, Ok::<(), AuthError>(())) == written(
            before,
            WriteView::Create { email, name },
            hash,
        );
    lemma_signup_then_validate(before, email, name, hash, secret);
    let last = after.records.len() - 1;
    assert(after.records[last].identifier == email);
    crate::models::store::lemma_with_credential_wf(before, email, name, hash);
    crate::models::store::lemma_lookup_finds(after, last);
}

/// A sign-up under an identifier that an earlier sign-up took in a durable
/// environment never succeeds and leaves the store as the earlier one left
/// it. It is a conflict whenever the second secret is hashed: with cost
/// parameters that the hashing function accepts and a secret of at most
/// `MAX_SECRET_CHARS` characters.
pub proof fn lemma_repeated_signup_conflicts(
    before: StoreView,
    email: Seq<char>,
    first_params: HashParams,
    first_name: Seq<char>,
    first_secret: Seq<char>,
    between: StoreView,
    second_params: HashParams,
    second_name: Seq<char>,
    second_secret: Seq<char>,
    after: StoreView,
    second: Result<(), AuthError>,
)
    requires
        before.wf(),
        before.durable(),
        signup_outcome(before, first_params, email, first_name, first_secret, between, Ok(())),
        signup_outcome(between, second_params, email, second_name, second_secret, after, second),
    ensures
        after == between,
        second is Err,
        second_params.valid() && second_secret.len() <= MAX_SECRET_CHARS ==> second == Err::<
            (),
            AuthError,
        >(AuthError::Conflict),
{
    let hash = choose|hash: Seq<char>|
        #[trigger] first_params.hashed(hash, first_secret) && (between, Ok::<(), AuthError>(()))
            == written(before, WriteView::Create { email, name: first_name }, hash);
    let stored = before.with_credential(email, first_name, hash);
    assert(stored.records[stored.records.len() - 1].identifier == email);
    assert(between.holds(email));
}

/// A change of password for a principal that has a credential, with cost
/// parameters that the hashing function accepts and a secret of at most
/// `MAX_SECRET_CHARS` characters, succeeds.
pub proof fn lemma_change_succeeds(
    before: StoreView,
    params: HashParams,
    principal: int,
    secret: Seq<char>,
    after: StoreView,
    r: Result<(), AuthError>,
)
    requires
        params.valid(),
        secret.len() <= MAX_SECRET_CHARS,
        before.knows(principal),
        change_outcome(before, params, principal, secret, after, r),
    ensures
        r == Ok::<(), AuthError>(()),
{
}

/// After a change of password that succeeded in a durable environment, the
/// stored hash has the form of a hash, names the cost parameters of the
/// hasher and accepts the new secret. Validating the principal's identifier
/// accepts the new secret, and rejects as invalid credentials every secret
/// that the new hash does not accept: the old secret, unless it is the new
/// one or the new hash accepts it too.
pub proof fn lemma_changed_password_validates(
    before: StoreView,
    params: HashParams,
    identifier: Seq<char>,
    principal: int,
    new_secret: Seq<char>,
    old_secret: Seq<char>,
    after: StoreView,
)
    requires
        before.wf(),
        before.durable(),
        before.lookup(identifier) matches Some(record) && record.principal == principal,
        change_outcome(before, params, principal, new_secret, after, Ok(())),
    ensures
        validate(after, identifier, new_secret).1 == Ok::<i32, AuthError>(principal as i32),
        after.lookup(identifier) matches Some(record) && params.hashed(record.hash, new_secret)
            && (!phc_matches(record.hash, old_secret) ==> validate(
            after,
            identifier,
            old_secret,
        ).1 == Err::<i32, AuthError>(AuthError::InvalidCredentials)),
{
    let hash = choose|hash: Seq<char>|
        #[trigger] params.hashed(hash, new_secret) && (after, Ok::<(), AuthError>(())) == written(
            before,
            WriteView::Update { principal },
            hash,
        );
    lemma_changed_hash_is_looked_up(before, identifier, principal, hash);
}

/// Validating reads the store and leaves it as it is, so validating again
/// with the same identifier and secret gives the same result.
pub proof fn lemma_validate_leaves_store(s: StoreView, identifier: Seq<char>, secret: Seq<char>)
    ensures
        validate(s, identifier, secret).0 == s,
        validate(validate(s, identifier, secret).0, identifier, secret) == validate(
            s,
            identifier,
            secret,
        ),
{
}

} // verus!
