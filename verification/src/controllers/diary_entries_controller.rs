//! Creating, changing and listing the entries of a diary.

use crate::controllers::{CREATED, INTERNAL_SERVER_ERROR, NOT_FOUND};
use crate::models::diary_entries::{is_updated, updated_entries, DiaryEntry};
use vstd::prelude::*;

verus! {

/// What reading the user out of a session gave.
#[derive(Clone, Copy, Debug, PartialEq, Eq, Structural)]
pub enum SessionRead {
    /// The session holds this user.
    User(i32),
    /// The session holds no user.
    Empty,
    /// The session could not be read.
    Unreadable,
}

/// The user on whose behalf a request for entries runs, or the status that
/// the request is answered with at once: 500 where the session holds no user
/// or cannot be read.
pub fn session_user(read: SessionRead) -> (r: Result<i32, u16>)
    ensures
        r == match read {
            SessionRead::User(user_id) => Ok::<i32, u16>(user_id),
            _ => Err::<i32, u16>(INTERNAL_SERVER_ERROR),
        },
{
    match read {
        SessionRead::User(user_id) => Ok(user_id),
        _ => Err(INTERNAL_SERVER_ERROR),
    }
}

/// The entries that a listing shows, of those that the store returned for the
/// user and the range of days: those that were written again after they were
/// created, in their order.
pub fn index(entries: &Vec<DiaryEntry>) -> (shown: Vec<DiaryEntry>)
    ensures
        shown@ == entries@.filter(is_updated()),
{
    updated_entries(entries)
}

/// Which request for an entry a flow serves.
#[derive(Clone, Copy, Debug, PartialEq, Eq, Structural)]
pub enum EntryRequest {
    /// A new entry is stored.
    Create,
    /// A stored entry is written again, and its tags are replaced.
    Update,
}

/// Where the storing of an entry and its tags stands.
#[derive(Clone, Copy, Debug, PartialEq, Eq, Structural)]
pub enum EntryState {
    /// Nothing was asked yet.
    Start,
    /// The session is being read.
    Session { request: EntryRequest, tagged: bool },
    /// The entry to write again is being looked for.
    Finding { user_id: i32, tagged: bool },
    /// The entry is being stored.
    Saving { request: EntryRequest, tagged: bool },
    /// The tags that the entry had are being deleted.
    Clearing { tagged: bool },
    /// The skills that the form names are being looked for.
    FindingSkills { request: EntryRequest },
    /// One tag is being stored, and this many are still to store, that one
    /// included.
    Tagging { remaining: usize },
    /// The request is answered with this status.
    Done(u16),
}

/// What happened since the last action of a flow for an entry.
#[derive(Clone, Copy, Debug, PartialEq, Eq)]
pub enum EntryEvent {
    /// A form was submitted; `tagged` says whether it names any skill.
    Submitted { request: EntryRequest, tagged: bool },
    /// The session was read.
    Session(SessionRead),
    /// The entry to write again was looked for, and this is whether it is
    /// there.
    Found(bool),
    /// The entry was stored, or could not be.
    Saved(bool),
    /// The old tags were deleted, or could not be.
    Cleared(bool),
    /// This many of the named skills exist; none if they could not be looked
    /// for.
    Skills(Option<usize>),
    /// The next tag was stored, or could not be.
    Tagged(bool),
}

/// What the caller of a flow for an entry does next.
#[derive(Clone, Copy, Debug, PartialEq, Eq, Structural)]
pub enum EntryAction {
    /// Read the user out of the session.
    ReadSession,
    /// Look for the entry that the request names.
    FindEntry,
    /// Store the entry for this user.
    SaveEntry { user_id: i32 },
    /// Delete the tags of the entry.
    ClearTags,
    /// Look for the skills that the form names.
    FindSkills,
    /// Tag the entry with the next of the skills that were found.
    TagNext,
    /// Answer with this status: with the entry where it is 201.
    Reply(u16),
}

impl EntryState {
    /// What follows once the entry is stored and free of old tags: the
    /// answer, if the form names no skill, else the search for its skills.
    pub open spec fn stored(request: EntryRequest, tagged: bool) -> (EntryState, EntryAction) {
        if tagged {
            (EntryState::FindingSkills { request }, EntryAction::FindSkills)
        } else {
            (EntryState::Done(CREATED), EntryAction::Reply(CREATED))
        }
    }

    /// The state in which a flow ends, and the answer it gives.
    pub open spec fn reply(status: u16) -> (EntryState, EntryAction) {
        (EntryState::Done(status), EntryAction::Reply(status))
    }

    /// The state after an event, and the action to perform.
    ///
    /// A session without a user, an entry or a tag that cannot be stored, and
    /// old tags that cannot be deleted are answered with 500. An entry to
    /// write again that is not there is answered with 404, as are skills that
    /// cannot be looked for on behalf of an update; on behalf of a new entry
    /// they are answered with 500. An event that the state was not waiting
    /// for is answered with 500. The request is answered with 201 once the
    /// entry and every tag are stored.
    pub open spec fn next(self, event: EntryEvent) -> (EntryState, EntryAction) {
        match (self, event) {
            (EntryState::Done(status), _) => EntryState::reply(status),
            (EntryState::Start, EntryEvent::Submitted { request, tagged }) => (
                EntryState::Session { request, tagged },
                EntryAction::ReadSession,
            ),
            (
                EntryState::Session { request, tagged },
                EntryEvent::Session(SessionRead::User(user_id)),
            ) => match request {
                EntryRequest::Create => (
                    EntryState::Saving { request, tagged },
                    EntryAction::SaveEntry { user_id },
                ),
                EntryRequest::Update => (
                    EntryState::Finding { user_id, tagged },
                    EntryAction::FindEntry,
                ),
            },
            (EntryState::Finding { user_id, tagged }, EntryEvent::Found(true)) => (
                EntryState::Saving { request: EntryRequest::Update, tagged },
                EntryAction::SaveEntry { user_id },
            ),
            (EntryState::Finding { .. }, EntryEvent::Found(false)) => EntryState::reply(NOT_FOUND),
            (EntryState::Saving { request, tagged }, EntryEvent::Saved(true)) => match request {
                EntryRequest::Create => EntryState::stored(request, tagged),
                EntryRequest::Update => (EntryState::Clearing { tagged }, EntryAction::ClearTags),
            },
            (EntryState::Clearing { tagged }, EntryEvent::Cleared(true)) => EntryState::stored(
                EntryRequest::Update,
                tagged,
            ),
            (EntryState::FindingSkills { .. }, EntryEvent::Skills(Some(found))) => if found == 0 {
                EntryState::reply(CREATED)
            } else {
                (EntryState::Tagging { remaining: found }, EntryAction::TagNext)
            },
            (EntryState::FindingSkills { request }, EntryEvent::Skills(None)) => match request {
                EntryRequest::Create => EntryState::reply(INTERNAL_SERVER_ERROR),
                EntryRequest::Update => EntryState::reply(NOT_FOUND),
            },
            (EntryState::Tagging { remaining }, EntryEvent::Tagged(true)) => if remaining <= 1 {
                EntryState::reply(CREATED)
            } else {
                (
                    EntryState::Tagging { remaining: (remaining - 1) as usize },
                    EntryAction::TagNext,
                )
            },
            _ => EntryState::reply(INTERNAL_SERVER_ERROR),
        }
    }

    /// The state after this many tags were stored in a row.
    pub open spec fn after_tags(self, stored: nat) -> EntryState
        decreases stored,
    {
        if stored == 0 {
            self
        } else {
            self.after_tags((stored - 1) as nat).next(EntryEvent::Tagged(true)).0
        }
    }

    /// A flow before anything was submitted.
    pub fn new() -> (state: Self)
        ensures
            state == EntryState::Start,
    {
        EntryState::Start
    }

    /// Takes one event, and says what to do next.
    pub fn step(self, event: EntryEvent) -> (r: (EntryState, EntryAction))
        ensures
            r == self.next(event),
    {
        match self {
            EntryState::Done(status) => (self, EntryAction::Reply(status)),
            EntryState::Start => match event {
                EntryEvent::Submitted { request, tagged } => (
                    EntryState::Session { request, tagged },
                    EntryAction::ReadSession,
                ),
                _ => answer(INTERNAL_SERVER_ERROR),
            },
            EntryState::Session { request, tagged } => match event {
                EntryEvent::Session(SessionRead::User(user_id)) => match request {
                    EntryRequest::Create => (
                        EntryState::Saving { request, tagged },
                        EntryAction::SaveEntry { user_id },
                    ),
                    EntryRequest::Update => (
                        EntryState::Finding { user_id, tagged },
                        EntryAction::FindEntry,
                    ),
                },
                _ => answer(INTERNAL_SERVER_ERROR),
            },
            EntryState::Finding { user_id, tagged } => match event {
                EntryEvent::Found(true) => (
                    EntryState::Saving { request: EntryRequest::Update, tagged },
                    EntryAction::SaveEntry { user_id },
                ),
                EntryEvent::Found(false) => answer(NOT_FOUND),
                _ => answer(INTERNAL_SERVER_ERROR),
            },
            EntryState::Saving { request, tagged } => match event {
                EntryEvent::Saved(true) => match request {
                    EntryRequest::Create => once_stored(request, tagged),
                    EntryRequest::Update => (EntryState::Clearing { tagged }, EntryAction::ClearTags),
                },
                _ => answer(INTERNAL_SERVER_ERROR),
            },
            EntryState::Clearing { tagged } => match event {
                EntryEvent::Cleared(true) => once_stored(EntryRequest::Update, tagged),
                _ => answer(INTERNAL_SERVER_ERROR),
            },
            EntryState::FindingSkills { request } => match event {
                EntryEvent::Skills(Some(found)) => if found == 0 {
                    answer(CREATED)
                } else {
                    (EntryState::Tagging { remaining: found }, EntryAction::TagNext)
                },
                EntryEvent::Skills(None) => match request {
                    EntryRequest::Create => answer(INTERNAL_SERVER_ERROR),
                    EntryRequest::Update => answer(NOT_FOUND),
                },
                _ => answer(INTERNAL_SERVER_ERROR),
            },
            EntryState::Tagging { remaining } => match event {
                EntryEvent::Tagged(true) => if remaining <= 1 {
                    answer(CREATED)
                } else {
                    (EntryState::Tagging { remaining: remaining - 1 }, EntryAction::TagNext)
                },
                _ => answer(INTERNAL_SERVER_ERROR),
            },
        }
    }

    /// The status of the answer, once the flow has ended.
    pub fn outcome(&self) -> (status: Option<u16>)
        ensures
            status == match *self {
                EntryState::Done(status) => Some(status),
                _ => None::<u16>,
            },
    {
        match self {
            EntryState::Done(status) => Some(*status),
            _ => None,
        }
    }
}

/// The end of a flow with the given status.
fn answer(status: u16) -> (r: (EntryState, EntryAction))
    ensures
        r == EntryState::reply(status),
{
    (EntryState::Done(status), EntryAction::Reply(status))
}

/// What follows once the entry is stored and free of old tags.
fn once_stored(request: EntryRequest, tagged: bool) -> (r: (EntryState, EntryAction))
    ensures
        r == EntryState::stored(request, tagged),
{
    if tagged {
        (EntryState::FindingSkills { request }, EntryAction::FindSkills)
    } else {
        answer(CREATED)
    }
}

/// Whether the event reports that something could not be done.
pub open spec fn is_failure(event: EntryEvent) -> bool {
    match event {
        EntryEvent::Session(SessionRead::Empty) => true,
        EntryEvent::Session(SessionRead::Unreadable) => true,
        EntryEvent::Found(false) => true,
        EntryEvent::Saved(false) => true,
        EntryEvent::Cleared(false) => true,
        EntryEvent::Skills(None) => true,
        EntryEvent::Tagged(false) => true,
        _ => false,
    }
}

/// A flow that has not ended ends on any failure, and with a status that
/// says so: never with 201.
pub proof fn lemma_failure_ends_the_flow(state: EntryState, event: EntryEvent)
    requires
        !(state is Done),
        is_failure(event),
    ensures
        state.next(event).0 matches EntryState::Done(status) && (status == INTERNAL_SERVER_ERROR
            || status == NOT_FOUND),
        state.next(event).1 == EntryAction::Reply(state.next(event).0->Done_0),
{
}

/// When `found` skills were found, the request is answered with 201 after
/// exactly `found` tags were stored: after fewer, that many are still to
/// store.
pub proof fn lemma_every_skill_is_tagged(found: usize, stored: nat)
    requires
        0 < found,
        stored <= found,
    ensures
        (EntryState::Tagging { remaining: found }).after_tags(stored) == if stored < found {
            EntryState::Tagging { remaining: (found - stored) as usize }
        } else {
            EntryState::Done(CREATED)
        },
    decreases stored,
{
    if stored > 0 {
        lemma_every_skill_is_tagged(found, (stored - 1) as nat);
    }
}

} // verus!
