//! Dated entries of a user's diary.

use crate::text::{push_signed_decimal, signed_decimal};
use vstd::prelude::*;
use vstd::string::StringExecFns;

verus! {

/// An entry of a diary.
#[derive(Debug)]
pub struct DiaryEntry {
    pub id: i32,
    pub user_id: i32,
    /// The day of the entry, counted in days of the common era.
    pub entry_date: i32,
    /// When the entry was created, in seconds since the epoch.
    pub created_at: i64,
    /// When the entry was last written, in seconds since the epoch.
    pub updated_at: i64,
    pub notes: String,
}

/// What a user submits for an entry.
#[derive(Debug)]
pub struct DiaryEntryForm {
    /// The moment of the entry, in seconds since the epoch.
    pub entry_date: i64,
    pub notes: String,
}

/// The days between which entries are asked for, both included. Each day is
/// held as the text that the database reads it from.
#[derive(Debug)]
pub struct DateRangeRequest {
    pub start: Option<String>,
    pub end: Option<String>,
}

/// The statement that selects every entry.
pub open spec fn all_entries_statement() -> Seq<char> {
    "SELECT id, user_id, entry_date, created_at, updated_at, notes FROM diary_entries"@
}

/// The statement that selects the entries of a range of days. A range that
/// lacks either of its days selects every entry.
pub open spec fn date_range_statement(start: Option<Seq<char>>, end: Option<Seq<char>>) -> Seq<
    char,
> {
    match (start, end) {
        (Some(first), Some(last)) => all_entries_statement() + " WHERE entry_date BETWEEN '"@
            + first + "' AND '"@ + last + "';"@,
        _ => all_entries_statement(),
    }
}

/// The statement that selects the entries of one user in a range of days. A
/// range that lacks either of its days selects every entry of the user.
pub open spec fn date_range_user_statement(
    start: Option<Seq<char>>,
    end: Option<Seq<char>>,
    user_id: i32,
) -> Seq<char> {
    match (start, end) {
        (Some(first), Some(last)) => all_entries_statement() + " WHERE entry_date BETWEEN '"@
            + first + "' AND '"@ + last + "' AND user_id = "@ + signed_decimal(user_id as int)
            + ";"@,
        _ => all_entries_statement() + " WHERE user_id = "@ + signed_decimal(user_id as int),
    }
}

/// The text of a day as a plain value.
pub open spec fn day_text(day: Option<String>) -> Option<Seq<char>> {
    match day {
        Some(text) => Some(text@),
        None => None,
    }
}

impl DateRangeRequest {
    /// Whether both days of the range are given. A request that lacks either
    /// of them is bounded by neither.
    pub fn is_bounded(&self) -> (b: bool)
        ensures
            b == (self.start is Some && self.end is Some),
    {
        self.start.is_some() && self.end.is_some()
    }

    /// The statement that selects the entries of the range.
    pub fn find_by_date_range_query(&self) -> (statement: String)
        ensures
            statement@ == date_range_statement(day_text(self.start), day_text(self.end)),
    {
        let mut statement = String::from_str(
            "SELECT id, user_id, entry_date, created_at, updated_at, notes FROM diary_entries",
        );
        match (&self.start, &self.end) {
            (Some(first), Some(last)) => {
                statement.append(" WHERE entry_date BETWEEN '");
                statement.append(first.as_str());
                statement.append("' AND '");
                statement.append(last.as_str());
                statement.append("';");
            },
            _ => {},
        }
        statement
    }

    /// The statement that selects the entries of one user in the range.
    pub fn find_by_date_range_user_query(&self, user_id: i32) -> (statement: String)
        ensures
            statement@ == date_range_user_statement(
                day_text(self.start),
                day_text(self.end),
                user_id,
            ),
    {
        let mut statement = String::from_str(
            "SELECT id, user_id, entry_date, created_at, updated_at, notes FROM diary_entries",
        );
        match (&self.start, &self.end) {
            (Some(first), Some(last)) => {
                statement.append(" WHERE entry_date BETWEEN '");
                statement.append(first.as_str());
                statement.append("' AND '");
                statement.append(last.as_str());
                statement.append("' AND user_id = ");
                push_signed_decimal(&mut statement, user_id);
                statement.append(";");
            },
            _ => {
                statement.append(" WHERE user_id = ");
                push_signed_decimal(&mut statement, user_id);
            },
        }
        statement
    }
}

impl DiaryEntry {
    /// Whether the entry was written again after it was created.
    pub open spec fn updated(self) -> bool {
        self.created_at != self.updated_at
    }

    /// Whether the entry was written again after it was created.
    pub fn was_updated(&self) -> (b: bool)
        ensures
            b == self.updated(),
    {
        self.created_at != self.updated_at
    }

    /// A second copy of the entry.
    pub fn duplicate(&self) -> (entry: Self)
        ensures
            entry == *self,
    {
        DiaryEntry {
            id: self.id,
            user_id: self.user_id,
            entry_date: self.entry_date,
            created_at: self.created_at,
            updated_at: self.updated_at,
            notes: self.notes.clone(),
        }
    }
}

/// The test that an entry was written again after it was created.
pub open spec fn is_updated() -> spec_fn(DiaryEntry) -> bool {
    |entry: DiaryEntry| entry.updated()
}

/// Of the given entries, in their order, those that were written again after
/// they were created.
pub fn updated_entries(entries: &Vec<DiaryEntry>) -> (kept: Vec<DiaryEntry>)
    ensures
        kept@ == entries@.filter(is_updated()),
{
    let mut kept: Vec<DiaryEntry> = Vec::new();
    let mut i: usize = 0;
    proof {
        reveal(Seq::filter);
    }
    while i < entries.len()
        invariant
            0 <= i <= entries.len(),
            kept@ == entries@.take(i as int).filter(is_updated()),
        decreases entries.len() - i,
    {
        let ghost next = entries@.take(i + 1);
        if entries[i].was_updated() {
            kept.push(entries[i].duplicate());
        }
        proof {
            reveal(Seq::filter);
            assert(next.drop_last() =~= entries@.take(i as int));
            assert(next.last() == entries@[i as int]);
            assert(kept@ =~= next.filter(is_updated()));
        }
        i += 1;
    }
    assert(entries@.take(i as int) =~= entries@);
    kept
}

} // verus!
