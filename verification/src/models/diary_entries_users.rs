//! Which user an entry belongs to.

use vstd::prelude::*;

verus! {

/// The link of one entry to its user.
#[derive(Debug)]
pub struct DiaryEntryUser {
    pub diary_entry_id: i32,
    pub user_id: i32,
    /// When the link was created, in seconds since the epoch.
    pub created_at: i64,
}

} // verus!
