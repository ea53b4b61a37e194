//! Which skills an entry is tagged with.

use vstd::prelude::*;

verus! {

/// The tag of one entry with one skill.
#[derive(Debug)]
pub struct DiaryEntrySkills {
    pub diary_entry_id: i32,
    pub skills_id: i32,
    /// When the tag was created, in seconds since the epoch.
    pub created_at: i64,
}

} // verus!
