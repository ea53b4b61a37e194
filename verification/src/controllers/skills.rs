//! Entering a skill by hand.

use vstd::prelude::*;

verus! {

/// What a user submits for a skill.
#[derive(Debug)]
pub struct SkillForm {
    pub name: String,
    pub completed: bool,
}

} // verus!
