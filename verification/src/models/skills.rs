//! Skills, the categorised attributes that entries are tagged with.

use crate::text::{push_signed_decimal, signed_decimal};
use vstd::prelude::*;
use vstd::string::StringExecFns;

verus! {

/// A skill and the category it belongs to.
#[derive(Debug)]
pub struct Skill {
    pub id: i32,
    pub name: String,
    pub category: String,
}

/// An id as it stands in a statement: its decimal text in single quotes.
pub open spec fn quoted(id: i32) -> Seq<char> {
    "'"@ + signed_decimal(id as int) + "'"@
}

/// The ids as they stand in a statement: each in quotes, a comma and a blank
/// between two of them.
pub open spec fn id_list(ids: Seq<i32>) -> Seq<char>
    decreases ids.len(),
{
    if ids.len() == 0 {
        Seq::<char>::empty()
    } else if ids.len() == 1 {
        quoted(ids[0])
    } else {
        id_list(ids.drop_last()) + ", "@ + quoted(ids.last())
    }
}

/// The statement that selects the skills with the given ids.
pub open spec fn find_by_ids_statement(ids: Seq<i32>) -> Seq<char> {
    "SELECT * from skills WHERE id IN ("@ + id_list(ids) + ");"@
}

impl Skill {
    /// The statement that selects the skills with the given ids.
    pub fn find_by_ids_query(skill_ids: &[i32]) -> (statement: String)
        ensures
            statement@ == find_by_ids_statement(skill_ids@),
    {
        let mut statement = String::from_str("SELECT * from skills WHERE id IN (");
        let ghost head = statement@;
        let mut i: usize = 0;
        while i < skill_ids.len()
            invariant
                0 <= i <= skill_ids.len(),
                head == "SELECT * from skills WHERE id IN ("@,
                statement@ == head + id_list(skill_ids@.take(i as int)),
            decreases skill_ids.len() - i,
        {
            let ghost before = skill_ids@.take(i as int);
            let ghost after = skill_ids@.take(i + 1);
            proof {
                assert(after.drop_last() =~= before);
                assert(after.last() == skill_ids@[i as int]);
            }
            if i > 0 {
                statement.append(", ");
            }
            statement.append("'");
            push_signed_decimal(&mut statement, skill_ids[i]);
            statement.append("'");
            proof {
                if i == 0 {
                    assert(before =~= Seq::<i32>::empty());
                    assert(statement@ =~= head + quoted(skill_ids@[0]));
                } else {
                    assert(statement@ =~= head + (id_list(before) + ", "@ + quoted(
                        skill_ids@[i as int],
                    )));
                }
            }
            i += 1;
        }
        assert(skill_ids@.take(i as int) =~= skill_ids@);
        statement.append(");");
        statement
    }
}

} // verus!
