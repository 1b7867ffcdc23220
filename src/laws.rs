use vstd::prelude::*;

use crate::encode::Comparator;
use crate::filter::{IssueCollectionFilter, IssueFilter, NullableUserFilter, TeamFilter, WorkflowStateFilter};
use crate::names::FieldName;
use crate::value::{lemma_lookup_written, lookup, names_distinct, object_entries, written, Absent, ValueModel};

verus! {

/// True when each declared field is read back by its name from the written
/// object as what it wrote.
pub open spec fn reads_back(s: Seq<(FieldName, Option<ValueModel>, Absent)>) -> bool {
    forall|i: int| 0 <= i < s.len() ==> lookup(object_entries(s), (#[trigger] s[i]).0) == written(s[i])
}

proof fn lemma_reads_back(s: Seq<(FieldName, Option<ValueModel>, Absent)>)
    requires
        names_distinct(s),
    ensures
        reads_back(s),
{
    assert forall|i: int| 0 <= i < s.len() implies lookup(object_entries(s), (#[trigger] s[i]).0) == written(s[i]) by {
        lemma_lookup_written(s, i);
    }
}

/// Every operator of a comparator is read back by its name from the written
/// object: a set one as its value, an unset one as absent.
pub proof fn lemma_comparator_reads_back<C: Comparator>(c: &C)
    ensures
        reads_back(c.slots()),
{
    c.lemma_omits_unset();
    lemma_reads_back(c.slots());
}

/// Every field of an issue filter, `and` and `or` included, is read back by
/// its name from the written object. Nested filters are written objects of
/// their own kind, read back in the same way, so the whole tree is recovered
/// level by level.
pub proof fn lemma_issue_filter_reads_back(f: IssueFilter)
    ensures
        reads_back(f.slots()),
{
    assert(names_distinct(f.slots()));
    lemma_reads_back(f.slots());
}

/// Every field of a user filter is read back by its name from the written
/// object.
pub proof fn lemma_user_filter_reads_back(f: NullableUserFilter)
    ensures
        reads_back(crate::encode::InputObject::slots(&f)),
{
    assert(names_distinct(crate::encode::InputObject::slots(&f)));
    lemma_reads_back(crate::encode::InputObject::slots(&f));
}

/// Every field of a team filter is read back by its name from the written
/// object.
pub proof fn lemma_team_filter_reads_back(f: TeamFilter)
    ensures
        reads_back(f.slots()),
{
    assert(names_distinct(f.slots()));
    lemma_reads_back(f.slots());
}

/// Every field of a workflow state filter is read back by its name from the
/// written object.
pub proof fn lemma_workflow_state_filter_reads_back(f: WorkflowStateFilter)
    ensures
        reads_back(f.slots()),
{
    assert(names_distinct(f.slots()));
    lemma_reads_back(f.slots());
}

/// Every field of an issue collection filter, `some`, `every` and `length`
/// included, is read back by its name from the written object.
pub proof fn lemma_issue_collection_filter_reads_back(f: IssueCollectionFilter)
    ensures
        reads_back(f.slots()),
{
    assert(names_distinct(f.slots()));
    lemma_reads_back(f.slots());
}

} // verus!
