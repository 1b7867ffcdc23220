use vstd::prelude::*;

use crate::comparators::{BooleanComparator, ContentComparator, StringComparator};
use crate::encode::{lemma_single_set, single, InputObject};
use crate::filter::{IssueFilter, NullableUserFilter, TeamFilter};
use crate::names::FieldName;
use crate::value::{object_of, ValueModel};

verus! {

impl BooleanComparator {
    /// Matches a field that is true.
    pub fn is_true() -> (r: Self)
        ensures
            r.eq == Some(true),
            r.neq is None,
    {
        Self { eq: Some(true), neq: None }
    }

    /// Matches a field that is false.
    pub fn is_false() -> (r: Self)
        ensures
            r.eq == Some(false),
            r.neq is None,
    {
        Self { eq: Some(false), neq: None }
    }
}

impl StringComparator {
    /// Matches a text equal to `value`, with no other operator set.
    pub fn eq(value: String) -> (r: Self)
        ensures
            r.eq == Some(value),
            object_of(r.slots()) == single(FieldName::Eq, ValueModel::Str(value@)),
    {
        let r = Self { eq: Some(value), ..Self::default() };
        proof {
            lemma_single_set(r.slots(), 0);
        }
        r
    }
}

impl NullableUserFilter {
    /// Matches a user by name.
    pub fn username(name: String) -> (r: Self)
        ensures
            r.name matches Some(c) && c.eq == Some(name),
            object_of(r.slots()) == single(
                FieldName::Name,
                single(FieldName::Eq, ValueModel::Str(name@)),
            ),
    {
        let r = Self { name: Some(StringComparator::eq(name)), ..Self::default() };
        proof {
            lemma_single_set(r.slots(), 3);
        }
        r
    }

    /// Matches the user whose token makes the request.
    pub fn me() -> (r: Self)
        ensures
            r.is_me matches Some(c) && c.eq == Some(true) && c.neq is None,
            r.name is None,
            object_of(r.slots()) == single(
                FieldName::IsMe,
                single(FieldName::Eq, ValueModel::Boolean(true)),
            ),
    {
        let c = BooleanComparator::is_true();
        proof {
            lemma_single_set(c.slots(), 0);
        }
        let r = Self { is_me: Some(c), ..Self::default() };
        proof {
            lemma_single_set(r.slots(), 8);
        }
        r
    }
}

/// The written form of a filter on the user in field `k` by name.
pub open spec fn user_name_model(k: FieldName, name: Seq<char>) -> ValueModel {
    single(k, single(FieldName::Name, single(FieldName::Eq, ValueModel::Str(name))))
}

/// The written form of a filter on the user in field `k` being the caller.
pub open spec fn user_me_model(k: FieldName) -> ValueModel {
    single(k, single(FieldName::IsMe, single(FieldName::Eq, ValueModel::Boolean(true))))
}

impl IssueFilter {
    /// A filter whose `and` holds `filters`, with no other field set.
    pub open spec fn spec_new_and(filters: Vec<IssueFilter>) -> IssueFilter {
        IssueFilter {
            id: None,
            created_at: None,
            updated_at: None,
            number: None,
            title: None,
            description: None,
            priority: None,
            estimate: None,
            started_at: None,
            triaged_at: None,
            completed_at: None,
            canceled_at: None,
            auto_closed_at: None,
            auto_archived_at: None,
            due_date: None,
            snoozed_until_at: None,
            assignee: None,
            creator: None,
            team: None,
            state: None,
            searchable_content: None,
            and: Some(filters),
            or: None,
        }
    }

    /// Combines filters that must all match.
    pub fn new_and(filters: Vec<Self>) -> (r: Self)
        ensures
            r == Self::spec_new_and(filters),
    {
        Self { and: Some(filters), ..Self::default() }
    }

    /// Issues created by the user with this name.
    pub fn creator_username(name: String) -> (r: Self)
        ensures
            r.creator matches Some(u) && u.name matches Some(c) && c.eq == Some(name),
            object_of(r.slots()) == user_name_model(FieldName::Creator, name@),
    {
        let u = NullableUserFilter::username(name);
        let r = Self { creator: Some(u), ..Self::default() };
        proof {
            lemma_single_set(r.slots(), 17);
        }
        r
    }

    /// Issues assigned to the user with this name.
    pub fn assignee_username(name: String) -> (r: Self)
        ensures
            r.assignee matches Some(u) && u.name matches Some(c) && c.eq == Some(name),
            object_of(r.slots()) == user_name_model(FieldName::Assignee, name@),
    {
        let u = NullableUserFilter::username(name);
        let r = Self { assignee: Some(u), ..Self::default() };
        proof {
            lemma_single_set(r.slots(), 16);
        }
        r
    }

    /// Issues assigned to the user whose token makes the request.
    pub fn assignee_me() -> (r: Self)
        ensures
            r.assignee matches Some(u) && u.name is None && (u.is_me matches Some(c) && c.eq
                == Some(true)),
            object_of(r.slots()) == user_me_model(FieldName::Assignee),
    {
        let u = NullableUserFilter::me();
        let r = Self { assignee: Some(u), ..Self::default() };
        proof {
            lemma_single_set(r.slots(), 16);
        }
        r
    }

    /// Issues of the team with this key.
    pub fn team_key(key: String) -> (r: Self)
        ensures
            r.team matches Some(t) && t.key matches Some(c) && c.eq == Some(key),
            object_of(r.slots()) == single(
                FieldName::Team,
                single(FieldName::Key, single(FieldName::Eq, ValueModel::Str(key@))),
            ),
    {
        let t = TeamFilter { key: Some(StringComparator::eq(key)), ..TeamFilter::default() };
        proof {
            lemma_single_set(t.slots(), 4);
        }
        let r = Self { team: Some(t), ..Self::default() };
        proof {
            lemma_single_set(r.slots(), 18);
        }
        r
    }

    /// Issues whose searchable content contains `term`.
    pub fn search(term: String) -> (r: Self)
        ensures
            r.searchable_content matches Some(c) && c.contains == Some(term) && c.not_contains is None,
            object_of(r.slots()) == single(
                FieldName::SearchableContent,
                single(FieldName::Contains, ValueModel::Str(term@)),
            ),
    {
        let c = ContentComparator { contains: Some(term), not_contains: None };
        proof {
            lemma_single_set(c.slots(), 0);
        }
        let r = Self { searchable_content: Some(c), ..Self::default() };
        proof {
            lemma_single_set(r.slots(), 20);
        }
        r
    }
}

} // verus!
