use vstd::prelude::*;

use crate::comparators::{BooleanComparator, ContentComparator, DateComparator, EstimateComparator, Idcomparator, NullableDateComparator, NullableNumberComparator, NullableStringComparator, NullableTimelessDateComparator, NumberComparator, StringComparator};
use crate::encode::{nested, opt_object, opt_scalar, scalar, InputObject};
use crate::names::FieldName;
use crate::value::{opt_model, items_model, lemma_list_view, object, object_of, slots_model, Absent, InputValue, Slot, ValueModel};

verus! {

broadcast use vstd::std_specs::vec::axiom_vec_index_decreases;

/// A filter on issues. Set fields must all match; `and` adds filters that must all match, `or` filters of which one must match.
#[derive(Debug)]
pub struct IssueFilter {
    pub id: Option<Idcomparator>,
    pub created_at: Option<DateComparator>,
    pub updated_at: Option<DateComparator>,
    pub number: Option<NumberComparator>,
    pub title: Option<StringComparator>,
    pub description: Option<NullableStringComparator>,
    pub priority: Option<NullableNumberComparator>,
    pub estimate: Option<EstimateComparator>,
    pub started_at: Option<NullableDateComparator>,
    pub triaged_at: Option<NullableDateComparator>,
    pub completed_at: Option<NullableDateComparator>,
    pub canceled_at: Option<NullableDateComparator>,
    pub auto_closed_at: Option<NullableDateComparator>,
    pub auto_archived_at: Option<NullableDateComparator>,
    pub due_date: Option<NullableTimelessDateComparator>,
    pub snoozed_until_at: Option<NullableDateComparator>,
    pub assignee: Option<NullableUserFilter>,
    pub creator: Option<NullableUserFilter>,
    pub team: Option<TeamFilter>,
    pub state: Option<WorkflowStateFilter>,
    pub searchable_content: Option<ContentComparator>,
    pub and: Option<Vec<IssueFilter>>,
    pub or: Option<Vec<IssueFilter>>,
}

impl Default for IssueFilter {
    fn default() -> (r: Self)
        ensures
            r.id is None,
            r.created_at is None,
            r.updated_at is None,
            r.number is None,
            r.title is None,
            r.description is None,
            r.priority is None,
            r.estimate is None,
            r.started_at is None,
            r.triaged_at is None,
            r.completed_at is None,
            r.canceled_at is None,
            r.auto_closed_at is None,
            r.auto_archived_at is None,
            r.due_date is None,
            r.snoozed_until_at is None,
            r.assignee is None,
            r.creator is None,
            r.team is None,
            r.state is None,
            r.searchable_content is None,
            r.and is None,
            r.or is None,
    {
        IssueFilter {
            id: None,
            created_at: None,
            updated_at: None,
            number: None,
            title: None,
            description: None,
            priority: None,
            estimate: None,
            started_at: None,
            triaged_at: None,
            completed_at: None,
            canceled_at: None,
            auto_closed_at: None,
            auto_archived_at: None,
            due_date: None,
            snoozed_until_at: None,
            assignee: None,
            creator: None,
            team: None,
            state: None,
            searchable_content: None,
            and: None,
            or: None,
        }
    }
}

impl IssueFilter {
    /// Its fields in declaration order, each with its written value if set.
    pub open spec fn slots(&self) -> Seq<(FieldName, Option<ValueModel>, Absent)>
        decreases self,
    {
        seq![
            (FieldName::Id, opt_object(self.id), Absent::Omit),
            (FieldName::CreatedAt, opt_object(self.created_at), Absent::Omit),
            (FieldName::UpdatedAt, opt_object(self.updated_at), Absent::Omit),
            (FieldName::Number, opt_object(self.number), Absent::Omit),
            (FieldName::Title, opt_object(self.title), Absent::Omit),
            (FieldName::Description, opt_object(self.description), Absent::Omit),
            (FieldName::Priority, opt_object(self.priority), Absent::Omit),
            (FieldName::Estimate, opt_object(self.estimate), Absent::Omit),
            (FieldName::StartedAt, opt_object(self.started_at), Absent::Omit),
            (FieldName::TriagedAt, opt_object(self.triaged_at), Absent::Omit),
            (FieldName::CompletedAt, opt_object(self.completed_at), Absent::Omit),
            (FieldName::CanceledAt, opt_object(self.canceled_at), Absent::Omit),
            (FieldName::AutoClosedAt, opt_object(self.auto_closed_at), Absent::Omit),
            (FieldName::AutoArchivedAt, opt_object(self.auto_archived_at), Absent::Omit),
            (FieldName::DueDate, opt_object(self.due_date), Absent::Omit),
            (FieldName::SnoozedUntilAt, opt_object(self.snoozed_until_at), Absent::Omit),
            (FieldName::Assignee, opt_object(self.assignee), Absent::Omit),
            (FieldName::Creator, opt_object(self.creator), Absent::Omit),
            (
                FieldName::Team,
                match self.team {
                    Some(x) => Some(object_of(x.slots())),
                    None => None,
                },
                Absent::Omit,
            ),
            (
                FieldName::State,
                match self.state {
                    Some(x) => Some(object_of(x.slots())),
                    None => None,
                },
                Absent::Omit,
            ),
            (FieldName::SearchableContent, opt_object(self.searchable_content), Absent::Omit),
            (
                FieldName::And,
                match self.and {
                    Some(v) => Some(
                        ValueModel::List(
                            Seq::new(
                                v@.len(),
                                |i: int|
                                    if 0 <= i < v@.len() {
                                        object_of(v@[i].slots())
                                    } else {
                                        ValueModel::Null
                                    },
                            ),
                        ),
                    ),
                    None => None,
                },
                Absent::Omit,
            ),
            (
                FieldName::Or,
                match self.or {
                    Some(v) => Some(
                        ValueModel::List(
                            Seq::new(
                                v@.len(),
                                |i: int|
                                    if 0 <= i < v@.len() {
                                        object_of(v@[i].slots())
                                    } else {
                                        ValueModel::Null
                                    },
                            ),
                        ),
                    ),
                    None => None,
                },
                Absent::Omit,
            ),
        ]
    }

    /// Writes the filter as an input object.
    pub fn to_input(&self) -> (r: InputValue)
        ensures
            r@ == object_of(self.slots()),
        decreases self,
    {
        let mut s: Vec<Slot> = Vec::new();
        s.push(Slot { name: FieldName::Id, value: nested(&self.id), absent: Absent::Omit });
        s.push(Slot { name: FieldName::CreatedAt, value: nested(&self.created_at), absent: Absent::Omit });
        s.push(Slot { name: FieldName::UpdatedAt, value: nested(&self.updated_at), absent: Absent::Omit });
        s.push(Slot { name: FieldName::Number, value: nested(&self.number), absent: Absent::Omit });
        s.push(Slot { name: FieldName::Title, value: nested(&self.title), absent: Absent::Omit });
        s.push(Slot { name: FieldName::Description, value: nested(&self.description), absent: Absent::Omit });
        s.push(Slot { name: FieldName::Priority, value: nested(&self.priority), absent: Absent::Omit });
        s.push(Slot { name: FieldName::Estimate, value: nested(&self.estimate), absent: Absent::Omit });
        s.push(Slot { name: FieldName::StartedAt, value: nested(&self.started_at), absent: Absent::Omit });
        s.push(Slot { name: FieldName::TriagedAt, value: nested(&self.triaged_at), absent: Absent::Omit });
        s.push(Slot { name: FieldName::CompletedAt, value: nested(&self.completed_at), absent: Absent::Omit });
        s.push(Slot { name: FieldName::CanceledAt, value: nested(&self.canceled_at), absent: Absent::Omit });
        s.push(Slot { name: FieldName::AutoClosedAt, value: nested(&self.auto_closed_at), absent: Absent::Omit });
        s.push(Slot { name: FieldName::AutoArchivedAt, value: nested(&self.auto_archived_at), absent: Absent::Omit });
        s.push(Slot { name: FieldName::DueDate, value: nested(&self.due_date), absent: Absent::Omit });
        s.push(Slot { name: FieldName::SnoozedUntilAt, value: nested(&self.snoozed_until_at), absent: Absent::Omit });
        s.push(Slot { name: FieldName::Assignee, value: nested(&self.assignee), absent: Absent::Omit });
        s.push(Slot { name: FieldName::Creator, value: nested(&self.creator), absent: Absent::Omit });
        let team_v = match &self.team {
            Some(x) => Some(x.to_input()),
            None => None,
        };
        assert(opt_model(team_v) == self.slots()[18].1);
        s.push(Slot { name: FieldName::Team, value: team_v, absent: Absent::Omit });
        let state_v = match &self.state {
            Some(x) => Some(x.to_input()),
            None => None,
        };
        assert(opt_model(state_v) == self.slots()[19].1);
        s.push(Slot { name: FieldName::State, value: state_v, absent: Absent::Omit });
        s.push(Slot { name: FieldName::SearchableContent, value: nested(&self.searchable_content), absent: Absent::Omit });
        let and_v = match &self.and {
            Some(v) => {
                let mut out: Vec<InputValue> = Vec::new();
                let mut i: usize = 0;
                while i < v.len()
                    invariant
                        self.and == Some(*v),
                        i <= v@.len(),
                        out@.len() == i,
                        forall|j: int| 0 <= j < i ==> out@[j]@ == object_of(v@[j].slots()),
                    decreases v@.len() - i,
                {
                    proof {
                        assert(decreases_to!(*self => self.and));
                        assert(decreases_to!(self.and => self.and->Some_0));
                        assert(decreases_to!(*v => v[i as int]));
                    }
                    out.push(v[i].to_input());
                    i = i + 1;
                }
                proof {
                    lemma_list_view(out);
                    assert(items_model(out@) =~= self.slots()[21].1->Some_0->List_0);
                }
                Some(InputValue::List(out))
            },
            None => None,
        };
        assert(opt_model(and_v) == self.slots()[21].1);
        s.push(Slot { name: FieldName::And, value: and_v, absent: Absent::Omit });
        let or_v = match &self.or {
            Some(v) => {
                let mut out: Vec<InputValue> = Vec::new();
                let mut i: usize = 0;
                while i < v.len()
                    invariant
                        self.or == Some(*v),
                        i <= v@.len(),
                        out@.len() == i,
                        forall|j: int| 0 <= j < i ==> out@[j]@ == object_of(v@[j].slots()),
                    decreases v@.len() - i,
                {
                    proof {
                        assert(decreases_to!(*self => self.or));
                        assert(decreases_to!(self.or => self.or->Some_0));
                        assert(decreases_to!(*v => v[i as int]));
                    }
                    out.push(v[i].to_input());
                    i = i + 1;
                }
                proof {
                    lemma_list_view(out);
                    assert(items_model(out@) =~= self.slots()[22].1->Some_0->List_0);
                }
                Some(InputValue::List(out))
            },
            None => None,
        };
        assert(opt_model(or_v) == self.slots()[22].1);
        s.push(Slot { name: FieldName::Or, value: or_v, absent: Absent::Omit });
        proof {
            assert(slots_model(s@) =~= self.slots());
        }
        object(s)
    }
}

/// A filter on a user that may be absent.
#[derive(Debug)]
pub struct NullableUserFilter {
    pub id: Option<Idcomparator>,
    pub created_at: Option<DateComparator>,
    pub updated_at: Option<DateComparator>,
    pub name: Option<StringComparator>,
    pub display_name: Option<StringComparator>,
    pub email: Option<StringComparator>,
    pub active: Option<BooleanComparator>,
    pub admin: Option<BooleanComparator>,
    pub is_me: Option<BooleanComparator>,
    pub null: Option<bool>,
}

impl Default for NullableUserFilter {
    fn default() -> (r: Self)
        ensures
            r.id is None,
            r.created_at is None,
            r.updated_at is None,
            r.name is None,
            r.display_name is None,
            r.email is None,
            r.active is None,
            r.admin is None,
            r.is_me is None,
            r.null is None,
    {
        NullableUserFilter {
            id: None,
            created_at: None,
            updated_at: None,
            name: None,
            display_name: None,
            email: None,
            active: None,
            admin: None,
            is_me: None,
            null: None,
        }
    }
}

impl InputObject for NullableUserFilter {
    open spec fn slots(&self) -> Seq<(FieldName, Option<ValueModel>, Absent)> {
        seq![
            (FieldName::Id, opt_object(self.id), Absent::Omit),
            (FieldName::CreatedAt, opt_object(self.created_at), Absent::Omit),
            (FieldName::UpdatedAt, opt_object(self.updated_at), Absent::Omit),
            (FieldName::Name, opt_object(self.name), Absent::Omit),
            (FieldName::DisplayName, opt_object(self.display_name), Absent::Omit),
            (FieldName::Email, opt_object(self.email), Absent::Omit),
            (FieldName::Active, opt_object(self.active), Absent::Omit),
            (FieldName::Admin, opt_object(self.admin), Absent::Omit),
            (FieldName::IsMe, opt_object(self.is_me), Absent::Omit),
            (FieldName::IsNull, opt_scalar(self.null), Absent::Omit),
        ]
    }

    fn to_input(&self) -> (r: InputValue) {
        let mut s: Vec<Slot> = Vec::new();
        s.push(Slot { name: FieldName::Id, value: nested(&self.id), absent: Absent::Omit });
        s.push(Slot { name: FieldName::CreatedAt, value: nested(&self.created_at), absent: Absent::Omit });
        s.push(Slot { name: FieldName::UpdatedAt, value: nested(&self.updated_at), absent: Absent::Omit });
        s.push(Slot { name: FieldName::Name, value: nested(&self.name), absent: Absent::Omit });
        s.push(Slot { name: FieldName::DisplayName, value: nested(&self.display_name), absent: Absent::Omit });
        s.push(Slot { name: FieldName::Email, value: nested(&self.email), absent: Absent::Omit });
        s.push(Slot { name: FieldName::Active, value: nested(&self.active), absent: Absent::Omit });
        s.push(Slot { name: FieldName::Admin, value: nested(&self.admin), absent: Absent::Omit });
        s.push(Slot { name: FieldName::IsMe, value: nested(&self.is_me), absent: Absent::Omit });
        s.push(Slot { name: FieldName::IsNull, value: scalar(&self.null), absent: Absent::Omit });
        proof {
            assert(slots_model(s@) =~= self.slots());
        }
        object(s)
    }
}

/// A filter on teams.
#[derive(Debug)]
pub struct TeamFilter {
    pub id: Option<Idcomparator>,
    pub created_at: Option<DateComparator>,
    pub updated_at: Option<DateComparator>,
    pub name: Option<StringComparator>,
    pub key: Option<StringComparator>,
    pub description: Option<NullableStringComparator>,
    pub issues: Option<Box<IssueCollectionFilter>>,
    pub and: Option<Vec<TeamFilter>>,
    pub or: Option<Vec<TeamFilter>>,
}

impl Default for TeamFilter {
    fn default() -> (r: Self)
        ensures
            r.id is None,
            r.created_at is None,
            r.updated_at is None,
            r.name is None,
            r.key is None,
            r.description is None,
            r.issues is None,
            r.and is None,
            r.or is None,
    {
        TeamFilter {
            id: None,
            created_at: None,
            updated_at: None,
            name: None,
            key: None,
            description: None,
            issues: None,
            and: None,
            or: None,
        }
    }
}

impl TeamFilter {
    /// Its fields in declaration order, each with its written value if set.
    pub open spec fn slots(&self) -> Seq<(FieldName, Option<ValueModel>, Absent)>
        decreases self,
    {
        seq![
            (FieldName::Id, opt_object(self.id), Absent::Omit),
            (FieldName::CreatedAt, opt_object(self.created_at), Absent::Omit),
            (FieldName::UpdatedAt, opt_object(self.updated_at), Absent::Omit),
            (FieldName::Name, opt_object(self.name), Absent::Omit),
            (FieldName::Key, opt_object(self.key), Absent::Omit),
            (FieldName::Description, opt_object(self.description), Absent::Omit),
            (
                FieldName::Issues,
                match self.issues {
                    Some(x) => Some(object_of(x.slots())),
                    None => None,
                },
                Absent::Omit,
            ),
            (
                FieldName::And,
                match self.and {
                    Some(v) => Some(
                        ValueModel::List(
                            Seq::new(
                                v@.len(),
                                |i: int|
                                    if 0 <= i < v@.len() {
                                        object_of(v@[i].slots())
                                    } else {
                                        ValueModel::Null
                                    },
                            ),
                        ),
                    ),
                    None => None,
                },
                Absent::Omit,
            ),
            (
                FieldName::Or,
                match self.or {
                    Some(v) => Some(
                        ValueModel::List(
                            Seq::new(
                                v@.len(),
                                |i: int|
                                    if 0 <= i < v@.len() {
                                        object_of(v@[i].slots())
                                    } else {
                                        ValueModel::Null
                                    },
                            ),
                        ),
                    ),
                    None => None,
                },
                Absent::Omit,
            ),
        ]
    }

    /// Writes the filter as an input object.
    pub fn to_input(&self) -> (r: InputValue)
        ensures
            r@ == object_of(self.slots()),
        decreases self,
    {
        let mut s: Vec<Slot> = Vec::new();
        s.push(Slot { name: FieldName::Id, value: nested(&self.id), absent: Absent::Omit });
        s.push(Slot { name: FieldName::CreatedAt, value: nested(&self.created_at), absent: Absent::Omit });
        s.push(Slot { name: FieldName::UpdatedAt, value: nested(&self.updated_at), absent: Absent::Omit });
        s.push(Slot { name: FieldName::Name, value: nested(&self.name), absent: Absent::Omit });
        s.push(Slot { name: FieldName::Key, value: nested(&self.key), absent: Absent::Omit });
        s.push(Slot { name: FieldName::Description, value: nested(&self.description), absent: Absent::Omit });
        let issues_v = match &self.issues {
            Some(x) => Some(x.to_input()),
            None => None,
        };
        assert(opt_model(issues_v) == self.slots()[6].1);
        s.push(Slot { name: FieldName::Issues, value: issues_v, absent: Absent::Omit });
        let and_v = match &self.and {
            Some(v) => {
                let mut out: Vec<InputValue> = Vec::new();
                let mut i: usize = 0;
                while i < v.len()
                    invariant
                        self.and == Some(*v),
                        i <= v@.len(),
                        out@.len() == i,
                        forall|j: int| 0 <= j < i ==> out@[j]@ == object_of(v@[j].slots()),
                    decreases v@.len() - i,
                {
                    proof {
                        assert(decreases_to!(*self => self.and));
                        assert(decreases_to!(self.and => self.and->Some_0));
                        assert(decreases_to!(*v => v[i as int]));
                    }
                    out.push(v[i].to_input());
                    i = i + 1;
                }
                proof {
                    lemma_list_view(out);
                    assert(items_model(out@) =~= self.slots()[7].1->Some_0->List_0);
                }
                Some(InputValue::List(out))
            },
            None => None,
        };
        assert(opt_model(and_v) == self.slots()[7].1);
        s.push(Slot { name: FieldName::And, value: and_v, absent: Absent::Omit });
        let or_v = match &self.or {
            Some(v) => {
                let mut out: Vec<InputValue> = Vec::new();
                let mut i: usize = 0;
                while i < v.len()
                    invariant
                        self.or == Some(*v),
                        i <= v@.len(),
                        out@.len() == i,
                        forall|j: int| 0 <= j < i ==> out@[j]@ == object_of(v@[j].slots()),
                    decreases v@.len() - i,
                {
                    proof {
                        assert(decreases_to!(*self => self.or));
                        assert(decreases_to!(self.or => self.or->Some_0));
                        assert(decreases_to!(*v => v[i as int]));
                    }
                    out.push(v[i].to_input());
                    i = i + 1;
                }
                proof {
                    lemma_list_view(out);
                    assert(items_model(out@) =~= self.slots()[8].1->Some_0->List_0);
                }
                Some(InputValue::List(out))
            },
            None => None,
        };
        assert(opt_model(or_v) == self.slots()[8].1);
        s.push(Slot { name: FieldName::Or, value: or_v, absent: Absent::Omit });
        proof {
            assert(slots_model(s@) =~= self.slots());
        }
        object(s)
    }
}

/// A filter on workflow states.
#[derive(Debug)]
pub struct WorkflowStateFilter {
    pub id: Option<Idcomparator>,
    pub created_at: Option<DateComparator>,
    pub updated_at: Option<DateComparator>,
    pub name: Option<StringComparator>,
    pub description: Option<StringComparator>,
    pub position: Option<NumberComparator>,
    pub type_: Option<StringComparator>,
    pub team: Option<TeamFilter>,
    pub issues: Option<Box<IssueCollectionFilter>>,
    pub and: Option<Vec<WorkflowStateFilter>>,
    pub or: Option<Vec<WorkflowStateFilter>>,
}

impl Default for WorkflowStateFilter {
    fn default() -> (r: Self)
        ensures
            r.id is None,
            r.created_at is None,
            r.updated_at is None,
            r.name is None,
            r.description is None,
            r.position is None,
            r.type_ is None,
            r.team is None,
            r.issues is None,
            r.and is None,
            r.or is None,
    {
        WorkflowStateFilter {
            id: None,
            created_at: None,
            updated_at: None,
            name: None,
            description: None,
            position: None,
            type_: None,
            team: None,
            issues: None,
            and: None,
            or: None,
        }
    }
}

impl WorkflowStateFilter {
    /// Its fields in declaration order, each with its written value if set.
    pub open spec fn slots(&self) -> Seq<(FieldName, Option<ValueModel>, Absent)>
        decreases self,
    {
        seq![
            (FieldName::Id, opt_object(self.id), Absent::Omit),
            (FieldName::CreatedAt, opt_object(self.created_at), Absent::Omit),
            (FieldName::UpdatedAt, opt_object(self.updated_at), Absent::Omit),
            (FieldName::Name, opt_object(self.name), Absent::Omit),
            (FieldName::Description, opt_object(self.description), Absent::Omit),
            (FieldName::Position, opt_object(self.position), Absent::Omit),
            (FieldName::Kind, opt_object(self.type_), Absent::Omit),
            (
                FieldName::Team,
                match self.team {
                    Some(x) => Some(object_of(x.slots())),
                    None => None,
                },
                Absent::Omit,
            ),
            (
                FieldName::Issues,
                match self.issues {
                    Some(x) => Some(object_of(x.slots())),
                    None => None,
                },
                Absent::Omit,
            ),
            (
                FieldName::And,
                match self.and {
                    Some(v) => Some(
                        ValueModel::List(
                            Seq::new(
                                v@.len(),
                                |i: int|
                                    if 0 <= i < v@.len() {
                                        object_of(v@[i].slots())
                                    } else {
                                        ValueModel::Null
                                    },
                            ),
                        ),
                    ),
                    None => None,
                },
                Absent::Omit,
            ),
            (
                FieldName::Or,
                match self.or {
                    Some(v) => Some(
                        ValueModel::List(
                            Seq::new(
                                v@.len(),
                                |i: int|
                                    if 0 <= i < v@.len() {
                                        object_of(v@[i].slots())
                                    } else {
                                        ValueModel::Null
                                    },
                            ),
                        ),
                    ),
                    None => None,
                },
                Absent::Omit,
            ),
        ]
    }

    /// Writes the filter as an input object.
    pub fn to_input(&self) -> (r: InputValue)
        ensures
            r@ == object_of(self.slots()),
        decreases self,
    {
        let mut s: Vec<Slot> = Vec::new();
        s.push(Slot { name: FieldName::Id, value: nested(&self.id), absent: Absent::Omit });
        s.push(Slot { name: FieldName::CreatedAt, value: nested(&self.created_at), absent: Absent::Omit });
        s.push(Slot { name: FieldName::UpdatedAt, value: nested(&self.updated_at), absent: Absent::Omit });
        s.push(Slot { name: FieldName::Name, value: nested(&self.name), absent: Absent::Omit });
        s.push(Slot { name: FieldName::Description, value: nested(&self.description), absent: Absent::Omit });
        s.push(Slot { name: FieldName::Position, value: nested(&self.position), absent: Absent::Omit });
        s.push(Slot { name: FieldName::Kind, value: nested(&self.type_), absent: Absent::Omit });
        let team_v = match &self.team {
            Some(x) => Some(x.to_input()),
            None => None,
        };
        assert(opt_model(team_v) == self.slots()[7].1);
        s.push(Slot { name: FieldName::Team, value: team_v, absent: Absent::Omit });
        let issues_v = match &self.issues {
            Some(x) => Some(x.to_input()),
            None => None,
        };
        assert(opt_model(issues_v) == self.slots()[8].1);
        s.push(Slot { name: FieldName::Issues, value: issues_v, absent: Absent::Omit });
        let and_v = match &self.and {
            Some(v) => {
                let mut out: Vec<InputValue> = Vec::new();
                let mut i: usize = 0;
                while i < v.len()
                    invariant
                        self.and == Some(*v),
                        i <= v@.len(),
                        out@.len() == i,
                        forall|j: int| 0 <= j < i ==> out@[j]@ == object_of(v@[j].slots()),
                    decreases v@.len() - i,
                {
                    proof {
                        assert(decreases_to!(*self => self.and));
                        assert(decreases_to!(self.and => self.and->Some_0));
                        assert(decreases_to!(*v => v[i as int]));
                    }
                    out.push(v[i].to_input());
                    i = i + 1;
                }
                proof {
                    lemma_list_view(out);
                    assert(items_model(out@) =~= self.slots()[9].1->Some_0->List_0);
                }
                Some(InputValue::List(out))
            },
            None => None,
        };
        assert(opt_model(and_v) == self.slots()[9].1);
        s.push(Slot { name: FieldName::And, value: and_v, absent: Absent::Omit });
        let or_v = match &self.or {
            Some(v) => {
                let mut out: Vec<InputValue> = Vec::new();
                let mut i: usize = 0;
                while i < v.len()
                    invariant
                        self.or == Some(*v),
                        i <= v@.len(),
                        out@.len() == i,
                        forall|j: int| 0 <= j < i ==> out@[j]@ == object_of(v@[j].slots()),
                    decreases v@.len() - i,
                {
                    proof {
                        assert(decreases_to!(*self => self.or));
                        assert(decreases_to!(self.or => self.or->Some_0));
                        assert(decreases_to!(*v => v[i as int]));
                    }
                    out.push(v[i].to_input());
                    i = i + 1;
                }
                proof {
                    lemma_list_view(out);
                    assert(items_model(out@) =~= self.slots()[10].1->Some_0->List_0);
                }
                Some(InputValue::List(out))
            },
            None => None,
        };
        assert(opt_model(or_v) == self.slots()[10].1);
        s.push(Slot { name: FieldName::Or, value: or_v, absent: Absent::Omit });
        proof {
            assert(slots_model(s@) =~= self.slots());
        }
        object(s)
    }
}

/// A filter on a collection of issues: `some` and `every` quantify over its members, `length` matches its size.
#[derive(Debug)]
pub struct IssueCollectionFilter {
    pub id: Option<Idcomparator>,
    pub created_at: Option<DateComparator>,
    pub updated_at: Option<DateComparator>,
    pub number: Option<NumberComparator>,
    pub title: Option<StringComparator>,
    pub description: Option<NullableStringComparator>,
    pub priority: Option<NullableNumberComparator>,
    pub estimate: Option<EstimateComparator>,
    pub started_at: Option<NullableDateComparator>,
    pub triaged_at: Option<NullableDateComparator>,
    pub completed_at: Option<NullableDateComparator>,
    pub canceled_at: Option<NullableDateComparator>,
    pub auto_closed_at: Option<NullableDateComparator>,
    pub auto_archived_at: Option<NullableDateComparator>,
    pub due_date: Option<NullableTimelessDateComparator>,
    pub snoozed_until_at: Option<NullableDateComparator>,
    pub assignee: Option<Box<NullableUserFilter>>,
    pub creator: Option<Box<NullableUserFilter>>,
    pub team: Option<TeamFilter>,
    pub state: Option<WorkflowStateFilter>,
    pub searchable_content: Option<ContentComparator>,
    pub some: Option<Box<IssueFilter>>,
    pub every: Option<Box<IssueFilter>>,
    pub length: Option<NumberComparator>,
    pub and: Option<Vec<IssueCollectionFilter>>,
    pub or: Option<Vec<IssueCollectionFilter>>,
}

impl Default for IssueCollectionFilter {
    fn default() -> (r: Self)
        ensures
            r.id is None,
            r.created_at is None,
            r.updated_at is None,
            r.number is None,
            r.title is None,
            r.description is None,
            r.priority is None,
            r.estimate is None,
            r.started_at is None,
            r.triaged_at is None,
            r.completed_at is None,
            r.canceled_at is None,
            r.auto_closed_at is None,
            r.auto_archived_at is None,
            r.due_date is None,
            r.snoozed_until_at is None,
            r.assignee is None,
            r.creator is None,
            r.team is None,
            r.state is None,
            r.searchable_content is None,
            r.some is None,
            r.every is None,
            r.length is None,
            r.and is None,
            r.or is None,
    {
        IssueCollectionFilter {
            id: None,
            created_at: None,
            updated_at: None,
            number: None,
            title: None,
            description: None,
            priority: None,
            estimate: None,
            started_at: None,
            triaged_at: None,
            completed_at: None,
            canceled_at: None,
            auto_closed_at: None,
            auto_archived_at: None,
            due_date: None,
            snoozed_until_at: None,
            assignee: None,
            creator: None,
            team: None,
            state: None,
            searchable_content: None,
            some: None,
            every: None,
            length: None,
            and: None,
            or: None,
        }
    }
}

impl IssueCollectionFilter {
    /// Its fields in declaration order, each with its written value if set.
    pub open spec fn slots(&self) -> Seq<(FieldName, Option<ValueModel>, Absent)>
        decreases self,
    {
        seq![
            (FieldName::Id, opt_object(self.id), Absent::Omit),
            (FieldName::CreatedAt, opt_object(self.created_at), Absent::Omit),
            (FieldName::UpdatedAt, opt_object(self.updated_at), Absent::Omit),
            (FieldName::Number, opt_object(self.number), Absent::Omit),
            (FieldName::Title, opt_object(self.title), Absent::Omit),
            (FieldName::Description, opt_object(self.description), Absent::Omit),
            (FieldName::Priority, opt_object(self.priority), Absent::Omit),
            (FieldName::Estimate, opt_object(self.estimate), Absent::Omit),
            (FieldName::StartedAt, opt_object(self.started_at), Absent::Omit),
            (FieldName::TriagedAt, opt_object(self.triaged_at), Absent::Omit),
            (FieldName::CompletedAt, opt_object(self.completed_at), Absent::Omit),
            (FieldName::CanceledAt, opt_object(self.canceled_at), Absent::Omit),
            (FieldName::AutoClosedAt, opt_object(self.auto_closed_at), Absent::Omit),
            (FieldName::AutoArchivedAt, opt_object(self.auto_archived_at), Absent::Omit),
            (FieldName::DueDate, opt_object(self.due_date), Absent::Omit),
            (FieldName::SnoozedUntilAt, opt_object(self.snoozed_until_at), Absent::Omit),
            (
                FieldName::Assignee,
                match self.assignee {
                    Some(x) => Some(object_of(x.slots())),
                    None => None,
                },
                Absent::Omit,
            ),
            (
                FieldName::Creator,
                match self.creator {
                    Some(x) => Some(object_of(x.slots())),
                    None => None,
                },
                Absent::Omit,
            ),
            (
                FieldName::Team,
                match self.team {
                    Some(x) => Some(object_of(x.slots())),
                    None => None,
                },
                Absent::Omit,
            ),
            (
                FieldName::State,
                match self.state {
                    Some(x) => Some(object_of(x.slots())),
                    None => None,
                },
                Absent::Omit,
            ),
            (FieldName::SearchableContent, opt_object(self.searchable_content), Absent::Omit),
            (
                FieldName::SomeOf,
                match self.some {
                    Some(x) => Some(object_of(x.slots())),
                    None => None,
                },
                Absent::Omit,
            ),
            (
                FieldName::Every,
                match self.every {
                    Some(x) => Some(object_of(x.slots())),
                    None => None,
                },
                Absent::Omit,
            ),
            (FieldName::Length, opt_object(self.length), Absent::Omit),
            (
                FieldName::And,
                match self.and {
                    Some(v) => Some(
                        ValueModel::List(
                            Seq::new(
                                v@.len(),
                                |i: int|
                                    if 0 <= i < v@.len() {
                                        object_of(v@[i].slots())
                                    } else {
                                        ValueModel::Null
                                    },
                            ),
                        ),
                    ),
                    None => None,
                },
                Absent::Omit,
            ),
            (
                FieldName::Or,
                match self.or {
                    Some(v) => Some(
                        ValueModel::List(
                            Seq::new(
                                v@.len(),
                                |i: int|
                                    if 0 <= i < v@.len() {
                                        object_of(v@[i].slots())
                                    } else {
                                        ValueModel::Null
                                    },
                            ),
                        ),
                    ),
                    None => None,
                },
                Absent::Omit,
            ),
        ]
    }

    /// Writes the filter as an input object.
    pub fn to_input(&self) -> (r: InputValue)
        ensures
            r@ == object_of(self.slots()),
        decreases self,
    {
        let mut s: Vec<Slot> = Vec::new();
        s.push(Slot { name: FieldName::Id, value: nested(&self.id), absent: Absent::Omit });
        s.push(Slot { name: FieldName::CreatedAt, value: nested(&self.created_at), absent: Absent::Omit });
        s.push(Slot { name: FieldName::UpdatedAt, value: nested(&self.updated_at), absent: Absent::Omit });
        s.push(Slot { name: FieldName::Number, value: nested(&self.number), absent: Absent::Omit });
        s.push(Slot { name: FieldName::Title, value: nested(&self.title), absent: Absent::Omit });
        s.push(Slot { name: FieldName::Description, value: nested(&self.description), absent: Absent::Omit });
        s.push(Slot { name: FieldName::Priority, value: nested(&self.priority), absent: Absent::Omit });
        s.push(Slot { name: FieldName::Estimate, value: nested(&self.estimate), absent: Absent::Omit });
        s.push(Slot { name: FieldName::StartedAt, value: nested(&self.started_at), absent: Absent::Omit });
        s.push(Slot { name: FieldName::TriagedAt, value: nested(&self.triaged_at), absent: Absent::Omit });
        s.push(Slot { name: FieldName::CompletedAt, value: nested(&self.completed_at), absent: Absent::Omit });
        s.push(Slot { name: FieldName::CanceledAt, value: nested(&self.canceled_at), absent: Absent::Omit });
        s.push(Slot { name: FieldName::AutoClosedAt, value: nested(&self.auto_closed_at), absent: Absent::Omit });
        s.push(Slot { name: FieldName::AutoArchivedAt, value: nested(&self.auto_archived_at), absent: Absent::Omit });
        s.push(Slot { name: FieldName::DueDate, value: nested(&self.due_date), absent: Absent::Omit });
        s.push(Slot { name: FieldName::SnoozedUntilAt, value: nested(&self.snoozed_until_at), absent: Absent::Omit });
        let assignee_v = match &self.assignee {
            Some(x) => Some(x.to_input()),
            None => None,
        };
        assert(opt_model(assignee_v) == self.slots()[16].1);
        s.push(Slot { name: FieldName::Assignee, value: assignee_v, absent: Absent::Omit });
        let creator_v = match &self.creator {
            Some(x) => Some(x.to_input()),
            None => None,
        };
        assert(opt_model(creator_v) == self.slots()[17].1);
        s.push(Slot { name: FieldName::Creator, value: creator_v, absent: Absent::Omit });
        let team_v = match &self.team {
            Some(x) => Some(x.to_input()),
            None => None,
        };
        assert(opt_model(team_v) == self.slots()[18].1);
        s.push(Slot { name: FieldName::Team, value: team_v, absent: Absent::Omit });
        let state_v = match &self.state {
            Some(x) => Some(x.to_input()),
            None => None,
        };
        assert(opt_model(state_v) == self.slots()[19].1);
        s.push(Slot { name: FieldName::State, value: state_v, absent: Absent::Omit });
        s.push(Slot { name: FieldName::SearchableContent, value: nested(&self.searchable_content), absent: Absent::Omit });
        let some_v = match &self.some {
            Some(x) => Some(x.to_input()),
            None => None,
        };
        assert(opt_model(some_v) == self.slots()[21].1);
        s.push(Slot { name: FieldName::SomeOf, value: some_v, absent: Absent::Omit });
        let every_v = match &self.every {
            Some(x) => Some(x.to_input()),
            None => None,
        };
        assert(opt_model(every_v) == self.slots()[22].1);
        s.push(Slot { name: FieldName::Every, value: every_v, absent: Absent::Omit });
        s.push(Slot { name: FieldName::Length, value: nested(&self.length), absent: Absent::Omit });
        let and_v = match &self.and {
            Some(v) => {
                let mut out: Vec<InputValue> = Vec::new();
                let mut i: usize = 0;
                while i < v.len()
                    invariant
                        self.and == Some(*v),
                        i <= v@.len(),
                        out@.len() == i,
                        forall|j: int| 0 <= j < i ==> out@[j]@ == object_of(v@[j].slots()),
                    decreases v@.len() - i,
                {
                    proof {
                        assert(decreases_to!(*self => self.and));
                        assert(decreases_to!(self.and => self.and->Some_0));
                        assert(decreases_to!(*v => v[i as int]));
                    }
                    out.push(v[i].to_input());
                    i = i + 1;
                }
                proof {
                    lemma_list_view(out);
                    assert(items_model(out@) =~= self.slots()[24].1->Some_0->List_0);
                }
                Some(InputValue::List(out))
            },
            None => None,
        };
        assert(opt_model(and_v) == self.slots()[24].1);
        s.push(Slot { name: FieldName::And, value: and_v, absent: Absent::Omit });
        let or_v = match &self.or {
            Some(v) => {
                let mut out: Vec<InputValue> = Vec::new();
                let mut i: usize = 0;
                while i < v.len()
                    invariant
                        self.or == Some(*v),
                        i <= v@.len(),
                        out@.len() == i,
                        forall|j: int| 0 <= j < i ==> out@[j]@ == object_of(v@[j].slots()),
                    decreases v@.len() - i,
                {
                    proof {
                        assert(decreases_to!(*self => self.or));
                        assert(decreases_to!(self.or => self.or->Some_0));
                        assert(decreases_to!(*v => v[i as int]));
                    }
                    out.push(v[i].to_input());
                    i = i + 1;
                }
                proof {
                    lemma_list_view(out);
                    assert(items_model(out@) =~= self.slots()[25].1->Some_0->List_0);
                }
                Some(InputValue::List(out))
            },
            None => None,
        };
        assert(opt_model(or_v) == self.slots()[25].1);
        s.push(Slot { name: FieldName::Or, value: or_v, absent: Absent::Omit });
        proof {
            assert(slots_model(s@) =~= self.slots());
        }
        object(s)
    }
}

} // verus!

