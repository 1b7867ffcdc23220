use vstd::prelude::*;

use crate::builders::{user_me_model, user_name_model};
use crate::encode::{lemma_single_set, nested_list, opt_objects, opt_scalar, single, InputObject};
use crate::filter::IssueFilter;
use crate::names::FieldName;
use crate::scalars::{PaginationOrderBy, Scalar};
use crate::sort::IssueSortInput;
use crate::value::{object, object_of, slots_model, Absent, InputValue, Slot, ValueModel};

verus! {

/// True when `name` stands for the caller rather than for a user name.
pub fn is_me(name: &String) -> (r: bool)
    ensures
        r == (name@ == "me"@),
{
    let me = "me".to_string();
    *name == me
}

/// The written filter for one user-selecting argument of the issue list.
pub open spec fn user_intent(name: Seq<char>) -> ValueModel {
    if name == "me"@ {
        user_me_model(FieldName::Assignee)
    } else {
        user_name_model(FieldName::Assignee, name)
    }
}

pub open spec fn team_intent(key: Seq<char>) -> ValueModel {
    single(FieldName::Team, single(FieldName::Key, single(FieldName::Eq, ValueModel::Str(key))))
}

pub open spec fn search_intent(term: Seq<char>) -> ValueModel {
    single(FieldName::SearchableContent, single(FieldName::Contains, ValueModel::Str(term)))
}

pub open spec fn intent(o: Option<String>, kind: int) -> Seq<ValueModel> {
    match o {
        Some(s) => seq![
            if kind == 0 {
                user_intent(s@)
            } else if kind == 1 {
                team_intent(s@)
            } else {
                search_intent(s@)
            },
        ],
        None => seq![],
    }
}

/// The written single-intent filters of the issue list's arguments, in order.
pub open spec fn intents(
    assignee: Option<String>,
    author: Option<String>,
    team: Option<String>,
    search: Option<String>,
) -> Seq<ValueModel> {
    intent(assignee, 0) + intent(author, 0) + intent(team, 1) + intent(search, 2)
}

pub open spec fn filters_model(v: Seq<IssueFilter>) -> Seq<ValueModel> {
    Seq::new(v.len(), |i: int| object_of(v[i].slots()))
}

impl IssueFilter {
    /// Combines single-intent filters into one: none gives no filter, one is
    /// kept as it is, more are held in the `and` of a new filter, in order.
    pub fn merge(filters: Vec<Self>) -> (r: Option<Self>)
        ensures
            filters@.len() == 0 ==> r is None,
            filters@.len() == 1 ==> r == Some(filters@[0]),
            filters@.len() > 1 ==> r == Some(Self::spec_new_and(filters)),
            filters@.len() > 1 ==> (r matches Some(f) && object_of(f.slots()) == single(
                FieldName::And,
                ValueModel::List(filters_model(filters@)),
            )),
    {
        let mut filters = filters;
        if filters.len() == 0 {
            None
        } else if filters.len() == 1 {
            filters.pop()
        } else {
            let ghost m = filters_model(filters@);
            let f = Self::new_and(filters);
            proof {
                lemma_single_set(f.slots(), 21);
                assert(f.slots()[21].1->Some_0->List_0 =~= m);
            }
            Some(f)
        }
    }

    /// The filter of the issue list: the assignee and the author each select
    /// the caller when they are `"me"` and a user by name otherwise; the team
    /// selects by key and the search by content. Both user arguments match
    /// the assignee.
    pub fn from_list_args(
        assignee: Option<String>,
        author: Option<String>,
        team: Option<String>,
        search: Option<String>,
    ) -> (r: Option<Self>)
        ensures
            ({
                let m = intents(assignee, author, team, search);
                &&& m.len() == 0 ==> r is None
                &&& m.len() == 1 ==> (r matches Some(f) && object_of(f.slots()) == m[0])
                &&& m.len() > 1 ==> (r matches Some(f) && object_of(f.slots()) == single(
                    FieldName::And,
                    ValueModel::List(m),
                ))
            }),
    {
        let ghost m = intents(assignee, author, team, search);
        let mut filters: Vec<Self> = Vec::new();
        let ghost mut acc: Seq<ValueModel> = seq![];
        match assignee {
            Some(name) => {
                let f = if is_me(&name) {
                    Self::assignee_me()
                } else {
                    Self::assignee_username(name)
                };
                filters.push(f);
            },
            None => {},
        }
        proof {
            acc = intent(assignee, 0);
            assert(filters_model(filters@) =~= acc);
        }
        match author {
            Some(name) => {
                let f = if is_me(&name) {
                    Self::assignee_me()
                } else {
                    Self::assignee_username(name)
                };
                filters.push(f);
            },
            None => {},
        }
        proof {
            acc = acc + intent(author, 0);
            assert(filters_model(filters@) =~= acc);
        }
        match team {
            Some(key) => {
                filters.push(Self::team_key(key));
            },
            None => {},
        }
        proof {
            acc = acc + intent(team, 1);
            assert(filters_model(filters@) =~= acc);
        }
        match search {
            Some(term) => {
                filters.push(Self::search(term));
            },
            None => {},
        }
        proof {
            acc = acc + intent(search, 2);
            assert(filters_model(filters@) =~= acc);
            assert(acc == m);
        }
        Self::merge(filters)
    }
}

} // verus!

verus! {

/// A named query document with its bound variables, ready to be sent.
pub struct Operation {
    pub query: String,
    pub operation_name: String,
    pub variables: InputValue,
}

pub const TEAM_LIST_DOCUMENT: &'static str = "query TeamList($first: Int!, $order: PaginationOrderBy!) {\n  teams(first: $first, orderBy: $order) {\n    pageInfo {\n      endCursor\n    }\n    nodes {\n      id\n      createdAt\n      updatedAt\n      name\n      description\n      key\n    }\n  }\n}\n";

pub const PROJECT_LIST_DOCUMENT: &'static str = "query ProjectList($first: Int!, $order: PaginationOrderBy!, $includeArchived: Boolean!) {\n  projects(first: $first, orderBy: $order, includeArchived: $includeArchived) {\n    pageInfo {\n      endCursor\n    }\n    nodes {\n      id\n      createdAt\n      updatedAt\n      archivedAt\n      name\n      description\n      slugId\n      status {\n        id\n        name\n      }\n      creator {\n        id\n        name\n        displayName\n        url\n        isMe\n      }\n      priority\n      url\n    }\n  }\n}\n";

pub const ISSUE_LIST_DOCUMENT: &'static str = "query IssueList($first: Int!, $order: PaginationOrderBy!, $sort: [IssueSortInput!], $filter: IssueFilter) {\n  issues(first: $first, sort: $sort, orderBy: $order, filter: $filter) {\n    pageInfo {\n      endCursor\n    }\n    nodes {\n      id\n      identifier\n      title\n      description\n      branchName\n      canceledAt\n      assignee {\n        id\n        name\n        displayName\n        url\n        isMe\n      }\n      completedAt\n      createdAt\n      dueDate\n      estimate\n      number\n      priority\n      priorityLabel\n      startedAt\n      startedTriageAt\n      state {\n        name\n        color\n      }\n      trashed\n      triagedAt\n      updatedAt\n      url\n    }\n  }\n}\n";

pub const VIEWER_DOCUMENT: &'static str = "query QueryViewer {\n  viewer {\n    id\n    name\n    displayName\n    url\n    isMe\n  }\n}\n";

/// The variables of the team list.
pub struct TeamListVariables {
    pub first: i32,
    pub order: PaginationOrderBy,
}

impl InputObject for TeamListVariables {
    open spec fn slots(&self) -> Seq<(FieldName, Option<ValueModel>, Absent)> {
        seq![
            (FieldName::First, opt_scalar(Some(self.first)), Absent::Omit),
            (FieldName::Order, opt_scalar(Some(self.order)), Absent::Omit),
        ]
    }

    fn to_input(&self) -> (r: InputValue) {
        let mut s: Vec<Slot> = Vec::new();
        s.push(Slot { name: FieldName::First, value: Some(self.first.to_input()), absent: Absent::Omit });
        s.push(Slot { name: FieldName::Order, value: Some(self.order.to_input()), absent: Absent::Omit });
        proof {
            assert(slots_model(s@) =~= self.slots());
        }
        object(s)
    }
}

impl TeamListVariables {
    /// The team list operation with these variables.
    pub fn build(self) -> (r: Operation)
        ensures
            r.query@ == TEAM_LIST_DOCUMENT@,
            r.operation_name@ == "TeamList"@,
            r.variables@ == object_of(self.slots()),
    {
        Operation {
            query: TEAM_LIST_DOCUMENT.to_string(),
            operation_name: "TeamList".to_string(),
            variables: self.to_input(),
        }
    }
}

/// The variables of the project list.
pub struct ProjectListVariables {
    pub first: i32,
    pub include_archived: bool,
    pub order: PaginationOrderBy,
}

impl InputObject for ProjectListVariables {
    open spec fn slots(&self) -> Seq<(FieldName, Option<ValueModel>, Absent)> {
        seq![
            (FieldName::First, opt_scalar(Some(self.first)), Absent::Omit),
            (FieldName::IncludeArchived, opt_scalar(Some(self.include_archived)), Absent::Omit),
            (FieldName::Order, opt_scalar(Some(self.order)), Absent::Omit),
        ]
    }

    fn to_input(&self) -> (r: InputValue) {
        let mut s: Vec<Slot> = Vec::new();
        s.push(Slot { name: FieldName::First, value: Some(self.first.to_input()), absent: Absent::Omit });
        s.push(
            Slot {
                name: FieldName::IncludeArchived,
                value: Some(self.include_archived.to_input()),
                absent: Absent::Omit,
            },
        );
        s.push(Slot { name: FieldName::Order, value: Some(self.order.to_input()), absent: Absent::Omit });
        proof {
            assert(slots_model(s@) =~= self.slots());
        }
        object(s)
    }
}

impl ProjectListVariables {
    /// The project list operation with these variables.
    pub fn build(self) -> (r: Operation)
        ensures
            r.query@ == PROJECT_LIST_DOCUMENT@,
            r.operation_name@ == "ProjectList"@,
            r.variables@ == object_of(self.slots()),
    {
        Operation {
            query: PROJECT_LIST_DOCUMENT.to_string(),
            operation_name: "ProjectList".to_string(),
            variables: self.to_input(),
        }
    }
}

/// The variables of the issue list.
pub struct IssueListVariables {
    pub first: i32,
    pub order: PaginationOrderBy,
    pub sort: Option<Vec<IssueSortInput>>,
    pub filter: Option<IssueFilter>,
}

impl IssueListVariables {
    pub open spec fn slots(&self) -> Seq<(FieldName, Option<ValueModel>, Absent)> {
        seq![
            (FieldName::First, opt_scalar(Some(self.first)), Absent::Omit),
            (FieldName::Order, opt_scalar(Some(self.order)), Absent::Omit),
            (FieldName::Sort, opt_objects(self.sort), Absent::Omit),
            (
                FieldName::Filter,
                match self.filter {
                    Some(f) => Some(object_of(f.slots())),
                    None => None,
                },
                Absent::Omit,
            ),
        ]
    }

    /// Writes the variables as an input object; unset ones are left out.
    pub fn to_input(&self) -> (r: InputValue)
        ensures
            r@ == object_of(self.slots()),
    {
        let mut s: Vec<Slot> = Vec::new();
        s.push(Slot { name: FieldName::First, value: Some(self.first.to_input()), absent: Absent::Omit });
        s.push(Slot { name: FieldName::Order, value: Some(self.order.to_input()), absent: Absent::Omit });
        s.push(Slot { name: FieldName::Sort, value: nested_list(&self.sort), absent: Absent::Omit });
        let filter = match &self.filter {
            Some(f) => Some(f.to_input()),
            None => None,
        };
        s.push(Slot { name: FieldName::Filter, value: filter, absent: Absent::Omit });
        proof {
            assert(slots_model(s@) =~= self.slots());
        }
        object(s)
    }

    /// The variables with which issues are listed: the most recently updated
    /// first, at most `first` of them, matching `filter` if there is one.
    pub fn for_listing(first: i32, filter: Option<IssueFilter>) -> (r: Self)
        ensures
            r.first == first,
            r.order == PaginationOrderBy::UpdatedAt,
            r.sort is None,
            r.filter == filter,
    {
        IssueListVariables { first, order: PaginationOrderBy::UpdatedAt, sort: None, filter }
    }

    /// The issue list operation with these variables.
    pub fn build(self) -> (r: Operation)
        ensures
            r.query@ == ISSUE_LIST_DOCUMENT@,
            r.operation_name@ == "IssueList"@,
            r.variables@ == object_of(self.slots()),
    {
        Operation {
            query: ISSUE_LIST_DOCUMENT.to_string(),
            operation_name: "IssueList".to_string(),
            variables: self.to_input(),
        }
    }
}

/// The operation that asks who the caller is; it binds no variables.
pub fn viewer_operation() -> (r: Operation)
    ensures
        r.query@ == VIEWER_DOCUMENT@,
        r.operation_name@ == "QueryViewer"@,
        r.variables@ == ValueModel::Object(seq![]),
{
    let names: Vec<FieldName> = Vec::new();
    let values: Vec<InputValue> = Vec::new();
    proof {
        crate::value::lemma_object_view(names, values);
        assert(crate::value::entries_model(names@, values@) =~= seq![]);
    }
    Operation {
        query: VIEWER_DOCUMENT.to_string(),
        operation_name: "QueryViewer".to_string(),
        variables: InputValue::Object(names, values),
    }
}

/// Without a sort or a filter the issue list binds exactly `first` and
/// `order`: `sort` and `filter` are left out, not written as `null`.
pub proof fn lemma_unfiltered_binds_first_and_order(first: i32, order: PaginationOrderBy)
    ensures
        object_of((IssueListVariables { first, order, sort: None, filter: None }).slots())
            == ValueModel::Object(
            seq![(FieldName::First, ValueModel::Int(first as int)), (FieldName::Order, order.scalar_model())],
        ),
{
    let v = IssueListVariables { first, order, sort: None, filter: None };
    let s = v.slots();
    reveal_with_fuel(crate::value::object_entries, 5);
    assert(s.drop_last().drop_last() =~= seq![s[0], s[1]]);
    assert(s.drop_last() =~= seq![s[0], s[1], s[2]]);
    assert(seq![s[0], s[1]].drop_last() =~= seq![s[0]]);
    assert(seq![s[0]].drop_last() =~= Seq::<(FieldName, Option<ValueModel>, Absent)>::empty());
    assert(crate::value::object_entries(s) =~= seq![
        (FieldName::First, ValueModel::Int(first as int)),
        (FieldName::Order, order.scalar_model()),
    ]);
}

} // verus!
