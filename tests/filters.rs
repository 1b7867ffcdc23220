use linear_api::comparators::{BooleanComparator, StringComparator};
use linear_api::filter::IssueFilter;
use linear_api::names::FieldName;
use linear_api::value::InputValue;

fn entries(v: &InputValue) -> (&Vec<FieldName>, &Vec<InputValue>) {
    match v {
        InputValue::Object(k, v) => (k, v),
        _ => panic!("not an object"),
    }
}

fn field<'a>(v: &'a InputValue, name: FieldName) -> Option<&'a InputValue> {
    let (k, vals) = entries(v);
    k.iter().position(|n| *n == name).map(|i| &vals[i])
}

#[test]
fn boolean_true_helper() {
    let c = BooleanComparator::is_true();
    assert_eq!(c.eq, Some(true));
    assert_eq!(c.neq, None);
}

#[test]
fn string_eq_writes_only_eq() {
    let c = StringComparator::eq("bob".to_string());
    let v = linear_api::encode::InputObject::to_input(&c);
    let (k, vals) = entries(&v);
    assert_eq!(k, &vec![FieldName::Eq]);
    assert!(matches!(&vals[0], InputValue::Str(s) if s == "bob"));
}

#[test]
fn assignee_username_bob() {
    let f = IssueFilter::assignee_username("bob".to_string());
    let v = f.to_input();
    let (k, _) = entries(&v);
    assert_eq!(k, &vec![FieldName::Assignee]);
    let a = field(&v, FieldName::Assignee).unwrap();
    let (ak, _) = entries(a);
    assert_eq!(ak, &vec![FieldName::Name]);
    let n = field(a, FieldName::Name).unwrap();
    assert!(matches!(field(n, FieldName::Eq), Some(InputValue::Str(s)) if s == "bob"));
}

use linear_api::comparators::{ContentComparator, DateComparator, NumberComparator};
use linear_api::encode::InputObject;
use linear_api::filter::{NullableUserFilter, TeamFilter};
use linear_api::names::EnumValue;
use linear_api::operation::{viewer_operation, IssueListVariables, ProjectListVariables, TeamListVariables, ISSUE_LIST_DOCUMENT};
use linear_api::scalars::{DateTimeOrDuration, PaginationNulls, PaginationOrderBy};
use linear_api::sort::{IssueSortInput, PrioritySort};

fn names_of(v: &InputValue) -> Vec<FieldName> {
    entries(v).0.clone()
}

#[test]
fn boolean_false_helper() {
    let c = BooleanComparator::is_false();
    assert_eq!(c.eq, Some(false));
    assert_eq!(c.neq, None);
    assert_eq!(names_of(&c.to_input()), vec![FieldName::Eq]);
}

#[test]
fn unset_comparator_is_empty_object() {
    for v in [
        StringComparator::default().to_input(),
        BooleanComparator::default().to_input(),
        DateComparator::default().to_input(),
        NumberComparator::default().to_input(),
        ContentComparator::default().to_input(),
    ] {
        assert!(matches!(&v, InputValue::Object(k, vals) if k.is_empty() && vals.is_empty()));
    }
}

#[test]
fn comparator_writes_only_set_operators() {
    let mut c = NumberComparator::default();
    c.gt = Some(3);
    c.in_ = Some(vec![1, 2]);
    let v = c.to_input();
    assert_eq!(names_of(&v), vec![FieldName::In, FieldName::Gt]);
    assert!(matches!(field(&v, FieldName::Gt), Some(InputValue::Int(3))));
    match field(&v, FieldName::In) {
        Some(InputValue::List(items)) => {
            assert_eq!(items.len(), 2);
            assert!(matches!(items[1], InputValue::Int(2)));
        }
        _ => panic!("in is not a list"),
    }
    let mut d = DateComparator::default();
    d.lt = Some(DateTimeOrDuration("-P2W".to_string()));
    let v = d.to_input();
    assert_eq!(names_of(&v), vec![FieldName::Lt]);
    assert!(matches!(field(&v, FieldName::Lt), Some(InputValue::Str(s)) if s == "-P2W"));
}

#[test]
fn unset_filter_is_empty_object() {
    let v = IssueFilter::default().to_input();
    assert!(matches!(&v, InputValue::Object(k, _) if k.is_empty()));
    let v = TeamFilter::default().to_input();
    assert!(matches!(&v, InputValue::Object(k, _) if k.is_empty()));
}

#[test]
fn merge_of_none_is_no_filter() {
    assert!(IssueFilter::merge(vec![]).is_none());
}

#[test]
fn merge_of_one_is_that_filter() {
    let f = IssueFilter::merge(vec![IssueFilter::team_key("ENG".to_string())]).unwrap();
    assert!(f.and.is_none());
    let v = f.to_input();
    assert_eq!(names_of(&v), vec![FieldName::Team]);
}

#[test]
fn merge_of_two_keeps_order_in_and() {
    let f = IssueFilter::merge(vec![
        IssueFilter::assignee_username("bob".to_string()),
        IssueFilter::search("crash".to_string()),
    ])
    .unwrap();
    let and = f.and.as_ref().unwrap();
    assert_eq!(and.len(), 2);
    assert!(and[0].assignee.is_some());
    assert!(and[1].searchable_content.is_some());
    let v = f.to_input();
    assert_eq!(names_of(&v), vec![FieldName::And]);
    match field(&v, FieldName::And) {
        Some(InputValue::List(items)) => {
            assert_eq!(names_of(&items[0]), vec![FieldName::Assignee]);
            assert_eq!(names_of(&items[1]), vec![FieldName::SearchableContent]);
        }
        _ => panic!("and is not a list"),
    }
}

#[test]
fn assignee_me_uses_is_me() {
    let f = IssueFilter::assignee_me();
    let u = f.assignee.as_ref().unwrap();
    assert!(u.name.is_none());
    assert_eq!(u.is_me.as_ref().unwrap().eq, Some(true));
    let v = f.to_input();
    let a = field(&v, FieldName::Assignee).unwrap();
    assert_eq!(names_of(a), vec![FieldName::IsMe]);
    assert!(matches!(field(field(a, FieldName::IsMe).unwrap(), FieldName::Eq), Some(InputValue::Boolean(true))));
}

#[test]
fn creator_username_sets_creator_name() {
    let f = IssueFilter::creator_username("ann".to_string());
    assert!(f.assignee.is_none());
    assert_eq!(f.creator.as_ref().unwrap().name.as_ref().unwrap().eq.as_deref(), Some("ann"));
    assert_eq!(names_of(&f.to_input()), vec![FieldName::Creator]);
}

#[test]
fn team_key_and_search_helpers() {
    let f = IssueFilter::team_key("ENG".to_string());
    let v = f.to_input();
    let t = field(&v, FieldName::Team).unwrap();
    let k = field(t, FieldName::Key).unwrap();
    assert!(matches!(field(k, FieldName::Eq), Some(InputValue::Str(s)) if s == "ENG"));
    let f = IssueFilter::search("crash".to_string());
    let v = f.to_input();
    let c = field(&v, FieldName::SearchableContent).unwrap();
    assert_eq!(names_of(c), vec![FieldName::Contains]);
    assert!(matches!(field(c, FieldName::Contains), Some(InputValue::Str(s)) if s == "crash"));
}

#[test]
fn me_and_username_user_filters() {
    let u = NullableUserFilter::me();
    assert!(u.name.is_none());
    let u = NullableUserFilter::username("bob".to_string());
    assert_eq!(u.name.as_ref().unwrap().eq.as_deref(), Some("bob"));
    assert!(u.is_me.is_none());
}

#[test]
fn list_args_me_selects_caller() {
    let f = IssueFilter::from_list_args(Some("me".to_string()), None, None, None).unwrap();
    assert!(f.assignee.as_ref().unwrap().is_me.is_some());
    let f = IssueFilter::from_list_args(None, Some("me".to_string()), None, None).unwrap();
    assert!(f.assignee.as_ref().unwrap().is_me.is_some());
    let f = IssueFilter::from_list_args(Some("bob".to_string()), None, None, None).unwrap();
    assert_eq!(f.assignee.as_ref().unwrap().name.as_ref().unwrap().eq.as_deref(), Some("bob"));
}

#[test]
fn list_args_without_arguments_give_no_filter() {
    assert!(IssueFilter::from_list_args(None, None, None, None).is_none());
}

#[test]
fn list_args_combine_in_order() {
    let f = IssueFilter::from_list_args(Some("bob".to_string()), None, Some("ENG".to_string()), Some("x".to_string())).unwrap();
    let and = f.and.unwrap();
    assert_eq!(and.len(), 3);
    assert!(and[0].assignee.is_some());
    assert!(and[1].team.is_some());
    assert!(and[2].searchable_content.is_some());
}

#[test]
fn nested_and_or_tree_is_written_at_every_depth() {
    let leaf = |name: &str| IssueFilter::assignee_username(name.to_string());
    let mut inner = IssueFilter::default();
    inner.or = Some(vec![leaf("a"), leaf("b")]);
    let mut middle = IssueFilter::default();
    middle.and = Some(vec![inner, IssueFilter::search("t".to_string())]);
    let mut outer = IssueFilter::default();
    outer.or = Some(vec![middle]);
    outer.title = Some(StringComparator::eq("x".to_string()));
    let v = outer.to_input();
    assert_eq!(names_of(&v), vec![FieldName::Title, FieldName::Or]);
    let or = match field(&v, FieldName::Or) {
        Some(InputValue::List(items)) => items,
        _ => panic!("or is not a list"),
    };
    let and = match field(&or[0], FieldName::And) {
        Some(InputValue::List(items)) => items,
        _ => panic!("and is not a list"),
    };
    assert_eq!(and.len(), 2);
    let deepest = match field(&and[0], FieldName::Or) {
        Some(InputValue::List(items)) => items,
        _ => panic!("inner or is not a list"),
    };
    let name = field(field(&deepest[1], FieldName::Assignee).unwrap(), FieldName::Name).unwrap();
    assert!(matches!(field(name, FieldName::Eq), Some(InputValue::Str(s)) if s == "b"));
}

#[test]
fn team_filter_reaches_issue_collection() {
    let mut coll = linear_api::filter::IssueCollectionFilter::default();
    coll.some = Some(Box::new(IssueFilter::search("bug".to_string())));
    let mut team = TeamFilter::default();
    team.issues = Some(Box::new(coll));
    let mut f = IssueFilter::default();
    f.team = Some(team);
    let v = f.to_input();
    let t = field(&v, FieldName::Team).unwrap();
    let i = field(t, FieldName::Issues).unwrap();
    let s = field(i, FieldName::SomeOf).unwrap();
    assert_eq!(names_of(s), vec![FieldName::SearchableContent]);
}

#[test]
fn unfiltered_issue_list_binds_first_and_order_only() {
    let vars = IssueListVariables::for_listing(20, None);
    assert_eq!(vars.order, PaginationOrderBy::UpdatedAt);
    let op = vars.build();
    assert_eq!(op.query, ISSUE_LIST_DOCUMENT);
    assert_eq!(op.operation_name, "IssueList");
    assert_eq!(names_of(&op.variables), vec![FieldName::First, FieldName::Order]);
    assert!(matches!(field(&op.variables, FieldName::First), Some(InputValue::Int(20))));
    assert!(matches!(field(&op.variables, FieldName::Order), Some(InputValue::Enum(EnumValue::UpdatedAt))));
}

#[test]
fn filtered_issue_list_binds_filter() {
    let vars = IssueListVariables::for_listing(5, Some(IssueFilter::search("x".to_string())));
    let op = vars.build();
    assert_eq!(names_of(&op.variables), vec![FieldName::First, FieldName::Order, FieldName::Filter]);
}

#[test]
fn sort_inputs_write_unset_fields_as_null() {
    let mut p = PrioritySort::default();
    p.nulls = Some(PaginationNulls::Last);
    let v = p.to_input();
    assert_eq!(names_of(&v), vec![FieldName::Nulls, FieldName::Order, FieldName::NoPriorityFirst]);
    assert!(matches!(field(&v, FieldName::Order), Some(InputValue::Null)));
    let mut s = IssueSortInput::default();
    s.priority = Some(p);
    let vars = IssueListVariables { first: 1, order: PaginationOrderBy::CreatedAt, sort: Some(vec![s]), filter: None };
    let op = vars.build();
    assert_eq!(names_of(&op.variables), vec![FieldName::First, FieldName::Order, FieldName::Sort]);
}

#[test]
fn team_and_project_lists_bind_their_variables() {
    let op = TeamListVariables { first: 50, order: PaginationOrderBy::CreatedAt }.build();
    assert_eq!(op.operation_name, "TeamList");
    assert_eq!(names_of(&op.variables), vec![FieldName::First, FieldName::Order]);
    let op = ProjectListVariables { first: 50, include_archived: true, order: PaginationOrderBy::CreatedAt }.build();
    assert_eq!(op.operation_name, "ProjectList");
    assert_eq!(names_of(&op.variables), vec![FieldName::First, FieldName::IncludeArchived, FieldName::Order]);
    assert!(matches!(field(&op.variables, FieldName::IncludeArchived), Some(InputValue::Boolean(true))));
}

#[test]
fn viewer_operation_binds_nothing() {
    let op = viewer_operation();
    assert_eq!(op.operation_name, "QueryViewer");
    assert!(names_of(&op.variables).is_empty());
}

#[test]
fn wire_names() {
    assert_eq!(FieldName::In.wire_name(), "in");
    assert_eq!(FieldName::SearchableContent.wire_name(), "searchableContent");
    assert_eq!(FieldName::IsMe.wire_name(), "isMe");
    assert_eq!(FieldName::SomeOf.wire_name(), "some");
    assert_eq!(FieldName::IsNull.wire_name(), "null");
    assert_eq!(FieldName::Kind.wire_name(), "type");
    assert_eq!(EnumValue::UpdatedAt.wire_name(), "updatedAt");
    assert_eq!(EnumValue::HighRisk.wire_name(), "HighRisk");
}
