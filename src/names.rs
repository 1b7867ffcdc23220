use vstd::prelude::*;

verus! {

/// The names of the input-object fields that this library writes.
#[derive(Clone, Copy, PartialEq, Eq, Debug, Structural)]
pub enum FieldName {
    Eq,
    Neq,
    In,
    Nin,
    EqIgnoreCase,
    NeqIgnoreCase,
    StartsWith,
    StartsWithIgnoreCase,
    NotStartsWith,
    EndsWith,
    NotEndsWith,
    Contains,
    ContainsIgnoreCase,
    NotContains,
    NotContainsIgnoreCase,
    /// Written `null`.
    IsNull,
    Lt,
    Lte,
    Gt,
    Gte,
    Or,
    And,
    SubType,
    Length,
    Every,
    /// Written `some`.
    SomeOf,
    Id,
    CreatedAt,
    UpdatedAt,
    Number,
    Title,
    Description,
    Priority,
    Estimate,
    StartedAt,
    TriagedAt,
    CompletedAt,
    CanceledAt,
    AutoClosedAt,
    AutoArchivedAt,
    DueDate,
    SnoozedUntilAt,
    Assignee,
    Creator,
    Team,
    State,
    SearchableContent,
    Name,
    DisplayName,
    Email,
    Active,
    Admin,
    IsMe,
    Key,
    Issues,
    Position,
    /// Written `type`.
    Kind,
    Nulls,
    Order,
    NoPriorityFirst,
    CurrentCycleFirst,
    Label,
    SlaStatus,
    Cycle,
    Milestone,
    Project,
    Manual,
    WorkflowState,
    First,
    Sort,
    Filter,
    IncludeArchived,
}

impl FieldName {
    /// The name as it is written on the wire.
    pub open spec fn spec_wire_name(self) -> Seq<char> {
        match self {
            FieldName::Eq => "eq"@,
            FieldName::Neq => "neq"@,
            FieldName::In => "in"@,
            FieldName::Nin => "nin"@,
            FieldName::EqIgnoreCase => "eqIgnoreCase"@,
            FieldName::NeqIgnoreCase => "neqIgnoreCase"@,
            FieldName::StartsWith => "startsWith"@,
            FieldName::StartsWithIgnoreCase => "startsWithIgnoreCase"@,
            FieldName::NotStartsWith => "notStartsWith"@,
            FieldName::EndsWith => "endsWith"@,
            FieldName::NotEndsWith => "notEndsWith"@,
            FieldName::Contains => "contains"@,
            FieldName::ContainsIgnoreCase => "containsIgnoreCase"@,
            FieldName::NotContains => "notContains"@,
            FieldName::NotContainsIgnoreCase => "notContainsIgnoreCase"@,
            FieldName::IsNull => "null"@,
            FieldName::Lt => "lt"@,
            FieldName::Lte => "lte"@,
            FieldName::Gt => "gt"@,
            FieldName::Gte => "gte"@,
            FieldName::Or => "or"@,
            FieldName::And => "and"@,
            FieldName::SubType => "subType"@,
            FieldName::Length => "length"@,
            FieldName::Every => "every"@,
            FieldName::SomeOf => "some"@,
            FieldName::Id => "id"@,
            FieldName::CreatedAt => "createdAt"@,
            FieldName::UpdatedAt => "updatedAt"@,
            FieldName::Number => "number"@,
            FieldName::Title => "title"@,
            FieldName::Description => "description"@,
            FieldName::Priority => "priority"@,
            FieldName::Estimate => "estimate"@,
            FieldName::StartedAt => "startedAt"@,
            FieldName::TriagedAt => "triagedAt"@,
            FieldName::CompletedAt => "completedAt"@,
            FieldName::CanceledAt => "canceledAt"@,
            FieldName::AutoClosedAt => "autoClosedAt"@,
            FieldName::AutoArchivedAt => "autoArchivedAt"@,
            FieldName::DueDate => "dueDate"@,
            FieldName::SnoozedUntilAt => "snoozedUntilAt"@,
            FieldName::Assignee => "assignee"@,
            FieldName::Creator => "creator"@,
            FieldName::Team => "team"@,
            FieldName::State => "state"@,
            FieldName::SearchableContent => "searchableContent"@,
            FieldName::Name => "name"@,
            FieldName::DisplayName => "displayName"@,
            FieldName::Email => "email"@,
            FieldName::Active => "active"@,
            FieldName::Admin => "admin"@,
            FieldName::IsMe => "isMe"@,
            FieldName::Key => "key"@,
            FieldName::Issues => "issues"@,
            FieldName::Position => "position"@,
            FieldName::Kind => "type"@,
            FieldName::Nulls => "nulls"@,
            FieldName::Order => "order"@,
            FieldName::NoPriorityFirst => "noPriorityFirst"@,
            FieldName::CurrentCycleFirst => "currentCycleFirst"@,
            FieldName::Label => "label"@,
            FieldName::SlaStatus => "slaStatus"@,
            FieldName::Cycle => "cycle"@,
            FieldName::Milestone => "milestone"@,
            FieldName::Project => "project"@,
            FieldName::Manual => "manual"@,
            FieldName::WorkflowState => "workflowState"@,
            FieldName::First => "first"@,
            FieldName::Sort => "sort"@,
            FieldName::Filter => "filter"@,
            FieldName::IncludeArchived => "includeArchived"@,
        }
    }

    pub fn wire_name(&self) -> (r: &'static str)
        ensures
            r@ == self.spec_wire_name(),
    {
        match self {
            FieldName::Eq => "eq",
            FieldName::Neq => "neq",
            FieldName::In => "in",
            FieldName::Nin => "nin",
            FieldName::EqIgnoreCase => "eqIgnoreCase",
            FieldName::NeqIgnoreCase => "neqIgnoreCase",
            FieldName::StartsWith => "startsWith",
            FieldName::StartsWithIgnoreCase => "startsWithIgnoreCase",
            FieldName::NotStartsWith => "notStartsWith",
            FieldName::EndsWith => "endsWith",
            FieldName::NotEndsWith => "notEndsWith",
            FieldName::Contains => "contains",
            FieldName::ContainsIgnoreCase => "containsIgnoreCase",
            FieldName::NotContains => "notContains",
            FieldName::NotContainsIgnoreCase => "notContainsIgnoreCase",
            FieldName::IsNull => "null",
            FieldName::Lt => "lt",
            FieldName::Lte => "lte",
            FieldName::Gt => "gt",
            FieldName::Gte => "gte",
            FieldName::Or => "or",
            FieldName::And => "and",
            FieldName::SubType => "subType",
            FieldName::Length => "length",
            FieldName::Every => "every",
            FieldName::SomeOf => "some",
            FieldName::Id => "id",
            FieldName::CreatedAt => "createdAt",
            FieldName::UpdatedAt => "updatedAt",
            FieldName::Number => "number",
            FieldName::Title => "title",
            FieldName::Description => "description",
            FieldName::Priority => "priority",
            FieldName::Estimate => "estimate",
            FieldName::StartedAt => "startedAt",
            FieldName::TriagedAt => "triagedAt",
            FieldName::CompletedAt => "completedAt",
            FieldName::CanceledAt => "canceledAt",
            FieldName::AutoClosedAt => "autoClosedAt",
            FieldName::AutoArchivedAt => "autoArchivedAt",
            FieldName::DueDate => "dueDate",
            FieldName::SnoozedUntilAt => "snoozedUntilAt",
            FieldName::Assignee => "assignee",
            FieldName::Creator => "creator",
            FieldName::Team => "team",
            FieldName::State => "state",
            FieldName::SearchableContent => "searchableContent",
            FieldName::Name => "name",
            FieldName::DisplayName => "displayName",
            FieldName::Email => "email",
            FieldName::Active => "active",
            FieldName::Admin => "admin",
            FieldName::IsMe => "isMe",
            FieldName::Key => "key",
            FieldName::Issues => "issues",
            FieldName::Position => "position",
            FieldName::Kind => "type",
            FieldName::Nulls => "nulls",
            FieldName::Order => "order",
            FieldName::NoPriorityFirst => "noPriorityFirst",
            FieldName::CurrentCycleFirst => "currentCycleFirst",
            FieldName::Label => "label",
            FieldName::SlaStatus => "slaStatus",
            FieldName::Cycle => "cycle",
            FieldName::Milestone => "milestone",
            FieldName::Project => "project",
            FieldName::Manual => "manual",
            FieldName::WorkflowState => "workflowState",
            FieldName::First => "first",
            FieldName::Sort => "sort",
            FieldName::Filter => "filter",
            FieldName::IncludeArchived => "includeArchived",
        }
    }
}

/// The GraphQL enum values that this library writes.
#[derive(Clone, Copy, PartialEq, Eq, Debug, Structural)]
pub enum EnumValue {
    CreatedAt,
    UpdatedAt,
    First,
    Last,
    Ascending,
    Descending,
    Breached,
    HighRisk,
    MediumRisk,
    LowRisk,
    Completed,
    Failed,
}

impl EnumValue {
    /// The value as it is written on the wire.
    pub open spec fn spec_wire_name(self) -> Seq<char> {
        match self {
            EnumValue::CreatedAt => "createdAt"@,
            EnumValue::UpdatedAt => "updatedAt"@,
            EnumValue::First => "first"@,
            EnumValue::Last => "last"@,
            EnumValue::Ascending => "Ascending"@,
            EnumValue::Descending => "Descending"@,
            EnumValue::Breached => "Breached"@,
            EnumValue::HighRisk => "HighRisk"@,
            EnumValue::MediumRisk => "MediumRisk"@,
            EnumValue::LowRisk => "LowRisk"@,
            EnumValue::Completed => "Completed"@,
            EnumValue::Failed => "Failed"@,
        }
    }

    pub fn wire_name(&self) -> (r: &'static str)
        ensures
            r@ == self.spec_wire_name(),
    {
        match self {
            EnumValue::CreatedAt => "createdAt",
            EnumValue::UpdatedAt => "updatedAt",
            EnumValue::First => "first",
            EnumValue::Last => "last",
            EnumValue::Ascending => "Ascending",
            EnumValue::Descending => "Descending",
            EnumValue::Breached => "Breached",
            EnumValue::HighRisk => "HighRisk",
            EnumValue::MediumRisk => "MediumRisk",
            EnumValue::LowRisk => "LowRisk",
            EnumValue::Completed => "Completed",
            EnumValue::Failed => "Failed",
        }
    }
}

} // verus!
