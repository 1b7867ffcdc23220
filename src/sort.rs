use vstd::prelude::*;

use crate::encode::{nested, opt_object, opt_scalar, scalar, InputObject};
use crate::names::FieldName;
use crate::scalars::{PaginationNulls, PaginationSortOrder};
use crate::value::{object, slots_model, Absent, InputValue, Slot, ValueModel};

verus! {

/// Sorts issues by workflow state. Unset fields are written as `null`.
#[derive(Debug)]
pub struct WorkflowStateSort {
    pub nulls: Option<PaginationNulls>,
    pub order: Option<PaginationSortOrder>,
}

impl Default for WorkflowStateSort {
    fn default() -> (r: Self)
        ensures
            r.nulls is None,
            r.order is None,
    {
        WorkflowStateSort {
            nulls: None,
            order: None,
        }
    }
}

impl InputObject for WorkflowStateSort {
    open spec fn slots(&self) -> Seq<(FieldName, Option<ValueModel>, Absent)> {
        seq![
            (FieldName::Nulls, opt_scalar(self.nulls), Absent::Null),
            (FieldName::Order, opt_scalar(self.order), Absent::Null),
        ]
    }

    fn to_input(&self) -> (r: InputValue) {
        let mut s: Vec<Slot> = Vec::new();
        s.push(Slot { name: FieldName::Nulls, value: scalar(&self.nulls), absent: Absent::Null });
        s.push(Slot { name: FieldName::Order, value: scalar(&self.order), absent: Absent::Null });
        proof {
            assert(slots_model(s@) =~= self.slots());
        }
        object(s)
    }
}

/// Sorts issues by manual order. Unset fields are written as `null`.
#[derive(Debug)]
pub struct ManualSort {
    pub nulls: Option<PaginationNulls>,
    pub order: Option<PaginationSortOrder>,
}

impl Default for ManualSort {
    fn default() -> (r: Self)
        ensures
            r.nulls is None,
            r.order is None,
    {
        ManualSort {
            nulls: None,
            order: None,
        }
    }
}

impl InputObject for ManualSort {
    open spec fn slots(&self) -> Seq<(FieldName, Option<ValueModel>, Absent)> {
        seq![
            (FieldName::Nulls, opt_scalar(self.nulls), Absent::Null),
            (FieldName::Order, opt_scalar(self.order), Absent::Null),
        ]
    }

    fn to_input(&self) -> (r: InputValue) {
        let mut s: Vec<Slot> = Vec::new();
        s.push(Slot { name: FieldName::Nulls, value: scalar(&self.nulls), absent: Absent::Null });
        s.push(Slot { name: FieldName::Order, value: scalar(&self.order), absent: Absent::Null });
        proof {
            assert(slots_model(s@) =~= self.slots());
        }
        object(s)
    }
}

/// Sorts issues by team. Unset fields are written as `null`.
#[derive(Debug)]
pub struct TeamSort {
    pub nulls: Option<PaginationNulls>,
    pub order: Option<PaginationSortOrder>,
}

impl Default for TeamSort {
    fn default() -> (r: Self)
        ensures
            r.nulls is None,
            r.order is None,
    {
        TeamSort {
            nulls: None,
            order: None,
        }
    }
}

impl InputObject for TeamSort {
    open spec fn slots(&self) -> Seq<(FieldName, Option<ValueModel>, Absent)> {
        seq![
            (FieldName::Nulls, opt_scalar(self.nulls), Absent::Null),
            (FieldName::Order, opt_scalar(self.order), Absent::Null),
        ]
    }

    fn to_input(&self) -> (r: InputValue) {
        let mut s: Vec<Slot> = Vec::new();
        s.push(Slot { name: FieldName::Nulls, value: scalar(&self.nulls), absent: Absent::Null });
        s.push(Slot { name: FieldName::Order, value: scalar(&self.order), absent: Absent::Null });
        proof {
            assert(slots_model(s@) =~= self.slots());
        }
        object(s)
    }
}

/// Sorts issues by project. Unset fields are written as `null`.
#[derive(Debug)]
pub struct ProjectSort {
    pub nulls: Option<PaginationNulls>,
    pub order: Option<PaginationSortOrder>,
}

impl Default for ProjectSort {
    fn default() -> (r: Self)
        ensures
            r.nulls is None,
            r.order is None,
    {
        ProjectSort {
            nulls: None,
            order: None,
        }
    }
}

impl InputObject for ProjectSort {
    open spec fn slots(&self) -> Seq<(FieldName, Option<ValueModel>, Absent)> {
        seq![
            (FieldName::Nulls, opt_scalar(self.nulls), Absent::Null),
            (FieldName::Order, opt_scalar(self.order), Absent::Null),
        ]
    }

    fn to_input(&self) -> (r: InputValue) {
        let mut s: Vec<Slot> = Vec::new();
        s.push(Slot { name: FieldName::Nulls, value: scalar(&self.nulls), absent: Absent::Null });
        s.push(Slot { name: FieldName::Order, value: scalar(&self.order), absent: Absent::Null });
        proof {
            assert(slots_model(s@) =~= self.slots());
        }
        object(s)
    }
}

/// Sorts issues by milestone. Unset fields are written as `null`.
#[derive(Debug)]
pub struct MilestoneSort {
    pub nulls: Option<PaginationNulls>,
    pub order: Option<PaginationSortOrder>,
}

impl Default for MilestoneSort {
    fn default() -> (r: Self)
        ensures
            r.nulls is None,
            r.order is None,
    {
        MilestoneSort {
            nulls: None,
            order: None,
        }
    }
}

impl InputObject for MilestoneSort {
    open spec fn slots(&self) -> Seq<(FieldName, Option<ValueModel>, Absent)> {
        seq![
            (FieldName::Nulls, opt_scalar(self.nulls), Absent::Null),
            (FieldName::Order, opt_scalar(self.order), Absent::Null),
        ]
    }

    fn to_input(&self) -> (r: InputValue) {
        let mut s: Vec<Slot> = Vec::new();
        s.push(Slot { name: FieldName::Nulls, value: scalar(&self.nulls), absent: Absent::Null });
        s.push(Slot { name: FieldName::Order, value: scalar(&self.order), absent: Absent::Null });
        proof {
            assert(slots_model(s@) =~= self.slots());
        }
        object(s)
    }
}

/// Sorts issues by time of last update. Unset fields are written as `null`.
#[derive(Debug)]
pub struct UpdatedAtSort {
    pub nulls: Option<PaginationNulls>,
    pub order: Option<PaginationSortOrder>,
}

impl Default for UpdatedAtSort {
    fn default() -> (r: Self)
        ensures
            r.nulls is None,
            r.order is None,
    {
        UpdatedAtSort {
            nulls: None,
            order: None,
        }
    }
}

impl InputObject for UpdatedAtSort {
    open spec fn slots(&self) -> Seq<(FieldName, Option<ValueModel>, Absent)> {
        seq![
            (FieldName::Nulls, opt_scalar(self.nulls), Absent::Null),
            (FieldName::Order, opt_scalar(self.order), Absent::Null),
        ]
    }

    fn to_input(&self) -> (r: InputValue) {
        let mut s: Vec<Slot> = Vec::new();
        s.push(Slot { name: FieldName::Nulls, value: scalar(&self.nulls), absent: Absent::Null });
        s.push(Slot { name: FieldName::Order, value: scalar(&self.order), absent: Absent::Null });
        proof {
            assert(slots_model(s@) =~= self.slots());
        }
        object(s)
    }
}

/// Sorts issues by service-level state. Unset fields are written as `null`.
#[derive(Debug)]
pub struct SlaStatusSort {
    pub nulls: Option<PaginationNulls>,
    pub order: Option<PaginationSortOrder>,
}

impl Default for SlaStatusSort {
    fn default() -> (r: Self)
        ensures
            r.nulls is None,
            r.order is None,
    {
        SlaStatusSort {
            nulls: None,
            order: None,
        }
    }
}

impl InputObject for SlaStatusSort {
    open spec fn slots(&self) -> Seq<(FieldName, Option<ValueModel>, Absent)> {
        seq![
            (FieldName::Nulls, opt_scalar(self.nulls), Absent::Null),
            (FieldName::Order, opt_scalar(self.order), Absent::Null),
        ]
    }

    fn to_input(&self) -> (r: InputValue) {
        let mut s: Vec<Slot> = Vec::new();
        s.push(Slot { name: FieldName::Nulls, value: scalar(&self.nulls), absent: Absent::Null });
        s.push(Slot { name: FieldName::Order, value: scalar(&self.order), absent: Absent::Null });
        proof {
            assert(slots_model(s@) =~= self.slots());
        }
        object(s)
    }
}

/// Sorts issues by label. Unset fields are written as `null`.
#[derive(Debug)]
pub struct LabelSort {
    pub nulls: Option<PaginationNulls>,
    pub order: Option<PaginationSortOrder>,
}

impl Default for LabelSort {
    fn default() -> (r: Self)
        ensures
            r.nulls is None,
            r.order is None,
    {
        LabelSort {
            nulls: None,
            order: None,
        }
    }
}

impl InputObject for LabelSort {
    open spec fn slots(&self) -> Seq<(FieldName, Option<ValueModel>, Absent)> {
        seq![
            (FieldName::Nulls, opt_scalar(self.nulls), Absent::Null),
            (FieldName::Order, opt_scalar(self.order), Absent::Null),
        ]
    }

    fn to_input(&self) -> (r: InputValue) {
        let mut s: Vec<Slot> = Vec::new();
        s.push(Slot { name: FieldName::Nulls, value: scalar(&self.nulls), absent: Absent::Null });
        s.push(Slot { name: FieldName::Order, value: scalar(&self.order), absent: Absent::Null });
        proof {
            assert(slots_model(s@) =~= self.slots());
        }
        object(s)
    }
}

/// Sorts issues by title. Unset fields are written as `null`.
#[derive(Debug)]
pub struct TitleSort {
    pub nulls: Option<PaginationNulls>,
    pub order: Option<PaginationSortOrder>,
}

impl Default for TitleSort {
    fn default() -> (r: Self)
        ensures
            r.nulls is None,
            r.order is None,
    {
        TitleSort {
            nulls: None,
            order: None,
        }
    }
}

impl InputObject for TitleSort {
    open spec fn slots(&self) -> Seq<(FieldName, Option<ValueModel>, Absent)> {
        seq![
            (FieldName::Nulls, opt_scalar(self.nulls), Absent::Null),
            (FieldName::Order, opt_scalar(self.order), Absent::Null),
        ]
    }

    fn to_input(&self) -> (r: InputValue) {
        let mut s: Vec<Slot> = Vec::new();
        s.push(Slot { name: FieldName::Nulls, value: scalar(&self.nulls), absent: Absent::Null });
        s.push(Slot { name: FieldName::Order, value: scalar(&self.order), absent: Absent::Null });
        proof {
            assert(slots_model(s@) =~= self.slots());
        }
        object(s)
    }
}

/// Sorts issues by priority. Unset fields are written as `null`.
#[derive(Debug)]
pub struct PrioritySort {
    pub nulls: Option<PaginationNulls>,
    pub order: Option<PaginationSortOrder>,
    pub no_priority_first: Option<bool>,
}

impl Default for PrioritySort {
    fn default() -> (r: Self)
        ensures
            r.nulls is None,
            r.order is None,
            r.no_priority_first is None,
    {
        PrioritySort {
            nulls: None,
            order: None,
            no_priority_first: None,
        }
    }
}

impl InputObject for PrioritySort {
    open spec fn slots(&self) -> Seq<(FieldName, Option<ValueModel>, Absent)> {
        seq![
            (FieldName::Nulls, opt_scalar(self.nulls), Absent::Null),
            (FieldName::Order, opt_scalar(self.order), Absent::Null),
            (FieldName::NoPriorityFirst, opt_scalar(self.no_priority_first), Absent::Null),
        ]
    }

    fn to_input(&self) -> (r: InputValue) {
        let mut s: Vec<Slot> = Vec::new();
        s.push(Slot { name: FieldName::Nulls, value: scalar(&self.nulls), absent: Absent::Null });
        s.push(Slot { name: FieldName::Order, value: scalar(&self.order), absent: Absent::Null });
        s.push(Slot { name: FieldName::NoPriorityFirst, value: scalar(&self.no_priority_first), absent: Absent::Null });
        proof {
            assert(slots_model(s@) =~= self.slots());
        }
        object(s)
    }
}

/// Sorts issues by estimate. Unset fields are written as `null`.
#[derive(Debug)]
pub struct EstimateSort {
    pub nulls: Option<PaginationNulls>,
    pub order: Option<PaginationSortOrder>,
}

impl Default for EstimateSort {
    fn default() -> (r: Self)
        ensures
            r.nulls is None,
            r.order is None,
    {
        EstimateSort {
            nulls: None,
            order: None,
        }
    }
}

impl InputObject for EstimateSort {
    open spec fn slots(&self) -> Seq<(FieldName, Option<ValueModel>, Absent)> {
        seq![
            (FieldName::Nulls, opt_scalar(self.nulls), Absent::Null),
            (FieldName::Order, opt_scalar(self.order), Absent::Null),
        ]
    }

    fn to_input(&self) -> (r: InputValue) {
        let mut s: Vec<Slot> = Vec::new();
        s.push(Slot { name: FieldName::Nulls, value: scalar(&self.nulls), absent: Absent::Null });
        s.push(Slot { name: FieldName::Order, value: scalar(&self.order), absent: Absent::Null });
        proof {
            assert(slots_model(s@) =~= self.slots());
        }
        object(s)
    }
}

/// Sorts issues by due date. Unset fields are written as `null`.
#[derive(Debug)]
pub struct DueDateSort {
    pub nulls: Option<PaginationNulls>,
    pub order: Option<PaginationSortOrder>,
}

impl Default for DueDateSort {
    fn default() -> (r: Self)
        ensures
            r.nulls is None,
            r.order is None,
    {
        DueDateSort {
            nulls: None,
            order: None,
        }
    }
}

impl InputObject for DueDateSort {
    open spec fn slots(&self) -> Seq<(FieldName, Option<ValueModel>, Absent)> {
        seq![
            (FieldName::Nulls, opt_scalar(self.nulls), Absent::Null),
            (FieldName::Order, opt_scalar(self.order), Absent::Null),
        ]
    }

    fn to_input(&self) -> (r: InputValue) {
        let mut s: Vec<Slot> = Vec::new();
        s.push(Slot { name: FieldName::Nulls, value: scalar(&self.nulls), absent: Absent::Null });
        s.push(Slot { name: FieldName::Order, value: scalar(&self.order), absent: Absent::Null });
        proof {
            assert(slots_model(s@) =~= self.slots());
        }
        object(s)
    }
}

/// Sorts issues by cycle. Unset fields are written as `null`.
#[derive(Debug)]
pub struct CycleSort {
    pub nulls: Option<PaginationNulls>,
    pub order: Option<PaginationSortOrder>,
    pub current_cycle_first: Option<bool>,
}

impl Default for CycleSort {
    fn default() -> (r: Self)
        ensures
            r.nulls is None,
            r.order is None,
            r.current_cycle_first is None,
    {
        CycleSort {
            nulls: None,
            order: None,
            current_cycle_first: None,
        }
    }
}

impl InputObject for CycleSort {
    open spec fn slots(&self) -> Seq<(FieldName, Option<ValueModel>, Absent)> {
        seq![
            (FieldName::Nulls, opt_scalar(self.nulls), Absent::Null),
            (FieldName::Order, opt_scalar(self.order), Absent::Null),
            (FieldName::CurrentCycleFirst, opt_scalar(self.current_cycle_first), Absent::Null),
        ]
    }

    fn to_input(&self) -> (r: InputValue) {
        let mut s: Vec<Slot> = Vec::new();
        s.push(Slot { name: FieldName::Nulls, value: scalar(&self.nulls), absent: Absent::Null });
        s.push(Slot { name: FieldName::Order, value: scalar(&self.order), absent: Absent::Null });
        s.push(Slot { name: FieldName::CurrentCycleFirst, value: scalar(&self.current_cycle_first), absent: Absent::Null });
        proof {
            assert(slots_model(s@) =~= self.slots());
        }
        object(s)
    }
}

/// Sorts issues by time of creation. Unset fields are written as `null`.
#[derive(Debug)]
pub struct CreatedAtSort {
    pub nulls: Option<PaginationNulls>,
    pub order: Option<PaginationSortOrder>,
}

impl Default for CreatedAtSort {
    fn default() -> (r: Self)
        ensures
            r.nulls is None,
            r.order is None,
    {
        CreatedAtSort {
            nulls: None,
            order: None,
        }
    }
}

impl InputObject for CreatedAtSort {
    open spec fn slots(&self) -> Seq<(FieldName, Option<ValueModel>, Absent)> {
        seq![
            (FieldName::Nulls, opt_scalar(self.nulls), Absent::Null),
            (FieldName::Order, opt_scalar(self.order), Absent::Null),
        ]
    }

    fn to_input(&self) -> (r: InputValue) {
        let mut s: Vec<Slot> = Vec::new();
        s.push(Slot { name: FieldName::Nulls, value: scalar(&self.nulls), absent: Absent::Null });
        s.push(Slot { name: FieldName::Order, value: scalar(&self.order), absent: Absent::Null });
        proof {
            assert(slots_model(s@) =~= self.slots());
        }
        object(s)
    }
}

/// Sorts issues by time of completion. Unset fields are written as `null`.
#[derive(Debug)]
pub struct CompletedAtSort {
    pub nulls: Option<PaginationNulls>,
    pub order: Option<PaginationSortOrder>,
}

impl Default for CompletedAtSort {
    fn default() -> (r: Self)
        ensures
            r.nulls is None,
            r.order is None,
    {
        CompletedAtSort {
            nulls: None,
            order: None,
        }
    }
}

impl InputObject for CompletedAtSort {
    open spec fn slots(&self) -> Seq<(FieldName, Option<ValueModel>, Absent)> {
        seq![
            (FieldName::Nulls, opt_scalar(self.nulls), Absent::Null),
            (FieldName::Order, opt_scalar(self.order), Absent::Null),
        ]
    }

    fn to_input(&self) -> (r: InputValue) {
        let mut s: Vec<Slot> = Vec::new();
        s.push(Slot { name: FieldName::Nulls, value: scalar(&self.nulls), absent: Absent::Null });
        s.push(Slot { name: FieldName::Order, value: scalar(&self.order), absent: Absent::Null });
        proof {
            assert(slots_model(s@) =~= self.slots());
        }
        object(s)
    }
}

/// Sorts issues by assignee. Unset fields are written as `null`.
#[derive(Debug)]
pub struct AssigneeSort {
    pub nulls: Option<PaginationNulls>,
    pub order: Option<PaginationSortOrder>,
}

impl Default for AssigneeSort {
    fn default() -> (r: Self)
        ensures
            r.nulls is None,
            r.order is None,
    {
        AssigneeSort {
            nulls: None,
            order: None,
        }
    }
}

impl InputObject for AssigneeSort {
    open spec fn slots(&self) -> Seq<(FieldName, Option<ValueModel>, Absent)> {
        seq![
            (FieldName::Nulls, opt_scalar(self.nulls), Absent::Null),
            (FieldName::Order, opt_scalar(self.order), Absent::Null),
        ]
    }

    fn to_input(&self) -> (r: InputValue) {
        let mut s: Vec<Slot> = Vec::new();
        s.push(Slot { name: FieldName::Nulls, value: scalar(&self.nulls), absent: Absent::Null });
        s.push(Slot { name: FieldName::Order, value: scalar(&self.order), absent: Absent::Null });
        proof {
            assert(slots_model(s@) =~= self.slots());
        }
        object(s)
    }
}

/// One sort criterion for issues. Unset fields are written as `null`.
#[derive(Debug)]
pub struct IssueSortInput {
    pub priority: Option<PrioritySort>,
    pub estimate: Option<EstimateSort>,
    pub title: Option<TitleSort>,
    pub label: Option<LabelSort>,
    pub sla_status: Option<SlaStatusSort>,
    pub created_at: Option<CreatedAtSort>,
    pub updated_at: Option<UpdatedAtSort>,
    pub completed_at: Option<CompletedAtSort>,
    pub due_date: Option<DueDateSort>,
    pub cycle: Option<CycleSort>,
    pub milestone: Option<MilestoneSort>,
    pub assignee: Option<AssigneeSort>,
    pub project: Option<ProjectSort>,
    pub team: Option<TeamSort>,
    pub manual: Option<ManualSort>,
    pub workflow_state: Option<WorkflowStateSort>,
}

impl Default for IssueSortInput {
    fn default() -> (r: Self)
        ensures
            r.priority is None,
            r.estimate is None,
            r.title is None,
            r.label is None,
            r.sla_status is None,
            r.created_at is None,
            r.updated_at is None,
            r.completed_at is None,
            r.due_date is None,
            r.cycle is None,
            r.milestone is None,
            r.assignee is None,
            r.project is None,
            r.team is None,
            r.manual is None,
            r.workflow_state is None,
    {
        IssueSortInput {
            priority: None,
            estimate: None,
            title: None,
            label: None,
            sla_status: None,
            created_at: None,
            updated_at: None,
            completed_at: None,
            due_date: None,
            cycle: None,
            milestone: None,
            assignee: None,
            project: None,
            team: None,
            manual: None,
            workflow_state: None,
        }
    }
}

impl InputObject for IssueSortInput {
    open spec fn slots(&self) -> Seq<(FieldName, Option<ValueModel>, Absent)> {
        seq![
            (FieldName::Priority, opt_object(self.priority), Absent::Null),
            (FieldName::Estimate, opt_object(self.estimate), Absent::Null),
            (FieldName::Title, opt_object(self.title), Absent::Null),
            (FieldName::Label, opt_object(self.label), Absent::Null),
            (FieldName::SlaStatus, opt_object(self.sla_status), Absent::Null),
            (FieldName::CreatedAt, opt_object(self.created_at), Absent::Null),
            (FieldName::UpdatedAt, opt_object(self.updated_at), Absent::Null),
            (FieldName::CompletedAt, opt_object(self.completed_at), Absent::Null),
            (FieldName::DueDate, opt_object(self.due_date), Absent::Null),
            (FieldName::Cycle, opt_object(self.cycle), Absent::Null),
            (FieldName::Milestone, opt_object(self.milestone), Absent::Null),
            (FieldName::Assignee, opt_object(self.assignee), Absent::Null),
            (FieldName::Project, opt_object(self.project), Absent::Null),
            (FieldName::Team, opt_object(self.team), Absent::Null),
            (FieldName::Manual, opt_object(self.manual), Absent::Null),
            (FieldName::WorkflowState, opt_object(self.workflow_state), Absent::Null),
        ]
    }

    fn to_input(&self) -> (r: InputValue) {
        let mut s: Vec<Slot> = Vec::new();
        s.push(Slot { name: FieldName::Priority, value: nested(&self.priority), absent: Absent::Null });
        s.push(Slot { name: FieldName::Estimate, value: nested(&self.estimate), absent: Absent::Null });
        s.push(Slot { name: FieldName::Title, value: nested(&self.title), absent: Absent::Null });
        s.push(Slot { name: FieldName::Label, value: nested(&self.label), absent: Absent::Null });
        s.push(Slot { name: FieldName::SlaStatus, value: nested(&self.sla_status), absent: Absent::Null });
        s.push(Slot { name: FieldName::CreatedAt, value: nested(&self.created_at), absent: Absent::Null });
        s.push(Slot { name: FieldName::UpdatedAt, value: nested(&self.updated_at), absent: Absent::Null });
        s.push(Slot { name: FieldName::CompletedAt, value: nested(&self.completed_at), absent: Absent::Null });
        s.push(Slot { name: FieldName::DueDate, value: nested(&self.due_date), absent: Absent::Null });
        s.push(Slot { name: FieldName::Cycle, value: nested(&self.cycle), absent: Absent::Null });
        s.push(Slot { name: FieldName::Milestone, value: nested(&self.milestone), absent: Absent::Null });
        s.push(Slot { name: FieldName::Assignee, value: nested(&self.assignee), absent: Absent::Null });
        s.push(Slot { name: FieldName::Project, value: nested(&self.project), absent: Absent::Null });
        s.push(Slot { name: FieldName::Team, value: nested(&self.team), absent: Absent::Null });
        s.push(Slot { name: FieldName::Manual, value: nested(&self.manual), absent: Absent::Null });
        s.push(Slot { name: FieldName::WorkflowState, value: nested(&self.workflow_state), absent: Absent::Null });
        proof {
            assert(slots_model(s@) =~= self.slots());
        }
        object(s)
    }
}

} // verus!
