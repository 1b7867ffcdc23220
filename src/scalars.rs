use vstd::prelude::*;

use crate::names::EnumValue;
use crate::value::{InputValue, ValueModel};

verus! {

/// A value that is written as a single GraphQL scalar or enum value.
pub trait Scalar: Sized {
    spec fn scalar_model(&self) -> ValueModel;

    fn to_input(&self) -> (r: InputValue)
        ensures
            r@ == self.scalar_model(),
    ;
}

impl Scalar for String {
    open spec fn scalar_model(&self) -> ValueModel {
        ValueModel::Str(self@)
    }

    fn to_input(&self) -> (r: InputValue) {
        InputValue::Str(self.clone())
    }
}

impl Scalar for bool {
    open spec fn scalar_model(&self) -> ValueModel {
        ValueModel::Boolean(*self)
    }

    fn to_input(&self) -> (r: InputValue) {
        InputValue::Boolean(*self)
    }
}

impl Scalar for i64 {
    open spec fn scalar_model(&self) -> ValueModel {
        ValueModel::Int(*self as int)
    }

    fn to_input(&self) -> (r: InputValue) {
        InputValue::Int(*self)
    }
}

impl Scalar for i32 {
    open spec fn scalar_model(&self) -> ValueModel {
        ValueModel::Int(*self as int)
    }

    fn to_input(&self) -> (r: InputValue) {
        InputValue::Int(*self as i64)
    }
}

/// A timestamp as the service writes it (RFC 3339 text).
#[derive(Clone, Debug)]
pub struct DateTime(pub String);

/// A timestamp, or a duration relative to now (`-P2W`).
#[derive(Clone, Debug)]
pub struct DateTimeOrDuration(pub String);

/// A calendar date without a time of day.
#[derive(Clone, Debug)]
pub struct TimelessDate(pub String);

/// A calendar date, or a duration relative to today.
#[derive(Clone, Debug)]
pub struct TimelessDateOrDuration(pub String);

/// An entity identifier.
#[derive(Clone, Debug)]
pub struct Id(pub String);

impl Scalar for DateTimeOrDuration {
    open spec fn scalar_model(&self) -> ValueModel {
        ValueModel::Str(self.0@)
    }

    fn to_input(&self) -> (r: InputValue) {
        InputValue::Str(self.0.clone())
    }
}

impl Scalar for TimelessDateOrDuration {
    open spec fn scalar_model(&self) -> ValueModel {
        ValueModel::Str(self.0@)
    }

    fn to_input(&self) -> (r: InputValue) {
        InputValue::Str(self.0.clone())
    }
}

impl Scalar for Id {
    open spec fn scalar_model(&self) -> ValueModel {
        ValueModel::Str(self.0@)
    }

    fn to_input(&self) -> (r: InputValue) {
        InputValue::Str(self.0.clone())
    }
}

/// The field by which a page of results is ordered.
#[derive(Clone, Copy, PartialEq, Eq, Debug, Structural)]
pub enum PaginationOrderBy {
    CreatedAt,
    UpdatedAt,
}

impl Scalar for PaginationOrderBy {
    open spec fn scalar_model(&self) -> ValueModel {
        ValueModel::Enum(
            match self {
                PaginationOrderBy::CreatedAt => EnumValue::CreatedAt,
                PaginationOrderBy::UpdatedAt => EnumValue::UpdatedAt,
            },
        )
    }

    fn to_input(&self) -> (r: InputValue) {
        InputValue::Enum(
            match self {
                PaginationOrderBy::CreatedAt => EnumValue::CreatedAt,
                PaginationOrderBy::UpdatedAt => EnumValue::UpdatedAt,
            },
        )
    }
}

/// Where entries without a value are placed in a sorted list.
#[derive(Clone, Copy, PartialEq, Eq, Debug, Structural)]
pub enum PaginationNulls {
    First,
    Last,
}

impl Scalar for PaginationNulls {
    open spec fn scalar_model(&self) -> ValueModel {
        ValueModel::Enum(
            match self {
                PaginationNulls::First => EnumValue::First,
                PaginationNulls::Last => EnumValue::Last,
            },
        )
    }

    fn to_input(&self) -> (r: InputValue) {
        InputValue::Enum(
            match self {
                PaginationNulls::First => EnumValue::First,
                PaginationNulls::Last => EnumValue::Last,
            },
        )
    }
}

/// The direction of a sort.
#[derive(Clone, Copy, PartialEq, Eq, Debug, Structural)]
pub enum PaginationSortOrder {
    Ascending,
    Descending,
}

impl Scalar for PaginationSortOrder {
    open spec fn scalar_model(&self) -> ValueModel {
        ValueModel::Enum(
            match self {
                PaginationSortOrder::Ascending => EnumValue::Ascending,
                PaginationSortOrder::Descending => EnumValue::Descending,
            },
        )
    }

    fn to_input(&self) -> (r: InputValue) {
        InputValue::Enum(
            match self {
                PaginationSortOrder::Ascending => EnumValue::Ascending,
                PaginationSortOrder::Descending => EnumValue::Descending,
            },
        )
    }
}

/// The state of an issue's service-level agreement.
#[derive(Clone, Copy, PartialEq, Eq, Debug, Structural)]
pub enum SlaStatus {
    Breached,
    HighRisk,
    MediumRisk,
    LowRisk,
    Completed,
    Failed,
}

pub open spec fn sla_symbol(s: SlaStatus) -> EnumValue {
    match s {
        SlaStatus::Breached => EnumValue::Breached,
        SlaStatus::HighRisk => EnumValue::HighRisk,
        SlaStatus::MediumRisk => EnumValue::MediumRisk,
        SlaStatus::LowRisk => EnumValue::LowRisk,
        SlaStatus::Completed => EnumValue::Completed,
        SlaStatus::Failed => EnumValue::Failed,
    }
}

impl Scalar for SlaStatus {
    open spec fn scalar_model(&self) -> ValueModel {
        ValueModel::Enum(sla_symbol(*self))
    }

    fn to_input(&self) -> (r: InputValue) {
        InputValue::Enum(
            match self {
                SlaStatus::Breached => EnumValue::Breached,
                SlaStatus::HighRisk => EnumValue::HighRisk,
                SlaStatus::MediumRisk => EnumValue::MediumRisk,
                SlaStatus::LowRisk => EnumValue::LowRisk,
                SlaStatus::Completed => EnumValue::Completed,
                SlaStatus::Failed => EnumValue::Failed,
            },
        )
    }
}

} // verus!


