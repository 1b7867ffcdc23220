use vstd::prelude::*;

use crate::encode::{nested, nested_list, opt_object, opt_objects, opt_scalar, opt_scalars, scalar, scalars, InputObject, Comparator};
use crate::names::FieldName;
use crate::scalars::{DateTimeOrDuration, Id, SlaStatus, TimelessDateOrDuration};
use crate::value::{object, slots_model, Absent, InputValue, Slot, ValueModel};

verus! {

/// Matches a boolean field.
#[derive(Debug)]
pub struct BooleanComparator {
    pub eq: Option<bool>,
    pub neq: Option<bool>,
}

impl Default for BooleanComparator {
    fn default() -> (r: Self)
        ensures
            r.eq is None,
            r.neq is None,
    {
        BooleanComparator {
            eq: None,
            neq: None,
        }
    }
}

impl InputObject for BooleanComparator {
    open spec fn slots(&self) -> Seq<(FieldName, Option<ValueModel>, Absent)> {
        seq![
            (FieldName::Eq, opt_scalar(self.eq), Absent::Omit),
            (FieldName::Neq, opt_scalar(self.neq), Absent::Omit),
        ]
    }

    fn to_input(&self) -> (r: InputValue) {
        let mut s: Vec<Slot> = Vec::new();
        s.push(Slot { name: FieldName::Eq, value: scalar(&self.eq), absent: Absent::Omit });
        s.push(Slot { name: FieldName::Neq, value: scalar(&self.neq), absent: Absent::Omit });
        proof {
            assert(slots_model(s@) =~= self.slots());
        }
        object(s)
    }
}

impl Comparator for BooleanComparator {
    proof fn lemma_omits_unset(&self) {
    }
}

/// Matches whether a relation of some kind exists.
#[derive(Debug)]
pub struct RelationExistsComparator {
    pub eq: Option<bool>,
    pub neq: Option<bool>,
}

impl Default for RelationExistsComparator {
    fn default() -> (r: Self)
        ensures
            r.eq is None,
            r.neq is None,
    {
        RelationExistsComparator {
            eq: None,
            neq: None,
        }
    }
}

impl InputObject for RelationExistsComparator {
    open spec fn slots(&self) -> Seq<(FieldName, Option<ValueModel>, Absent)> {
        seq![
            (FieldName::Eq, opt_scalar(self.eq), Absent::Omit),
            (FieldName::Neq, opt_scalar(self.neq), Absent::Omit),
        ]
    }

    fn to_input(&self) -> (r: InputValue) {
        let mut s: Vec<Slot> = Vec::new();
        s.push(Slot { name: FieldName::Eq, value: scalar(&self.eq), absent: Absent::Omit });
        s.push(Slot { name: FieldName::Neq, value: scalar(&self.neq), absent: Absent::Omit });
        proof {
            assert(slots_model(s@) =~= self.slots());
        }
        object(s)
    }
}

impl Comparator for RelationExistsComparator {
    proof fn lemma_omits_unset(&self) {
    }
}

/// Matches a text field.
#[derive(Debug)]
pub struct StringComparator {
    pub eq: Option<String>,
    pub neq: Option<String>,
    pub in_: Option<Vec<String>>,
    pub nin: Option<Vec<String>>,
    pub eq_ignore_case: Option<String>,
    pub neq_ignore_case: Option<String>,
    pub starts_with: Option<String>,
    pub starts_with_ignore_case: Option<String>,
    pub not_starts_with: Option<String>,
    pub ends_with: Option<String>,
    pub not_ends_with: Option<String>,
    pub contains: Option<String>,
    pub contains_ignore_case: Option<String>,
    pub not_contains: Option<String>,
    pub not_contains_ignore_case: Option<String>,
}

impl Default for StringComparator {
    fn default() -> (r: Self)
        ensures
            r.eq is None,
            r.neq is None,
            r.in_ is None,
            r.nin is None,
            r.eq_ignore_case is None,
            r.neq_ignore_case is None,
            r.starts_with is None,
            r.starts_with_ignore_case is None,
            r.not_starts_with is None,
            r.ends_with is None,
            r.not_ends_with is None,
            r.contains is None,
            r.contains_ignore_case is None,
            r.not_contains is None,
            r.not_contains_ignore_case is None,
    {
        StringComparator {
            eq: None,
            neq: None,
            in_: None,
            nin: None,
            eq_ignore_case: None,
            neq_ignore_case: None,
            starts_with: None,
            starts_with_ignore_case: None,
            not_starts_with: None,
            ends_with: None,
            not_ends_with: None,
            contains: None,
            contains_ignore_case: None,
            not_contains: None,
            not_contains_ignore_case: None,
        }
    }
}

impl InputObject for StringComparator {
    open spec fn slots(&self) -> Seq<(FieldName, Option<ValueModel>, Absent)> {
        seq![
            (FieldName::Eq, opt_scalar(self.eq), Absent::Omit),
            (FieldName::Neq, opt_scalar(self.neq), Absent::Omit),
            (FieldName::In, opt_scalars(self.in_), Absent::Omit),
            (FieldName::Nin, opt_scalars(self.nin), Absent::Omit),
            (FieldName::EqIgnoreCase, opt_scalar(self.eq_ignore_case), Absent::Omit),
            (FieldName::NeqIgnoreCase, opt_scalar(self.neq_ignore_case), Absent::Omit),
            (FieldName::StartsWith, opt_scalar(self.starts_with), Absent::Omit),
            (FieldName::StartsWithIgnoreCase, opt_scalar(self.starts_with_ignore_case), Absent::Omit),
            (FieldName::NotStartsWith, opt_scalar(self.not_starts_with), Absent::Omit),
            (FieldName::EndsWith, opt_scalar(self.ends_with), Absent::Omit),
            (FieldName::NotEndsWith, opt_scalar(self.not_ends_with), Absent::Omit),
            (FieldName::Contains, opt_scalar(self.contains), Absent::Omit),
            (FieldName::ContainsIgnoreCase, opt_scalar(self.contains_ignore_case), Absent::Omit),
            (FieldName::NotContains, opt_scalar(self.not_contains), Absent::Omit),
            (FieldName::NotContainsIgnoreCase, opt_scalar(self.not_contains_ignore_case), Absent::Omit),
        ]
    }

    fn to_input(&self) -> (r: InputValue) {
        let mut s: Vec<Slot> = Vec::new();
        s.push(Slot { name: FieldName::Eq, value: scalar(&self.eq), absent: Absent::Omit });
        s.push(Slot { name: FieldName::Neq, value: scalar(&self.neq), absent: Absent::Omit });
        s.push(Slot { name: FieldName::In, value: scalars(&self.in_), absent: Absent::Omit });
        s.push(Slot { name: FieldName::Nin, value: scalars(&self.nin), absent: Absent::Omit });
        s.push(Slot { name: FieldName::EqIgnoreCase, value: scalar(&self.eq_ignore_case), absent: Absent::Omit });
        s.push(Slot { name: FieldName::NeqIgnoreCase, value: scalar(&self.neq_ignore_case), absent: Absent::Omit });
        s.push(Slot { name: FieldName::StartsWith, value: scalar(&self.starts_with), absent: Absent::Omit });
        s.push(Slot { name: FieldName::StartsWithIgnoreCase, value: scalar(&self.starts_with_ignore_case), absent: Absent::Omit });
        s.push(Slot { name: FieldName::NotStartsWith, value: scalar(&self.not_starts_with), absent: Absent::Omit });
        s.push(Slot { name: FieldName::EndsWith, value: scalar(&self.ends_with), absent: Absent::Omit });
        s.push(Slot { name: FieldName::NotEndsWith, value: scalar(&self.not_ends_with), absent: Absent::Omit });
        s.push(Slot { name: FieldName::Contains, value: scalar(&self.contains), absent: Absent::Omit });
        s.push(Slot { name: FieldName::ContainsIgnoreCase, value: scalar(&self.contains_ignore_case), absent: Absent::Omit });
        s.push(Slot { name: FieldName::NotContains, value: scalar(&self.not_contains), absent: Absent::Omit });
        s.push(Slot { name: FieldName::NotContainsIgnoreCase, value: scalar(&self.not_contains_ignore_case), absent: Absent::Omit });
        proof {
            assert(slots_model(s@) =~= self.slots());
        }
        object(s)
    }
}

impl Comparator for StringComparator {
    proof fn lemma_omits_unset(&self) {
    }
}

/// Matches a text field that may be empty.
#[derive(Debug)]
pub struct NullableStringComparator {
    pub eq: Option<String>,
    pub neq: Option<String>,
    pub in_: Option<Vec<String>>,
    pub nin: Option<Vec<String>>,
    pub null: Option<bool>,
    pub eq_ignore_case: Option<String>,
    pub neq_ignore_case: Option<String>,
    pub starts_with: Option<String>,
    pub starts_with_ignore_case: Option<String>,
    pub not_starts_with: Option<String>,
    pub ends_with: Option<String>,
    pub not_ends_with: Option<String>,
    pub contains: Option<String>,
    pub contains_ignore_case: Option<String>,
    pub not_contains: Option<String>,
    pub not_contains_ignore_case: Option<String>,
}

impl Default for NullableStringComparator {
    fn default() -> (r: Self)
        ensures
            r.eq is None,
            r.neq is None,
            r.in_ is None,
            r.nin is None,
            r.null is None,
            r.eq_ignore_case is None,
            r.neq_ignore_case is None,
            r.starts_with is None,
            r.starts_with_ignore_case is None,
            r.not_starts_with is None,
            r.ends_with is None,
            r.not_ends_with is None,
            r.contains is None,
            r.contains_ignore_case is None,
            r.not_contains is None,
            r.not_contains_ignore_case is None,
    {
        NullableStringComparator {
            eq: None,
            neq: None,
            in_: None,
            nin: None,
            null: None,
            eq_ignore_case: None,
            neq_ignore_case: None,
            starts_with: None,
            starts_with_ignore_case: None,
            not_starts_with: None,
            ends_with: None,
            not_ends_with: None,
            contains: None,
            contains_ignore_case: None,
            not_contains: None,
            not_contains_ignore_case: None,
        }
    }
}

impl InputObject for NullableStringComparator {
    open spec fn slots(&self) -> Seq<(FieldName, Option<ValueModel>, Absent)> {
        seq![
            (FieldName::Eq, opt_scalar(self.eq), Absent::Omit),
            (FieldName::Neq, opt_scalar(self.neq), Absent::Omit),
            (FieldName::In, opt_scalars(self.in_), Absent::Omit),
            (FieldName::Nin, opt_scalars(self.nin), Absent::Omit),
            (FieldName::IsNull, opt_scalar(self.null), Absent::Omit),
            (FieldName::EqIgnoreCase, opt_scalar(self.eq_ignore_case), Absent::Omit),
            (FieldName::NeqIgnoreCase, opt_scalar(self.neq_ignore_case), Absent::Omit),
            (FieldName::StartsWith, opt_scalar(self.starts_with), Absent::Omit),
            (FieldName::StartsWithIgnoreCase, opt_scalar(self.starts_with_ignore_case), Absent::Omit),
            (FieldName::NotStartsWith, opt_scalar(self.not_starts_with), Absent::Omit),
            (FieldName::EndsWith, opt_scalar(self.ends_with), Absent::Omit),
            (FieldName::NotEndsWith, opt_scalar(self.not_ends_with), Absent::Omit),
            (FieldName::Contains, opt_scalar(self.contains), Absent::Omit),
            (FieldName::ContainsIgnoreCase, opt_scalar(self.contains_ignore_case), Absent::Omit),
            (FieldName::NotContains, opt_scalar(self.not_contains), Absent::Omit),
            (FieldName::NotContainsIgnoreCase, opt_scalar(self.not_contains_ignore_case), Absent::Omit),
        ]
    }

    fn to_input(&self) -> (r: InputValue) {
        let mut s: Vec<Slot> = Vec::new();
        s.push(Slot { name: FieldName::Eq, value: scalar(&self.eq), absent: Absent::Omit });
        s.push(Slot { name: FieldName::Neq, value: scalar(&self.neq), absent: Absent::Omit });
        s.push(Slot { name: FieldName::In, value: scalars(&self.in_), absent: Absent::Omit });
        s.push(Slot { name: FieldName::Nin, value: scalars(&self.nin), absent: Absent::Omit });
        s.push(Slot { name: FieldName::IsNull, value: scalar(&self.null), absent: Absent::Omit });
        s.push(Slot { name: FieldName::EqIgnoreCase, value: scalar(&self.eq_ignore_case), absent: Absent::Omit });
        s.push(Slot { name: FieldName::NeqIgnoreCase, value: scalar(&self.neq_ignore_case), absent: Absent::Omit });
        s.push(Slot { name: FieldName::StartsWith, value: scalar(&self.starts_with), absent: Absent::Omit });
        s.push(Slot { name: FieldName::StartsWithIgnoreCase, value: scalar(&self.starts_with_ignore_case), absent: Absent::Omit });
        s.push(Slot { name: FieldName::NotStartsWith, value: scalar(&self.not_starts_with), absent: Absent::Omit });
        s.push(Slot { name: FieldName::EndsWith, value: scalar(&self.ends_with), absent: Absent::Omit });
        s.push(Slot { name: FieldName::NotEndsWith, value: scalar(&self.not_ends_with), absent: Absent::Omit });
        s.push(Slot { name: FieldName::Contains, value: scalar(&self.contains), absent: Absent::Omit });
        s.push(Slot { name: FieldName::ContainsIgnoreCase, value: scalar(&self.contains_ignore_case), absent: Absent::Omit });
        s.push(Slot { name: FieldName::NotContains, value: scalar(&self.not_contains), absent: Absent::Omit });
        s.push(Slot { name: FieldName::NotContainsIgnoreCase, value: scalar(&self.not_contains_ignore_case), absent: Absent::Omit });
        proof {
            assert(slots_model(s@) =~= self.slots());
        }
        object(s)
    }
}

impl Comparator for NullableStringComparator {
    proof fn lemma_omits_unset(&self) {
    }
}

/// Matches the source type of an attachment.
#[derive(Debug)]
pub struct SourceTypeComparator {
    pub eq: Option<String>,
    pub neq: Option<String>,
    pub in_: Option<Vec<String>>,
    pub nin: Option<Vec<String>>,
    pub eq_ignore_case: Option<String>,
    pub neq_ignore_case: Option<String>,
    pub starts_with: Option<String>,
    pub starts_with_ignore_case: Option<String>,
    pub not_starts_with: Option<String>,
    pub ends_with: Option<String>,
    pub not_ends_with: Option<String>,
    pub contains: Option<String>,
    pub contains_ignore_case: Option<String>,
    pub not_contains: Option<String>,
    pub not_contains_ignore_case: Option<String>,
}

impl Default for SourceTypeComparator {
    fn default() -> (r: Self)
        ensures
            r.eq is None,
            r.neq is None,
            r.in_ is None,
            r.nin is None,
            r.eq_ignore_case is None,
            r.neq_ignore_case is None,
            r.starts_with is None,
            r.starts_with_ignore_case is None,
            r.not_starts_with is None,
            r.ends_with is None,
            r.not_ends_with is None,
            r.contains is None,
            r.contains_ignore_case is None,
            r.not_contains is None,
            r.not_contains_ignore_case is None,
    {
        SourceTypeComparator {
            eq: None,
            neq: None,
            in_: None,
            nin: None,
            eq_ignore_case: None,
            neq_ignore_case: None,
            starts_with: None,
            starts_with_ignore_case: None,
            not_starts_with: None,
            ends_with: None,
            not_ends_with: None,
            contains: None,
            contains_ignore_case: None,
            not_contains: None,
            not_contains_ignore_case: None,
        }
    }
}

impl InputObject for SourceTypeComparator {
    open spec fn slots(&self) -> Seq<(FieldName, Option<ValueModel>, Absent)> {
        seq![
            (FieldName::Eq, opt_scalar(self.eq), Absent::Omit),
            (FieldName::Neq, opt_scalar(self.neq), Absent::Omit),
            (FieldName::In, opt_scalars(self.in_), Absent::Omit),
            (FieldName::Nin, opt_scalars(self.nin), Absent::Omit),
            (FieldName::EqIgnoreCase, opt_scalar(self.eq_ignore_case), Absent::Omit),
            (FieldName::NeqIgnoreCase, opt_scalar(self.neq_ignore_case), Absent::Omit),
            (FieldName::StartsWith, opt_scalar(self.starts_with), Absent::Omit),
            (FieldName::StartsWithIgnoreCase, opt_scalar(self.starts_with_ignore_case), Absent::Omit),
            (FieldName::NotStartsWith, opt_scalar(self.not_starts_with), Absent::Omit),
            (FieldName::EndsWith, opt_scalar(self.ends_with), Absent::Omit),
            (FieldName::NotEndsWith, opt_scalar(self.not_ends_with), Absent::Omit),
            (FieldName::Contains, opt_scalar(self.contains), Absent::Omit),
            (FieldName::ContainsIgnoreCase, opt_scalar(self.contains_ignore_case), Absent::Omit),
            (FieldName::NotContains, opt_scalar(self.not_contains), Absent::Omit),
            (FieldName::NotContainsIgnoreCase, opt_scalar(self.not_contains_ignore_case), Absent::Omit),
        ]
    }

    fn to_input(&self) -> (r: InputValue) {
        let mut s: Vec<Slot> = Vec::new();
        s.push(Slot { name: FieldName::Eq, value: scalar(&self.eq), absent: Absent::Omit });
        s.push(Slot { name: FieldName::Neq, value: scalar(&self.neq), absent: Absent::Omit });
        s.push(Slot { name: FieldName::In, value: scalars(&self.in_), absent: Absent::Omit });
        s.push(Slot { name: FieldName::Nin, value: scalars(&self.nin), absent: Absent::Omit });
        s.push(Slot { name: FieldName::EqIgnoreCase, value: scalar(&self.eq_ignore_case), absent: Absent::Omit });
        s.push(Slot { name: FieldName::NeqIgnoreCase, value: scalar(&self.neq_ignore_case), absent: Absent::Omit });
        s.push(Slot { name: FieldName::StartsWith, value: scalar(&self.starts_with), absent: Absent::Omit });
        s.push(Slot { name: FieldName::StartsWithIgnoreCase, value: scalar(&self.starts_with_ignore_case), absent: Absent::Omit });
        s.push(Slot { name: FieldName::NotStartsWith, value: scalar(&self.not_starts_with), absent: Absent::Omit });
        s.push(Slot { name: FieldName::EndsWith, value: scalar(&self.ends_with), absent: Absent::Omit });
        s.push(Slot { name: FieldName::NotEndsWith, value: scalar(&self.not_ends_with), absent: Absent::Omit });
        s.push(Slot { name: FieldName::Contains, value: scalar(&self.contains), absent: Absent::Omit });
        s.push(Slot { name: FieldName::ContainsIgnoreCase, value: scalar(&self.contains_ignore_case), absent: Absent::Omit });
        s.push(Slot { name: FieldName::NotContains, value: scalar(&self.not_contains), absent: Absent::Omit });
        s.push(Slot { name: FieldName::NotContainsIgnoreCase, value: scalar(&self.not_contains_ignore_case), absent: Absent::Omit });
        proof {
            assert(slots_model(s@) =~= self.slots());
        }
        object(s)
    }
}

impl Comparator for SourceTypeComparator {
    proof fn lemma_omits_unset(&self) {
    }
}

/// Matches one item of a list of texts.
#[derive(Debug)]
pub struct StringItemComparator {
    pub eq: Option<String>,
    pub neq: Option<String>,
    pub in_: Option<Vec<String>>,
    pub nin: Option<Vec<String>>,
    pub eq_ignore_case: Option<String>,
    pub neq_ignore_case: Option<String>,
    pub starts_with: Option<String>,
    pub starts_with_ignore_case: Option<String>,
    pub not_starts_with: Option<String>,
    pub ends_with: Option<String>,
    pub not_ends_with: Option<String>,
    pub contains: Option<String>,
    pub contains_ignore_case: Option<String>,
    pub not_contains: Option<String>,
    pub not_contains_ignore_case: Option<String>,
}

impl Default for StringItemComparator {
    fn default() -> (r: Self)
        ensures
            r.eq is None,
            r.neq is None,
            r.in_ is None,
            r.nin is None,
            r.eq_ignore_case is None,
            r.neq_ignore_case is None,
            r.starts_with is None,
            r.starts_with_ignore_case is None,
            r.not_starts_with is None,
            r.ends_with is None,
            r.not_ends_with is None,
            r.contains is None,
            r.contains_ignore_case is None,
            r.not_contains is None,
            r.not_contains_ignore_case is None,
    {
        StringItemComparator {
            eq: None,
            neq: None,
            in_: None,
            nin: None,
            eq_ignore_case: None,
            neq_ignore_case: None,
            starts_with: None,
            starts_with_ignore_case: None,
            not_starts_with: None,
            ends_with: None,
            not_ends_with: None,
            contains: None,
            contains_ignore_case: None,
            not_contains: None,
            not_contains_ignore_case: None,
        }
    }
}

impl InputObject for StringItemComparator {
    open spec fn slots(&self) -> Seq<(FieldName, Option<ValueModel>, Absent)> {
        seq![
            (FieldName::Eq, opt_scalar(self.eq), Absent::Omit),
            (FieldName::Neq, opt_scalar(self.neq), Absent::Omit),
            (FieldName::In, opt_scalars(self.in_), Absent::Omit),
            (FieldName::Nin, opt_scalars(self.nin), Absent::Omit),
            (FieldName::EqIgnoreCase, opt_scalar(self.eq_ignore_case), Absent::Omit),
            (FieldName::NeqIgnoreCase, opt_scalar(self.neq_ignore_case), Absent::Omit),
            (FieldName::StartsWith, opt_scalar(self.starts_with), Absent::Omit),
            (FieldName::StartsWithIgnoreCase, opt_scalar(self.starts_with_ignore_case), Absent::Omit),
            (FieldName::NotStartsWith, opt_scalar(self.not_starts_with), Absent::Omit),
            (FieldName::EndsWith, opt_scalar(self.ends_with), Absent::Omit),
            (FieldName::NotEndsWith, opt_scalar(self.not_ends_with), Absent::Omit),
            (FieldName::Contains, opt_scalar(self.contains), Absent::Omit),
            (FieldName::ContainsIgnoreCase, opt_scalar(self.contains_ignore_case), Absent::Omit),
            (FieldName::NotContains, opt_scalar(self.not_contains), Absent::Omit),
            (FieldName::NotContainsIgnoreCase, opt_scalar(self.not_contains_ignore_case), Absent::Omit),
        ]
    }

    fn to_input(&self) -> (r: InputValue) {
        let mut s: Vec<Slot> = Vec::new();
        s.push(Slot { name: FieldName::Eq, value: scalar(&self.eq), absent: Absent::Omit });
        s.push(Slot { name: FieldName::Neq, value: scalar(&self.neq), absent: Absent::Omit });
        s.push(Slot { name: FieldName::In, value: scalars(&self.in_), absent: Absent::Omit });
        s.push(Slot { name: FieldName::Nin, value: scalars(&self.nin), absent: Absent::Omit });
        s.push(Slot { name: FieldName::EqIgnoreCase, value: scalar(&self.eq_ignore_case), absent: Absent::Omit });
        s.push(Slot { name: FieldName::NeqIgnoreCase, value: scalar(&self.neq_ignore_case), absent: Absent::Omit });
        s.push(Slot { name: FieldName::StartsWith, value: scalar(&self.starts_with), absent: Absent::Omit });
        s.push(Slot { name: FieldName::StartsWithIgnoreCase, value: scalar(&self.starts_with_ignore_case), absent: Absent::Omit });
        s.push(Slot { name: FieldName::NotStartsWith, value: scalar(&self.not_starts_with), absent: Absent::Omit });
        s.push(Slot { name: FieldName::EndsWith, value: scalar(&self.ends_with), absent: Absent::Omit });
        s.push(Slot { name: FieldName::NotEndsWith, value: scalar(&self.not_ends_with), absent: Absent::Omit });
        s.push(Slot { name: FieldName::Contains, value: scalar(&self.contains), absent: Absent::Omit });
        s.push(Slot { name: FieldName::ContainsIgnoreCase, value: scalar(&self.contains_ignore_case), absent: Absent::Omit });
        s.push(Slot { name: FieldName::NotContains, value: scalar(&self.not_contains), absent: Absent::Omit });
        s.push(Slot { name: FieldName::NotContainsIgnoreCase, value: scalar(&self.not_contains_ignore_case), absent: Absent::Omit });
        proof {
            assert(slots_model(s@) =~= self.slots());
        }
        object(s)
    }
}

impl Comparator for StringItemComparator {
    proof fn lemma_omits_unset(&self) {
    }
}

/// Matches the searchable content of an entity.
#[derive(Debug)]
pub struct ContentComparator {
    pub contains: Option<String>,
    pub not_contains: Option<String>,
}

impl Default for ContentComparator {
    fn default() -> (r: Self)
        ensures
            r.contains is None,
            r.not_contains is None,
    {
        ContentComparator {
            contains: None,
            not_contains: None,
        }
    }
}

impl InputObject for ContentComparator {
    open spec fn slots(&self) -> Seq<(FieldName, Option<ValueModel>, Absent)> {
        seq![
            (FieldName::Contains, opt_scalar(self.contains), Absent::Omit),
            (FieldName::NotContains, opt_scalar(self.not_contains), Absent::Omit),
        ]
    }

    fn to_input(&self) -> (r: InputValue) {
        let mut s: Vec<Slot> = Vec::new();
        s.push(Slot { name: FieldName::Contains, value: scalar(&self.contains), absent: Absent::Omit });
        s.push(Slot { name: FieldName::NotContains, value: scalar(&self.not_contains), absent: Absent::Omit });
        proof {
            assert(slots_model(s@) =~= self.slots());
        }
        object(s)
    }
}

impl Comparator for ContentComparator {
    proof fn lemma_omits_unset(&self) {
    }
}

/// Matches a timestamp field.
#[derive(Debug)]
pub struct DateComparator {
    pub eq: Option<DateTimeOrDuration>,
    pub neq: Option<DateTimeOrDuration>,
    pub in_: Option<Vec<DateTimeOrDuration>>,
    pub nin: Option<Vec<DateTimeOrDuration>>,
    pub lt: Option<DateTimeOrDuration>,
    pub lte: Option<DateTimeOrDuration>,
    pub gt: Option<DateTimeOrDuration>,
    pub gte: Option<DateTimeOrDuration>,
}

impl Default for DateComparator {
    fn default() -> (r: Self)
        ensures
            r.eq is None,
            r.neq is None,
            r.in_ is None,
            r.nin is None,
            r.lt is None,
            r.lte is None,
            r.gt is None,
            r.gte is None,
    {
        DateComparator {
            eq: None,
            neq: None,
            in_: None,
            nin: None,
            lt: None,
            lte: None,
            gt: None,
            gte: None,
        }
    }
}

impl InputObject for DateComparator {
    open spec fn slots(&self) -> Seq<(FieldName, Option<ValueModel>, Absent)> {
        seq![
            (FieldName::Eq, opt_scalar(self.eq), Absent::Omit),
            (FieldName::Neq, opt_scalar(self.neq), Absent::Omit),
            (FieldName::In, opt_scalars(self.in_), Absent::Omit),
            (FieldName::Nin, opt_scalars(self.nin), Absent::Omit),
            (FieldName::Lt, opt_scalar(self.lt), Absent::Omit),
            (FieldName::Lte, opt_scalar(self.lte), Absent::Omit),
            (FieldName::Gt, opt_scalar(self.gt), Absent::Omit),
            (FieldName::Gte, opt_scalar(self.gte), Absent::Omit),
        ]
    }

    fn to_input(&self) -> (r: InputValue) {
        let mut s: Vec<Slot> = Vec::new();
        s.push(Slot { name: FieldName::Eq, value: scalar(&self.eq), absent: Absent::Omit });
        s.push(Slot { name: FieldName::Neq, value: scalar(&self.neq), absent: Absent::Omit });
        s.push(Slot { name: FieldName::In, value: scalars(&self.in_), absent: Absent::Omit });
        s.push(Slot { name: FieldName::Nin, value: scalars(&self.nin), absent: Absent::Omit });
        s.push(Slot { name: FieldName::Lt, value: scalar(&self.lt), absent: Absent::Omit });
        s.push(Slot { name: FieldName::Lte, value: scalar(&self.lte), absent: Absent::Omit });
        s.push(Slot { name: FieldName::Gt, value: scalar(&self.gt), absent: Absent::Omit });
        s.push(Slot { name: FieldName::Gte, value: scalar(&self.gte), absent: Absent::Omit });
        proof {
            assert(slots_model(s@) =~= self.slots());
        }
        object(s)
    }
}

impl Comparator for DateComparator {
    proof fn lemma_omits_unset(&self) {
    }
}

/// Matches a timestamp field that may be empty.
#[derive(Debug)]
pub struct NullableDateComparator {
    pub eq: Option<DateTimeOrDuration>,
    pub neq: Option<DateTimeOrDuration>,
    pub in_: Option<Vec<DateTimeOrDuration>>,
    pub nin: Option<Vec<DateTimeOrDuration>>,
    pub null: Option<bool>,
    pub lt: Option<DateTimeOrDuration>,
    pub lte: Option<DateTimeOrDuration>,
    pub gt: Option<DateTimeOrDuration>,
    pub gte: Option<DateTimeOrDuration>,
}

impl Default for NullableDateComparator {
    fn default() -> (r: Self)
        ensures
            r.eq is None,
            r.neq is None,
            r.in_ is None,
            r.nin is None,
            r.null is None,
            r.lt is None,
            r.lte is None,
            r.gt is None,
            r.gte is None,
    {
        NullableDateComparator {
            eq: None,
            neq: None,
            in_: None,
            nin: None,
            null: None,
            lt: None,
            lte: None,
            gt: None,
            gte: None,
        }
    }
}

impl InputObject for NullableDateComparator {
    open spec fn slots(&self) -> Seq<(FieldName, Option<ValueModel>, Absent)> {
        seq![
            (FieldName::Eq, opt_scalar(self.eq), Absent::Omit),
            (FieldName::Neq, opt_scalar(self.neq), Absent::Omit),
            (FieldName::In, opt_scalars(self.in_), Absent::Omit),
            (FieldName::Nin, opt_scalars(self.nin), Absent::Omit),
            (FieldName::IsNull, opt_scalar(self.null), Absent::Omit),
            (FieldName::Lt, opt_scalar(self.lt), Absent::Omit),
            (FieldName::Lte, opt_scalar(self.lte), Absent::Omit),
            (FieldName::Gt, opt_scalar(self.gt), Absent::Omit),
            (FieldName::Gte, opt_scalar(self.gte), Absent::Omit),
        ]
    }

    fn to_input(&self) -> (r: InputValue) {
        let mut s: Vec<Slot> = Vec::new();
        s.push(Slot { name: FieldName::Eq, value: scalar(&self.eq), absent: Absent::Omit });
        s.push(Slot { name: FieldName::Neq, value: scalar(&self.neq), absent: Absent::Omit });
        s.push(Slot { name: FieldName::In, value: scalars(&self.in_), absent: Absent::Omit });
        s.push(Slot { name: FieldName::Nin, value: scalars(&self.nin), absent: Absent::Omit });
        s.push(Slot { name: FieldName::IsNull, value: scalar(&self.null), absent: Absent::Omit });
        s.push(Slot { name: FieldName::Lt, value: scalar(&self.lt), absent: Absent::Omit });
        s.push(Slot { name: FieldName::Lte, value: scalar(&self.lte), absent: Absent::Omit });
        s.push(Slot { name: FieldName::Gt, value: scalar(&self.gt), absent: Absent::Omit });
        s.push(Slot { name: FieldName::Gte, value: scalar(&self.gte), absent: Absent::Omit });
        proof {
            assert(slots_model(s@) =~= self.slots());
        }
        object(s)
    }
}

impl Comparator for NullableDateComparator {
    proof fn lemma_omits_unset(&self) {
    }
}

/// Matches a date field that may be empty.
#[derive(Debug)]
pub struct NullableTimelessDateComparator {
    pub eq: Option<TimelessDateOrDuration>,
    pub neq: Option<TimelessDateOrDuration>,
    pub in_: Option<Vec<TimelessDateOrDuration>>,
    pub nin: Option<Vec<TimelessDateOrDuration>>,
    pub null: Option<bool>,
    pub lt: Option<TimelessDateOrDuration>,
    pub lte: Option<TimelessDateOrDuration>,
    pub gt: Option<TimelessDateOrDuration>,
    pub gte: Option<TimelessDateOrDuration>,
}

impl Default for NullableTimelessDateComparator {
    fn default() -> (r: Self)
        ensures
            r.eq is None,
            r.neq is None,
            r.in_ is None,
            r.nin is None,
            r.null is None,
            r.lt is None,
            r.lte is None,
            r.gt is None,
            r.gte is None,
    {
        NullableTimelessDateComparator {
            eq: None,
            neq: None,
            in_: None,
            nin: None,
            null: None,
            lt: None,
            lte: None,
            gt: None,
            gte: None,
        }
    }
}

impl InputObject for NullableTimelessDateComparator {
    open spec fn slots(&self) -> Seq<(FieldName, Option<ValueModel>, Absent)> {
        seq![
            (FieldName::Eq, opt_scalar(self.eq), Absent::Omit),
            (FieldName::Neq, opt_scalar(self.neq), Absent::Omit),
            (FieldName::In, opt_scalars(self.in_), Absent::Omit),
            (FieldName::Nin, opt_scalars(self.nin), Absent::Omit),
            (FieldName::IsNull, opt_scalar(self.null), Absent::Omit),
            (FieldName::Lt, opt_scalar(self.lt), Absent::Omit),
            (FieldName::Lte, opt_scalar(self.lte), Absent::Omit),
            (FieldName::Gt, opt_scalar(self.gt), Absent::Omit),
            (FieldName::Gte, opt_scalar(self.gte), Absent::Omit),
        ]
    }

    fn to_input(&self) -> (r: InputValue) {
        let mut s: Vec<Slot> = Vec::new();
        s.push(Slot { name: FieldName::Eq, value: scalar(&self.eq), absent: Absent::Omit });
        s.push(Slot { name: FieldName::Neq, value: scalar(&self.neq), absent: Absent::Omit });
        s.push(Slot { name: FieldName::In, value: scalars(&self.in_), absent: Absent::Omit });
        s.push(Slot { name: FieldName::Nin, value: scalars(&self.nin), absent: Absent::Omit });
        s.push(Slot { name: FieldName::IsNull, value: scalar(&self.null), absent: Absent::Omit });
        s.push(Slot { name: FieldName::Lt, value: scalar(&self.lt), absent: Absent::Omit });
        s.push(Slot { name: FieldName::Lte, value: scalar(&self.lte), absent: Absent::Omit });
        s.push(Slot { name: FieldName::Gt, value: scalar(&self.gt), absent: Absent::Omit });
        s.push(Slot { name: FieldName::Gte, value: scalar(&self.gte), absent: Absent::Omit });
        proof {
            assert(slots_model(s@) =~= self.slots());
        }
        object(s)
    }
}

impl Comparator for NullableTimelessDateComparator {
    proof fn lemma_omits_unset(&self) {
    }
}

/// Matches an identifier.
#[derive(Debug)]
pub struct Idcomparator {
    pub eq: Option<Id>,
    pub neq: Option<Id>,
    pub in_: Option<Vec<Id>>,
    pub nin: Option<Vec<Id>>,
}

impl Default for Idcomparator {
    fn default() -> (r: Self)
        ensures
            r.eq is None,
            r.neq is None,
            r.in_ is None,
            r.nin is None,
    {
        Idcomparator {
            eq: None,
            neq: None,
            in_: None,
            nin: None,
        }
    }
}

impl InputObject for Idcomparator {
    open spec fn slots(&self) -> Seq<(FieldName, Option<ValueModel>, Absent)> {
        seq![
            (FieldName::Eq, opt_scalar(self.eq), Absent::Omit),
            (FieldName::Neq, opt_scalar(self.neq), Absent::Omit),
            (FieldName::In, opt_scalars(self.in_), Absent::Omit),
            (FieldName::Nin, opt_scalars(self.nin), Absent::Omit),
        ]
    }

    fn to_input(&self) -> (r: InputValue) {
        let mut s: Vec<Slot> = Vec::new();
        s.push(Slot { name: FieldName::Eq, value: scalar(&self.eq), absent: Absent::Omit });
        s.push(Slot { name: FieldName::Neq, value: scalar(&self.neq), absent: Absent::Omit });
        s.push(Slot { name: FieldName::In, value: scalars(&self.in_), absent: Absent::Omit });
        s.push(Slot { name: FieldName::Nin, value: scalars(&self.nin), absent: Absent::Omit });
        proof {
            assert(slots_model(s@) =~= self.slots());
        }
        object(s)
    }
}

impl Comparator for Idcomparator {
    proof fn lemma_omits_unset(&self) {
    }
}

/// Matches a number field.
#[derive(Debug)]
pub struct NumberComparator {
    pub eq: Option<i64>,
    pub neq: Option<i64>,
    pub in_: Option<Vec<i64>>,
    pub nin: Option<Vec<i64>>,
    pub lt: Option<i64>,
    pub lte: Option<i64>,
    pub gt: Option<i64>,
    pub gte: Option<i64>,
}

impl Default for NumberComparator {
    fn default() -> (r: Self)
        ensures
            r.eq is None,
            r.neq is None,
            r.in_ is None,
            r.nin is None,
            r.lt is None,
            r.lte is None,
            r.gt is None,
            r.gte is None,
    {
        NumberComparator {
            eq: None,
            neq: None,
            in_: None,
            nin: None,
            lt: None,
            lte: None,
            gt: None,
            gte: None,
        }
    }
}

impl InputObject for NumberComparator {
    open spec fn slots(&self) -> Seq<(FieldName, Option<ValueModel>, Absent)> {
        seq![
            (FieldName::Eq, opt_scalar(self.eq), Absent::Omit),
            (FieldName::Neq, opt_scalar(self.neq), Absent::Omit),
            (FieldName::In, opt_scalars(self.in_), Absent::Omit),
            (FieldName::Nin, opt_scalars(self.nin), Absent::Omit),
            (FieldName::Lt, opt_scalar(self.lt), Absent::Omit),
            (FieldName::Lte, opt_scalar(self.lte), Absent::Omit),
            (FieldName::Gt, opt_scalar(self.gt), Absent::Omit),
            (FieldName::Gte, opt_scalar(self.gte), Absent::Omit),
        ]
    }

    fn to_input(&self) -> (r: InputValue) {
        let mut s: Vec<Slot> = Vec::new();
        s.push(Slot { name: FieldName::Eq, value: scalar(&self.eq), absent: Absent::Omit });
        s.push(Slot { name: FieldName::Neq, value: scalar(&self.neq), absent: Absent::Omit });
        s.push(Slot { name: FieldName::In, value: scalars(&self.in_), absent: Absent::Omit });
        s.push(Slot { name: FieldName::Nin, value: scalars(&self.nin), absent: Absent::Omit });
        s.push(Slot { name: FieldName::Lt, value: scalar(&self.lt), absent: Absent::Omit });
        s.push(Slot { name: FieldName::Lte, value: scalar(&self.lte), absent: Absent::Omit });
        s.push(Slot { name: FieldName::Gt, value: scalar(&self.gt), absent: Absent::Omit });
        s.push(Slot { name: FieldName::Gte, value: scalar(&self.gte), absent: Absent::Omit });
        proof {
            assert(slots_model(s@) =~= self.slots());
        }
        object(s)
    }
}

impl Comparator for NumberComparator {
    proof fn lemma_omits_unset(&self) {
    }
}

/// Matches a number field that may be empty.
#[derive(Debug)]
pub struct NullableNumberComparator {
    pub eq: Option<i64>,
    pub neq: Option<i64>,
    pub in_: Option<Vec<i64>>,
    pub nin: Option<Vec<i64>>,
    pub null: Option<bool>,
    pub lt: Option<i64>,
    pub lte: Option<i64>,
    pub gt: Option<i64>,
    pub gte: Option<i64>,
}

impl Default for NullableNumberComparator {
    fn default() -> (r: Self)
        ensures
            r.eq is None,
            r.neq is None,
            r.in_ is None,
            r.nin is None,
            r.null is None,
            r.lt is None,
            r.lte is None,
            r.gt is None,
            r.gte is None,
    {
        NullableNumberComparator {
            eq: None,
            neq: None,
            in_: None,
            nin: None,
            null: None,
            lt: None,
            lte: None,
            gt: None,
            gte: None,
        }
    }
}

impl InputObject for NullableNumberComparator {
    open spec fn slots(&self) -> Seq<(FieldName, Option<ValueModel>, Absent)> {
        seq![
            (FieldName::Eq, opt_scalar(self.eq), Absent::Omit),
            (FieldName::Neq, opt_scalar(self.neq), Absent::Omit),
            (FieldName::In, opt_scalars(self.in_), Absent::Omit),
            (FieldName::Nin, opt_scalars(self.nin), Absent::Omit),
            (FieldName::IsNull, opt_scalar(self.null), Absent::Omit),
            (FieldName::Lt, opt_scalar(self.lt), Absent::Omit),
            (FieldName::Lte, opt_scalar(self.lte), Absent::Omit),
            (FieldName::Gt, opt_scalar(self.gt), Absent::Omit),
            (FieldName::Gte, opt_scalar(self.gte), Absent::Omit),
        ]
    }

    fn to_input(&self) -> (r: InputValue) {
        let mut s: Vec<Slot> = Vec::new();
        s.push(Slot { name: FieldName::Eq, value: scalar(&self.eq), absent: Absent::Omit });
        s.push(Slot { name: FieldName::Neq, value: scalar(&self.neq), absent: Absent::Omit });
        s.push(Slot { name: FieldName::In, value: scalars(&self.in_), absent: Absent::Omit });
        s.push(Slot { name: FieldName::Nin, value: scalars(&self.nin), absent: Absent::Omit });
        s.push(Slot { name: FieldName::IsNull, value: scalar(&self.null), absent: Absent::Omit });
        s.push(Slot { name: FieldName::Lt, value: scalar(&self.lt), absent: Absent::Omit });
        s.push(Slot { name: FieldName::Lte, value: scalar(&self.lte), absent: Absent::Omit });
        s.push(Slot { name: FieldName::Gt, value: scalar(&self.gt), absent: Absent::Omit });
        s.push(Slot { name: FieldName::Gte, value: scalar(&self.gte), absent: Absent::Omit });
        proof {
            assert(slots_model(s@) =~= self.slots());
        }
        object(s)
    }
}

impl Comparator for NullableNumberComparator {
    proof fn lemma_omits_unset(&self) {
    }
}

/// Matches an issue estimate.
#[derive(Debug)]
pub struct EstimateComparator {
    pub eq: Option<i64>,
    pub neq: Option<i64>,
    pub in_: Option<Vec<i64>>,
    pub nin: Option<Vec<i64>>,
    pub null: Option<bool>,
    pub lt: Option<i64>,
    pub lte: Option<i64>,
    pub gt: Option<i64>,
    pub gte: Option<i64>,
    pub or: Option<Vec<NullableNumberComparator>>,
    pub and: Option<Vec<NullableNumberComparator>>,
}

impl Default for EstimateComparator {
    fn default() -> (r: Self)
        ensures
            r.eq is None,
            r.neq is None,
            r.in_ is None,
            r.nin is None,
            r.null is None,
            r.lt is None,
            r.lte is None,
            r.gt is None,
            r.gte is None,
            r.or is None,
            r.and is None,
    {
        EstimateComparator {
            eq: None,
            neq: None,
            in_: None,
            nin: None,
            null: None,
            lt: None,
            lte: None,
            gt: None,
            gte: None,
            or: None,
            and: None,
        }
    }
}

impl InputObject for EstimateComparator {
    open spec fn slots(&self) -> Seq<(FieldName, Option<ValueModel>, Absent)> {
        seq![
            (FieldName::Eq, opt_scalar(self.eq), Absent::Omit),
            (FieldName::Neq, opt_scalar(self.neq), Absent::Omit),
            (FieldName::In, opt_scalars(self.in_), Absent::Omit),
            (FieldName::Nin, opt_scalars(self.nin), Absent::Omit),
            (FieldName::IsNull, opt_scalar(self.null), Absent::Omit),
            (FieldName::Lt, opt_scalar(self.lt), Absent::Omit),
            (FieldName::Lte, opt_scalar(self.lte), Absent::Omit),
            (FieldName::Gt, opt_scalar(self.gt), Absent::Omit),
            (FieldName::Gte, opt_scalar(self.gte), Absent::Omit),
            (FieldName::Or, opt_objects(self.or), Absent::Omit),
            (FieldName::And, opt_objects(self.and), Absent::Omit),
        ]
    }

    fn to_input(&self) -> (r: InputValue) {
        let mut s: Vec<Slot> = Vec::new();
        s.push(Slot { name: FieldName::Eq, value: scalar(&self.eq), absent: Absent::Omit });
        s.push(Slot { name: FieldName::Neq, value: scalar(&self.neq), absent: Absent::Omit });
        s.push(Slot { name: FieldName::In, value: scalars(&self.in_), absent: Absent::Omit });
        s.push(Slot { name: FieldName::Nin, value: scalars(&self.nin), absent: Absent::Omit });
        s.push(Slot { name: FieldName::IsNull, value: scalar(&self.null), absent: Absent::Omit });
        s.push(Slot { name: FieldName::Lt, value: scalar(&self.lt), absent: Absent::Omit });
        s.push(Slot { name: FieldName::Lte, value: scalar(&self.lte), absent: Absent::Omit });
        s.push(Slot { name: FieldName::Gt, value: scalar(&self.gt), absent: Absent::Omit });
        s.push(Slot { name: FieldName::Gte, value: scalar(&self.gte), absent: Absent::Omit });
        s.push(Slot { name: FieldName::Or, value: nested_list(&self.or), absent: Absent::Omit });
        s.push(Slot { name: FieldName::And, value: nested_list(&self.and), absent: Absent::Omit });
        proof {
            assert(slots_model(s@) =~= self.slots());
        }
        object(s)
    }
}

impl Comparator for EstimateComparator {
    proof fn lemma_omits_unset(&self) {
    }
}

/// Matches the state of a service-level agreement.
#[derive(Debug)]
pub struct SlaStatusComparator {
    pub eq: Option<SlaStatus>,
    pub neq: Option<SlaStatus>,
    pub in_: Option<Vec<SlaStatus>>,
    pub nin: Option<Vec<SlaStatus>>,
    pub null: Option<bool>,
}

impl Default for SlaStatusComparator {
    fn default() -> (r: Self)
        ensures
            r.eq is None,
            r.neq is None,
            r.in_ is None,
            r.nin is None,
            r.null is None,
    {
        SlaStatusComparator {
            eq: None,
            neq: None,
            in_: None,
            nin: None,
            null: None,
        }
    }
}

impl InputObject for SlaStatusComparator {
    open spec fn slots(&self) -> Seq<(FieldName, Option<ValueModel>, Absent)> {
        seq![
            (FieldName::Eq, opt_scalar(self.eq), Absent::Omit),
            (FieldName::Neq, opt_scalar(self.neq), Absent::Omit),
            (FieldName::In, opt_scalars(self.in_), Absent::Omit),
            (FieldName::Nin, opt_scalars(self.nin), Absent::Omit),
            (FieldName::IsNull, opt_scalar(self.null), Absent::Omit),
        ]
    }

    fn to_input(&self) -> (r: InputValue) {
        let mut s: Vec<Slot> = Vec::new();
        s.push(Slot { name: FieldName::Eq, value: scalar(&self.eq), absent: Absent::Omit });
        s.push(Slot { name: FieldName::Neq, value: scalar(&self.neq), absent: Absent::Omit });
        s.push(Slot { name: FieldName::In, value: scalars(&self.in_), absent: Absent::Omit });
        s.push(Slot { name: FieldName::Nin, value: scalars(&self.nin), absent: Absent::Omit });
        s.push(Slot { name: FieldName::IsNull, value: scalar(&self.null), absent: Absent::Omit });
        proof {
            assert(slots_model(s@) =~= self.slots());
        }
        object(s)
    }
}

impl Comparator for SlaStatusComparator {
    proof fn lemma_omits_unset(&self) {
    }
}

/// Matches the sub type of a source.
#[derive(Debug)]
pub struct SubTypeComparator {
    pub eq: Option<String>,
    pub neq: Option<String>,
    pub in_: Option<Vec<String>>,
    pub nin: Option<Vec<String>>,
    pub null: Option<bool>,
}

impl Default for SubTypeComparator {
    fn default() -> (r: Self)
        ensures
            r.eq is None,
            r.neq is None,
            r.in_ is None,
            r.nin is None,
            r.null is None,
    {
        SubTypeComparator {
            eq: None,
            neq: None,
            in_: None,
            nin: None,
            null: None,
        }
    }
}

impl InputObject for SubTypeComparator {
    open spec fn slots(&self) -> Seq<(FieldName, Option<ValueModel>, Absent)> {
        seq![
            (FieldName::Eq, opt_scalar(self.eq), Absent::Omit),
            (FieldName::Neq, opt_scalar(self.neq), Absent::Omit),
            (FieldName::In, opt_scalars(self.in_), Absent::Omit),
            (FieldName::Nin, opt_scalars(self.nin), Absent::Omit),
            (FieldName::IsNull, opt_scalar(self.null), Absent::Omit),
        ]
    }

    fn to_input(&self) -> (r: InputValue) {
        let mut s: Vec<Slot> = Vec::new();
        s.push(Slot { name: FieldName::Eq, value: scalar(&self.eq), absent: Absent::Omit });
        s.push(Slot { name: FieldName::Neq, value: scalar(&self.neq), absent: Absent::Omit });
        s.push(Slot { name: FieldName::In, value: scalars(&self.in_), absent: Absent::Omit });
        s.push(Slot { name: FieldName::Nin, value: scalars(&self.nin), absent: Absent::Omit });
        s.push(Slot { name: FieldName::IsNull, value: scalar(&self.null), absent: Absent::Omit });
        proof {
            assert(slots_model(s@) =~= self.slots());
        }
        object(s)
    }
}

impl Comparator for SubTypeComparator {
    proof fn lemma_omits_unset(&self) {
    }
}

/// Matches the metadata of a source.
#[derive(Debug)]
pub struct SourceMetadataComparator {
    pub eq: Option<String>,
    pub neq: Option<String>,
    pub in_: Option<Vec<String>>,
    pub nin: Option<Vec<String>>,
    pub null: Option<bool>,
    pub sub_type: Option<SubTypeComparator>,
}

impl Default for SourceMetadataComparator {
    fn default() -> (r: Self)
        ensures
            r.eq is None,
            r.neq is None,
            r.in_ is None,
            r.nin is None,
            r.null is None,
            r.sub_type is None,
    {
        SourceMetadataComparator {
            eq: None,
            neq: None,
            in_: None,
            nin: None,
            null: None,
            sub_type: None,
        }
    }
}

impl InputObject for SourceMetadataComparator {
    open spec fn slots(&self) -> Seq<(FieldName, Option<ValueModel>, Absent)> {
        seq![
            (FieldName::Eq, opt_scalar(self.eq), Absent::Omit),
            (FieldName::Neq, opt_scalar(self.neq), Absent::Omit),
            (FieldName::In, opt_scalars(self.in_), Absent::Omit),
            (FieldName::Nin, opt_scalars(self.nin), Absent::Omit),
            (FieldName::IsNull, opt_scalar(self.null), Absent::Omit),
            (FieldName::SubType, opt_object(self.sub_type), Absent::Omit),
        ]
    }

    fn to_input(&self) -> (r: InputValue) {
        let mut s: Vec<Slot> = Vec::new();
        s.push(Slot { name: FieldName::Eq, value: scalar(&self.eq), absent: Absent::Omit });
        s.push(Slot { name: FieldName::Neq, value: scalar(&self.neq), absent: Absent::Omit });
        s.push(Slot { name: FieldName::In, value: scalars(&self.in_), absent: Absent::Omit });
        s.push(Slot { name: FieldName::Nin, value: scalars(&self.nin), absent: Absent::Omit });
        s.push(Slot { name: FieldName::IsNull, value: scalar(&self.null), absent: Absent::Omit });
        s.push(Slot { name: FieldName::SubType, value: nested(&self.sub_type), absent: Absent::Omit });
        proof {
            assert(slots_model(s@) =~= self.slots());
        }
        object(s)
    }
}

impl Comparator for SourceMetadataComparator {
    proof fn lemma_omits_unset(&self) {
    }
}

/// Matches a list of texts.
#[derive(Debug)]
pub struct StringArrayComparator {
    pub length: Option<NumberComparator>,
    pub every: Option<Vec<StringItemComparator>>,
    pub some: Option<Vec<StringItemComparator>>,
}

impl Default for StringArrayComparator {
    fn default() -> (r: Self)
        ensures
            r.length is None,
            r.every is None,
            r.some is None,
    {
        StringArrayComparator {
            length: None,
            every: None,
            some: None,
        }
    }
}

impl InputObject for StringArrayComparator {
    open spec fn slots(&self) -> Seq<(FieldName, Option<ValueModel>, Absent)> {
        seq![
            (FieldName::Length, opt_object(self.length), Absent::Omit),
            (FieldName::Every, opt_objects(self.every), Absent::Omit),
            (FieldName::SomeOf, opt_objects(self.some), Absent::Omit),
        ]
    }

    fn to_input(&self) -> (r: InputValue) {
        let mut s: Vec<Slot> = Vec::new();
        s.push(Slot { name: FieldName::Length, value: nested(&self.length), absent: Absent::Omit });
        s.push(Slot { name: FieldName::Every, value: nested_list(&self.every), absent: Absent::Omit });
        s.push(Slot { name: FieldName::SomeOf, value: nested_list(&self.some), absent: Absent::Omit });
        proof {
            assert(slots_model(s@) =~= self.slots());
        }
        object(s)
    }
}

impl Comparator for StringArrayComparator {
    proof fn lemma_omits_unset(&self) {
    }
}

} // verus!
