use vstd::prelude::*;

use crate::scalars::Scalar;
use crate::names::FieldName;
use crate::value::{lemma_list_view, items_model, object_entries, object_of, opt_model, Absent, InputValue, ValueModel};

verus! {

/// A record that is written as a GraphQL input object, field by field.
pub trait InputObject: Sized {
    /// Its fields in declaration order, each with its written value if set.
    spec fn slots(&self) -> Seq<(FieldName, Option<ValueModel>, Absent)>;

    fn to_input(&self) -> (r: InputValue)
        ensures
            r@ == object_of(self.slots()),
    ;
}

pub open spec fn opt_scalar<T: Scalar>(o: Option<T>) -> Option<ValueModel> {
    match o {
        Some(x) => Some(x.scalar_model()),
        None => None,
    }
}

pub open spec fn scalars_model<T: Scalar>(v: Seq<T>) -> ValueModel {
    ValueModel::List(Seq::new(v.len(), |i: int| v[i].scalar_model()))
}

pub open spec fn opt_scalars<T: Scalar>(o: Option<Vec<T>>) -> Option<ValueModel> {
    match o {
        Some(v) => Some(scalars_model(v@)),
        None => None,
    }
}

pub open spec fn opt_object<T: InputObject>(o: Option<T>) -> Option<ValueModel> {
    match o {
        Some(x) => Some(object_of(x.slots())),
        None => None,
    }
}

pub open spec fn objects_model<T: InputObject>(v: Seq<T>) -> ValueModel {
    ValueModel::List(Seq::new(v.len(), |i: int| object_of(v[i].slots())))
}

pub open spec fn opt_objects<T: InputObject>(o: Option<Vec<T>>) -> Option<ValueModel> {
    match o {
        Some(v) => Some(objects_model(v@)),
        None => None,
    }
}

/// Writes an optional scalar.
pub fn scalar<T: Scalar>(o: &Option<T>) -> (r: Option<InputValue>)
    ensures
        opt_model(r) == opt_scalar(*o),
{
    match o {
        Some(x) => Some(x.to_input()),
        None => None,
    }
}

/// Writes an optional list of scalars.
pub fn scalars<T: Scalar>(o: &Option<Vec<T>>) -> (r: Option<InputValue>)
    ensures
        opt_model(r) == opt_scalars(*o),
{
    match o {
        Some(v) => {
            let mut out: Vec<InputValue> = Vec::new();
            let mut i: usize = 0;
            while i < v.len()
                invariant
                    i <= v@.len(),
                    out@.len() == i,
                    forall|j: int| 0 <= j < i ==> out@[j]@ == v@[j].scalar_model(),
                decreases v@.len() - i,
            {
                out.push(v[i].to_input());
                i = i + 1;
            }
            proof {
                lemma_list_view(out);
                assert(items_model(out@) =~= scalars_model(v@)->List_0);
            }
            Some(InputValue::List(out))
        },
        None => None,
    }
}

/// Writes an optional input object.
pub fn nested<T: InputObject>(o: &Option<T>) -> (r: Option<InputValue>)
    ensures
        opt_model(r) == opt_object(*o),
{
    match o {
        Some(x) => Some(x.to_input()),
        None => None,
    }
}

/// Writes an optional list of input objects.
pub fn nested_list<T: InputObject>(o: &Option<Vec<T>>) -> (r: Option<InputValue>)
    ensures
        opt_model(r) == opt_objects(*o),
{
    match o {
        Some(v) => {
            let mut out: Vec<InputValue> = Vec::new();
            let mut i: usize = 0;
            while i < v.len()
                invariant
                    i <= v@.len(),
                    out@.len() == i,
                    forall|j: int| 0 <= j < i ==> out@[j]@ == object_of(v@[j].slots()),
                decreases v@.len() - i,
            {
                out.push(v[i].to_input());
                i = i + 1;
            }
            proof {
                lemma_list_view(out);
                assert(items_model(out@) =~= objects_model(v@)->List_0);
            }
            Some(InputValue::List(out))
        },
        None => None,
    }
}

/// True when every slot is left out of the object while unset.
pub open spec fn omits_unset(s: Seq<(FieldName, Option<ValueModel>, Absent)>) -> bool {
    forall|i: int| 0 <= i < s.len() ==> #[trigger] s[i].2 == Absent::Omit
}

pub open spec fn is_set(s: Seq<(FieldName, Option<ValueModel>, Absent)>, k: FieldName) -> bool {
    exists|i: int| 0 <= i < s.len() && #[trigger] s[i].0 == k && s[i].1 is Some
}

pub open spec fn is_written(e: Seq<(FieldName, ValueModel)>, k: FieldName) -> bool {
    exists|j: int| 0 <= j < e.len() && #[trigger] e[j].0 == k
}

/// With every slot omitted while unset, the object holds exactly the fields
/// that are set; with none set it is the empty object.
pub proof fn lemma_writes_only_set(s: Seq<(FieldName, Option<ValueModel>, Absent)>)
    requires
        omits_unset(s),
    ensures
        forall|k: FieldName| is_written(object_entries(s), k) <==> is_set(s, k),
        (forall|i: int| 0 <= i < s.len() ==> (#[trigger] s[i]).1 is None) ==> object_of(s)
            == ValueModel::Object(Seq::empty()),
    decreases s.len(),
{
    if s.len() > 0 {
        let t = s.drop_last();
        assert(omits_unset(t)) by {
            assert forall|i: int| 0 <= i < t.len() implies #[trigger] t[i].2 == Absent::Omit by {
                assert(t[i] == s[i]);
            }
        }
        lemma_writes_only_set(t);
        let e = object_entries(s);
        let et = object_entries(t);
        let l = s.last();
        assert(l.2 == Absent::Omit);
        if l.1 is Some {
            assert(e == et.push((l.0, l.1->0)));
        } else {
            assert(e == et);
        }
        assert forall|k: FieldName| is_written(e, k) <==> is_set(s, k) by {
            if is_written(e, k) {
                let j = choose|j: int| 0 <= j < e.len() && #[trigger] e[j].0 == k;
                if l.1 is Some && j == e.len() - 1 {
                    assert(s[s.len() - 1].0 == k);
                } else {
                    assert(e[j] == et[j]);
                    assert(is_written(et, k));
                    assert(is_set(t, k));
                    let i = choose|i: int| 0 <= i < t.len() && #[trigger] t[i].0 == k && t[i].1 is Some;
                    assert(s[i] == t[i]);
                }
            }
            if is_set(s, k) {
                let i = choose|i: int| 0 <= i < s.len() && #[trigger] s[i].0 == k && s[i].1 is Some;
                if i == s.len() - 1 {
                    assert(e[e.len() - 1].0 == k);
                } else {
                    assert(t[i] == s[i]);
                    assert(is_set(t, k));
                    assert(is_written(et, k));
                    let j = choose|j: int| 0 <= j < et.len() && #[trigger] et[j].0 == k;
                    assert(e[j] == et[j]);
                }
            }
        }
        if forall|i: int| 0 <= i < s.len() ==> (#[trigger] s[i]).1 is None {
            assert forall|i: int| 0 <= i < t.len() implies (#[trigger] t[i]).1 is None by {
                assert(t[i] == s[i]);
            }
            assert(s[s.len() - 1].1 is None);
        }
    }
}

} // verus!

verus! {

/// A match predicate on one scalar field: an input object whose operators
/// are all left out of the object while unset.
pub trait Comparator: InputObject {
    proof fn lemma_omits_unset(&self)
        ensures
            omits_unset(self.slots()),
            crate::value::names_distinct(self.slots()),
    ;
}

/// A comparator is written with exactly the operators that are set, and an
/// all-unset comparator as the empty object (neither `null` nor left out).
pub proof fn lemma_comparator_writes_only_set<C: Comparator>(c: &C)
    ensures
        forall|k: FieldName| is_written(object_entries(c.slots()), k) <==> is_set(c.slots(), k),
        (forall|i: int| 0 <= i < c.slots().len() ==> (#[trigger] c.slots()[i]).1 is None)
            ==> object_of(c.slots()) == ValueModel::Object(Seq::empty()),
{
    c.lemma_omits_unset();
    lemma_writes_only_set(c.slots());
}

} // verus!

verus! {

/// An object with a single entry.
pub open spec fn single(k: FieldName, v: ValueModel) -> ValueModel {
    ValueModel::Object(seq![(k, v)])
}

/// With exactly one slot set and the others left out while unset, the object
/// holds that one field.
pub proof fn lemma_single_set(s: Seq<(FieldName, Option<ValueModel>, Absent)>, i: int)
    requires
        omits_unset(s),
        0 <= i < s.len(),
        s[i].1 is Some,
        forall|j: int| 0 <= j < s.len() && j != i ==> (#[trigger] s[j]).1 is None,
    ensures
        object_of(s) == single(s[i].0, s[i].1->Some_0),
    decreases s.len(),
{
    let t = s.drop_last();
    assert(omits_unset(t)) by {
        assert forall|j: int| 0 <= j < t.len() implies #[trigger] t[j].2 == Absent::Omit by {
            assert(t[j] == s[j]);
        }
    }
    if i == s.len() - 1 {
        assert forall|j: int| 0 <= j < t.len() implies (#[trigger] t[j]).1 is None by {
            assert(t[j] == s[j]);
        }
        lemma_writes_only_set(t);
        assert(object_entries(t) == Seq::<(FieldName, ValueModel)>::empty());
        assert(object_entries(s) =~= seq![(s[i].0, s[i].1->Some_0)]);
    } else {
        assert forall|j: int| 0 <= j < t.len() && j != i implies (#[trigger] t[j]).1 is None by {
            assert(t[j] == s[j]);
        }
        assert(t[i] == s[i]);
        lemma_single_set(t, i);
        assert(s[s.len() - 1].1 is None);
        assert(s[s.len() - 1].2 == Absent::Omit);
    }
}

} // verus!
