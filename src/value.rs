use vstd::prelude::*;

use crate::names::{EnumValue, FieldName};

verus! {

broadcast use vstd::std_specs::vec::axiom_vec_index_decreases;

/// A GraphQL input value: what a filter, a sort or a variable record becomes
/// before it is written on the wire.
#[derive(Debug)]
pub enum InputValue {
    Null,
    Boolean(bool),
    Int(i64),
    Str(String),
    Enum(EnumValue),
    List(Vec<InputValue>),
    /// An object: the names of its entries and, at the same positions, their
    /// values.
    Object(Vec<FieldName>, Vec<InputValue>),
}

/// The mathematical model of an `InputValue`.
pub enum ValueModel {
    Null,
    Boolean(bool),
    Int(int),
    Str(Seq<char>),
    Enum(EnumValue),
    List(Seq<ValueModel>),
    Object(Seq<(FieldName, ValueModel)>),
}

impl View for InputValue {
    type V = ValueModel;

    open spec fn view(&self) -> ValueModel
        decreases self,
    {
        match self {
            InputValue::Null => ValueModel::Null,
            InputValue::Boolean(b) => ValueModel::Boolean(*b),
            InputValue::Int(n) => ValueModel::Int(*n as int),
            InputValue::Str(s) => ValueModel::Str(s@),
            InputValue::Enum(e) => ValueModel::Enum(*e),
            InputValue::List(v) => ValueModel::List(
                Seq::new(
                    v@.len(),
                    |i: int|
                        if 0 <= i < v@.len() {
                            v@[i].view()
                        } else {
                            ValueModel::Null
                        },
                ),
            ),
            InputValue::Object(k, v) => ValueModel::Object(
                zip(
                    k@,
                    Seq::new(
                        v@.len(),
                        |i: int|
                            if 0 <= i < v@.len() {
                                v@[i].view()
                            } else {
                                ValueModel::Null
                            },
                    ),
                ),
            ),
        }
    }
}

/// Pairs each value with the name at its position.
pub open spec fn zip(k: Seq<FieldName>, v: Seq<ValueModel>) -> Seq<(FieldName, ValueModel)> {
    Seq::new(if k.len() < v.len() { k.len() } else { v.len() }, |i: int| (k[i], v[i]))
}

/// The model of the entries of an object.
pub open spec fn entries_model(k: Seq<FieldName>, v: Seq<InputValue>) -> Seq<(FieldName, ValueModel)> {
    Seq::new(if k.len() < v.len() { k.len() } else { v.len() }, |i: int| (k[i], v[i]@))
}

/// The model of the items of a list.
pub open spec fn items_model(v: Seq<InputValue>) -> Seq<ValueModel> {
    Seq::new(v.len(), |i: int| v[i]@)
}

pub proof fn lemma_object_view(k: Vec<FieldName>, v: Vec<InputValue>)
    ensures
        (InputValue::Object(k, v))@ == ValueModel::Object(entries_model(k@, v@)),
{
    let x = InputValue::Object(k, v);
    let vals = Seq::new(v@.len(), |i: int| if 0 <= i < v@.len() { v@[i]@ } else { ValueModel::Null });
    assert(x@->Object_0 == zip(k@, vals));
    assert(zip(k@, vals) =~= entries_model(k@, v@));
}

pub proof fn lemma_list_view(v: Vec<InputValue>)
    ensures
        (InputValue::List(v))@ == ValueModel::List(items_model(v@)),
{
    let x = InputValue::List(v);
    assert(x@->List_0 =~= items_model(v@));
}

/// What is written for a field whose value is absent.
#[derive(Clone, Copy, PartialEq, Eq, Debug, Structural)]
pub enum Absent {
    /// The field is left out of the object.
    Omit,
    /// The field is written with an explicit `null`.
    Null,
}

/// One field of an input object as its type declares it: its name, its
/// value if set, and the policy for when it is not.
pub struct Slot {
    pub name: FieldName,
    pub value: Option<InputValue>,
    pub absent: Absent,
}

pub open spec fn opt_model(v: Option<InputValue>) -> Option<ValueModel> {
    match v {
        Some(x) => Some(x@),
        None => None,
    }
}

pub open spec fn slot_model(s: Slot) -> (FieldName, Option<ValueModel>, Absent) {
    (s.name, opt_model(s.value), s.absent)
}

pub open spec fn slots_model(s: Seq<Slot>) -> Seq<(FieldName, Option<ValueModel>, Absent)> {
    Seq::new(s.len(), |i: int| slot_model(s[i]))
}

/// What a slot contributes to the object: its value, `null`, or nothing.
pub open spec fn written(s: (FieldName, Option<ValueModel>, Absent)) -> Option<ValueModel> {
    match s.1 {
        Some(v) => Some(v),
        None => if s.2 == Absent::Null {
            Some(ValueModel::Null)
        } else {
            None
        },
    }
}

/// The entries of the object that a sequence of slots is written as, in the
/// slots' order.
pub open spec fn object_entries(s: Seq<(FieldName, Option<ValueModel>, Absent)>) -> Seq<
    (FieldName, ValueModel),
>
    decreases s.len(),
{
    if s.len() == 0 {
        Seq::empty()
    } else {
        let rest = object_entries(s.drop_last());
        match written(s.last()) {
            Some(v) => rest.push((s.last().0, v)),
            None => rest,
        }
    }
}

pub open spec fn object_of(s: Seq<(FieldName, Option<ValueModel>, Absent)>) -> ValueModel {
    ValueModel::Object(object_entries(s))
}

/// The value of the last entry named `k`, if any.
pub open spec fn lookup(e: Seq<(FieldName, ValueModel)>, k: FieldName) -> Option<ValueModel>
    decreases e.len(),
{
    if e.len() == 0 {
        None
    } else if e.last().0 == k {
        Some(e.last().1)
    } else {
        lookup(e.drop_last(), k)
    }
}

pub open spec fn names_distinct(s: Seq<(FieldName, Option<ValueModel>, Absent)>) -> bool {
    forall|i: int, j: int| 0 <= i < j < s.len() ==> s[i].0 != s[j].0
}

pub open spec fn has_name(s: Seq<(FieldName, Option<ValueModel>, Absent)>, k: FieldName) -> bool {
    exists|i: int| 0 <= i < s.len() && s[i].0 == k
}

proof fn lemma_lookup_absent(s: Seq<(FieldName, Option<ValueModel>, Absent)>, k: FieldName)
    requires
        !has_name(s, k),
    ensures
        lookup(object_entries(s), k) is None,
    decreases s.len(),
{
    if s.len() > 0 {
        let t = s.drop_last();
        assert(!has_name(t, k)) by {
            if has_name(t, k) {
                let i = choose|i: int| 0 <= i < t.len() && t[i].0 == k;
                assert(s[i].0 == k);
            }
        }
        lemma_lookup_absent(t, k);
        assert(s[s.len() - 1].0 != k);
        if written(s.last()) is Some {
            let e = object_entries(s);
            assert(e.drop_last() =~= object_entries(t));
        }
    }
}

/// Reading back a field of an object written from slots with distinct names
/// gives what that slot wrote.
pub proof fn lemma_lookup_written(s: Seq<(FieldName, Option<ValueModel>, Absent)>, i: int)
    requires
        names_distinct(s),
        0 <= i < s.len(),
    ensures
        lookup(object_entries(s), s[i].0) == written(s[i]),
    decreases s.len(),
{
    let t = s.drop_last();
    let e = object_entries(s);
    assert(names_distinct(t));
    if i == s.len() - 1 {
        assert(!has_name(t, s[i].0)) by {
            if has_name(t, s[i].0) {
                let j = choose|j: int| 0 <= j < t.len() && t[j].0 == s[i].0;
                assert(s[j].0 == s[i].0);
            }
        }
        lemma_lookup_absent(t, s[i].0);
        if written(s.last()) is Some {
            assert(e.drop_last() =~= object_entries(t));
        }
    } else {
        lemma_lookup_written(t, i);
        assert(t[i] == s[i]);
        if written(s.last()) is Some {
            assert(e.drop_last() =~= object_entries(t));
        }
    }
}

/// Writes slots as an object: each set field with its value, each unset one
/// as its policy says.
pub fn object(slots: Vec<Slot>) -> (r: InputValue)
    ensures
        r@ == object_of(slots_model(slots@)),
{
    let ghost m = slots_model(slots@);
    let mut names: Vec<FieldName> = Vec::new();
    let mut out: Vec<InputValue> = Vec::new();
    let mut rest = slots;
    let mut n: usize = 0;
    let total = rest.len();
    assert(m.skip(0) =~= m);
    while rest.len() > 0
        invariant
            n + rest@.len() == m.len(),
            m.len() == total,
            slots_model(rest@) =~= m.skip(n as int),
            names@.len() == out@.len(),
            entries_model(names@, out@) == object_entries(m.take(n as int)),
        decreases rest@.len(),
    {
        let ghost before = entries_model(names@, out@);
        let ghost old_rest = rest@;
        let s = rest.remove(0);
        assert(slot_model(s) == m[n as int]) by {
            assert(slots_model(old_rest)[0] == m.skip(n as int)[0]);
        }
        match s.value {
            Some(v) => {
                names.push(s.name);
                out.push(v);
            },
            None => {
                if s.absent == Absent::Null {
                    names.push(s.name);
                    out.push(InputValue::Null);
                }
            },
        }
        proof {
            let p = m.take(n + 1);
            assert(p.drop_last() =~= m.take(n as int));
            assert(p.last() == m[n as int]);
            if written(m[n as int]) is Some {
                assert(entries_model(names@, out@) =~= before.push(
                    (m[n as int].0, written(m[n as int])->0),
                ));
            } else {
                assert(entries_model(names@, out@) =~= before);
            }
            assert(rest@ =~= old_rest.skip(1));
            assert forall|j: int| 0 <= j < rest@.len() implies slots_model(rest@)[j] == m.skip(
                n + 1,
            )[j] by {
                assert(slots_model(old_rest)[j + 1] == m.skip(n as int)[j + 1]);
            }
            assert(slots_model(rest@) =~= m.skip(n + 1));
        }
        n = n + 1;
    }
    assert(m.take(m.len() as int) =~= m);
    proof {
        lemma_object_view(names, out);
    }
    InputValue::Object(names, out)
}

} // verus!
