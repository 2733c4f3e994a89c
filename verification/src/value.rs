//! The untyped exchange value that crosses every type-erasure boundary in this
//! crate, together with its mathematical view.

use vstd::prelude::*;

verus! {

/// An untyped, structurally recursive exchange value: the lingua franca handed
/// across every model adapter boundary. It carries no schema identity of its
/// own; which schema it is read against is decided by the adapter invoked on
/// it. Numbers are carried as signed 64-bit integers.
#[derive(Debug, PartialEq)]
pub enum Value {
    Null,
    Bool(bool),
    Int(i64),
    Text(String),
    Array(Vec<Value>),
    Object(Vec<(String, Value)>),
}

/// The mathematical shape of a `Value`: the same tree, over `int`, `Seq<char>`
/// and `Seq`. Every contract in this crate speaks of exchange values through
/// this type.
pub enum ValueView {
    Null,
    Bool(bool),
    Int(int),
    Text(Seq<char>),
    Array(Seq<ValueView>),
    Object(Seq<(Seq<char>, ValueView)>),
}

impl Value {
    /// The views of the array elements `a[i..]`.
    pub open spec fn array_views(a: Vec<Value>, i: int) -> Seq<ValueView>
        decreases a, a@.len() - i,
    {
        if i < 0 || i >= a@.len() {
            Seq::empty()
        } else {
            seq![a@[i].to_view()] + Self::array_views(a, i + 1)
        }
    }

    /// The views of the object fields `o[i..]`, key and value pairwise.
    pub open spec fn object_views(o: Vec<(String, Value)>, i: int) -> Seq<(Seq<char>, ValueView)>
        decreases o, o@.len() - i,
    {
        if i < 0 || i >= o@.len() {
            Seq::empty()
        } else {
            seq![(o@[i].0@, o@[i].1.to_view())] + Self::object_views(o, i + 1)
        }
    }

    /// The view of an exchange value.
    pub open spec fn to_view(self) -> ValueView
        decreases self, 0int,
    {
        match self {
            Value::Null => ValueView::Null,
            Value::Bool(b) => ValueView::Bool(b),
            Value::Int(n) => ValueView::Int(n as int),
            Value::Text(s) => ValueView::Text(s@),
            Value::Array(a) => ValueView::Array(Self::array_views(a, 0)),
            Value::Object(o) => ValueView::Object(Self::object_views(o, 0)),
        }
    }
}

impl View for Value {
    type V = ValueView;

    open spec fn view(&self) -> ValueView {
        self.to_view()
    }
}

/// The field views of an object value are the views of its fields.
pub proof fn lemma_object_views(o: Vec<(String, Value)>, i: int)
    requires
        0 <= i <= o@.len(),
    ensures
        Value::object_views(o, i).len() == o@.len() - i,
        forall|k: int| i <= k < o@.len() ==> Value::object_views(o, i)[k - i] == (
        o@[k].0@,
        o@[k].1@,
        ),
    decreases o@.len() - i,
{
    if i < o@.len() {
        lemma_object_views(o, i + 1);
    }
}

/// The view of an optional value, element-wise.
pub open spec fn opt_view<T: View>(o: Option<T>) -> Option<T::V> {
    match o {
        Some(t) => Some(t@),
        None => None,
    }
}

/// The view of an outcome, element-wise on both sides.
pub open spec fn res_view<T: View, E: View>(r: Result<T, E>) -> Result<T::V, E::V> {
    match r {
        Ok(t) => Ok(t@),
        Err(e) => Err(e@),
    }
}

} // verus!
