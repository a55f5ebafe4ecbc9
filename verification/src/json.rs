//! A plain-value model of JSON, the ground the tolerant response decoding
//! stands on.
//!
//! The library never parses JSON text itself; the surrounding program turns
//! a response body into a [`JsonValue`] tree and hands it in, and every
//! decoding step from there on is verified.

use vstd::prelude::*;
use crate::text::str_eq;

verus! {

/// A JSON value as plain data.
///
/// Numbers the wire can carry but a `u64` cannot (negative or fractional
/// ones) are kept as their literal text, so nothing is dropped.
#[derive(Debug)]
pub enum JsonValue {
    /// The JSON `null`.
    Null,
    /// A JSON boolean.
    Bool(bool),
    /// A non-negative integral JSON number.
    UInt(u64),
    /// A JSON string.
    Text(String),
    /// A JSON array.
    List(Vec<JsonValue>),
    /// A JSON object as its entries in order of appearance.
    Object(Vec<(String, JsonValue)>),
    /// The literal text of a number outside the `u64` range.
    OtherNum(String),
}

/// The mathematical shape of a [`JsonValue`].
pub enum JsonView {
    /// The JSON `null`.
    Null,
    /// A JSON boolean.
    Bool(bool),
    /// A non-negative integral JSON number.
    UInt(u64),
    /// A JSON string.
    Text(Seq<char>),
    /// A JSON array.
    List(Seq<JsonView>),
    /// A JSON object as its entries in order of appearance.
    Object(Seq<(Seq<char>, JsonView)>),
    /// The literal text of a number outside the `u64` range.
    OtherNum(Seq<char>),
}

/// The shape of a [`JsonValue`], structurally.
pub open spec fn json_view(v: JsonValue) -> JsonView
    decreases v,
    via json_view_decreases
{
    match v {
        JsonValue::Null => JsonView::Null,
        JsonValue::Bool(b) => JsonView::Bool(b),
        JsonValue::UInt(n) => JsonView::UInt(n),
        JsonValue::Text(s) => JsonView::Text(s@),
        JsonValue::List(vs) => JsonView::List(
            Seq::new(
                vs@.len(),
                |i: int|
                    if 0 <= i < vs@.len() {
                        json_view(vs@[i])
                    } else {
                        JsonView::Null
                    },
            ),
        ),
        JsonValue::Object(es) => JsonView::Object(
            Seq::new(
                es@.len(),
                |i: int|
                    if 0 <= i < es@.len() {
                        (es@[i].0@, json_view(es@[i].1))
                    } else {
                        (Seq::<char>::empty(), JsonView::Null)
                    },
            ),
        ),
        JsonValue::OtherNum(s) => JsonView::OtherNum(s@),
    }
}

#[via_fn]
proof fn json_view_decreases(v: JsonValue) {
    broadcast use vstd::std_specs::vec::group_vec_axioms;

    match v {
        JsonValue::List(vs) => {
            assert forall|i: int| 0 <= i < vs@.len() implies decreases_to!(v => vs@[i]) by {
                assert(decreases_to!(v => vs));
                assert(decreases_to!(vs => vs@));
                assert(decreases_to!(vs@ => vs@[i]));
            }
        },
        JsonValue::Object(es) => {
            assert forall|i: int| 0 <= i < es@.len() implies decreases_to!(v => es@[i].1) by {
                assert(decreases_to!(v => es));
                assert(decreases_to!(es => es@));
                assert(decreases_to!(es@ => es@[i]));
                assert(decreases_to!(es@[i] => es@[i].1));
            }
        },
        _ => {},
    }
}

impl DeepView for JsonValue {
    type V = JsonView;

    open spec fn deep_view(&self) -> JsonView {
        json_view(*self)
    }
}

impl JsonValue {
    /// Returns a value of the same shape, built afresh.
    pub fn duplicate(&self) -> (r: JsonValue)
        ensures
            r.deep_view() == self.deep_view(),
        decreases *self,
    {
        match self {
            JsonValue::Null => JsonValue::Null,
            JsonValue::Bool(b) => JsonValue::Bool(*b),
            JsonValue::UInt(n) => JsonValue::UInt(*n),
            JsonValue::Text(s) => JsonValue::Text(s.clone()),
            JsonValue::List(vs) => {
                let ghost jitems = json_view(*self)->List_0;
                let mut out: Vec<JsonValue> = Vec::new();
                let mut i: usize = 0;
                while i < vs.len()
                    invariant
                        *self == JsonValue::List(*vs),
                        json_view(*self) == JsonView::List(jitems),
                        jitems == json_view(JsonValue::List(*vs))->List_0,
                        jitems.len() == vs@.len(),
                        i <= vs@.len(),
                        out@.len() == i,
                        forall|j: int| 0 <= j < i ==> out@[j].deep_view() == jitems[j],
                    decreases vs@.len() - i,
                {
                    proof {
                        assert(jitems[i as int] == json_view(vs@[i as int]));
                        broadcast use vstd::std_specs::vec::group_vec_axioms;

                        assert(decreases_to!(*self => *vs));
                        assert(decreases_to!(*vs => vs@));
                        assert(decreases_to!(vs@ => vs@[i as int]));
                    }
                    let copied = vs[i].duplicate();
                    out.push(copied);
                    i += 1;
                }
                proof {
                    assert(out.deep_view() =~= jitems);
                    assert(json_view(JsonValue::List(out))->List_0 =~= jitems);
                }
                JsonValue::List(out)
            },
            JsonValue::Object(es) => {
                let ghost jentries = json_view(*self)->Object_0;
                let mut out: Vec<(String, JsonValue)> = Vec::new();
                let mut i: usize = 0;
                while i < es.len()
                    invariant
                        *self == JsonValue::Object(*es),
                        json_view(*self) == JsonView::Object(jentries),
                        jentries == json_view(JsonValue::Object(*es))->Object_0,
                        jentries.len() == es@.len(),
                        i <= es@.len(),
                        out@.len() == i,
                        forall|j: int| 0 <= j < i ==> out@[j].deep_view() == jentries[j],
                    decreases es@.len() - i,
                {
                    proof {
                        assert(jentries[i as int] == (es@[i as int].0@, json_view(
                            es@[i as int].1,
                        )));
                        broadcast use vstd::std_specs::vec::group_vec_axioms;

                        assert(decreases_to!(*self => *es));
                        assert(decreases_to!(*es => es@));
                        assert(decreases_to!(es@ => es@[i as int]));
                        assert(decreases_to!(es@[i as int] => es@[i as int].1));
                    }
                    let key = es[i].0.clone();
                    let copied = es[i].1.duplicate();
                    out.push((key, copied));
                    i += 1;
                }
                proof {
                    assert(out.deep_view() =~= jentries);
                    assert(json_view(JsonValue::Object(out))->Object_0 =~= jentries);
                }
                JsonValue::Object(out)
            },
            JsonValue::OtherNum(s) => JsonValue::OtherNum(s.clone()),
        }
    }
}

/// The entries of an object whose keys are outside a given set of known
/// keys, in order of appearance: the catch-all bag that keeps the client
/// forward-compatible when the server grows new fields.
pub open spec fn spec_unknown_entries(
    es: Seq<(Seq<char>, JsonView)>,
    known: spec_fn(Seq<char>) -> bool,
) -> Seq<(Seq<char>, JsonView)>
    decreases es.len(),
{
    if es.len() == 0 {
        Seq::<(Seq<char>, JsonView)>::empty()
    } else {
        spec_unknown_entries(es.drop_last(), known) + (if known(es.last().0) {
            Seq::<(Seq<char>, JsonView)>::empty()
        } else {
            seq![es.last()]
        })
    }
}

/// The value under the first entry with the given key, if any.
pub open spec fn spec_lookup(entries: Seq<(Seq<char>, JsonView)>, key: Seq<char>) -> Option<
    JsonView,
>
    decreases entries.len(),
{
    if entries.len() == 0 {
        None
    } else if entries[0].0 == key {
        Some(entries[0].1)
    } else {
        spec_lookup(entries.drop_first(), key)
    }
}

/// Looks a key up among an object's entries, first match winning.
pub fn lookup<'a>(entries: &'a Vec<(String, JsonValue)>, key: &str) -> (r: Option<&'a JsonValue>)
    ensures
        match r {
            Some(v) => spec_lookup(entries.deep_view(), key@) == Some(v.deep_view()),
            None => spec_lookup(entries.deep_view(), key@) is None,
        },
{
    let ghost dv = entries.deep_view();
    proof {
        assert(dv.skip(0) =~= dv);
    }
    let mut i: usize = 0;
    while i < entries.len()
        invariant
            dv == entries.deep_view(),
            dv.len() == entries@.len(),
            i <= entries@.len(),
            spec_lookup(dv, key@) == spec_lookup(dv.skip(i as int), key@),
        decreases entries@.len() - i,
    {
        if str_eq(entries[i].0.as_str(), key) {
            proof {
                assert(dv.skip(i as int)[0] == dv[i as int]);
            }
            return Some(&entries[i].1);
        }
        proof {
            assert(dv.skip(i as int).drop_first() =~= dv.skip(i as int + 1));
            assert(dv.skip(i as int)[0] == dv[i as int]);
        }
        i += 1;
    }
    proof {
        assert(dv.skip(entries@.len() as int).len() == 0);
    }
    None
}

} // verus!
