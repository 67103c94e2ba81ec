//! The request value model: a closed variant type for the values that may
//! appear in an outgoing JSON request body.

use vstd::prelude::*;

verus! {

/// Mathematical model of a JSON value built by the request value model:
/// the same closed variant set, with strings abstracted to character
/// sequences.  No other JSON shapes (floating point, null) are representable.
#[verifier::ext_equal]
pub enum JsonData {
    Int(u32),
    Text(Seq<char>),
    Bool(bool),
    Arr(Seq<JsonData>),
    Obj(Seq<(Seq<char>, JsonData)>),
}

/// A value that may appear in an outgoing JSON request body.  A single
/// mapping from field name to `HashMapValue` can hold strings, integers and
/// booleans side by side, so that it serializes to JSON such as
/// `{ "address": "H123...", "value": 123, "create_mint": true }`.
///
/// Mappings keep their entries in insertion order, which makes the rendered
/// JSON deterministic; the receiver attaches no meaning to key order.
pub enum HashMapValue {
    Int(u32),
    String(String),
    Bool(bool),
    List(Vec<HashMapValue>),
    Dict(Vec<(String, HashMapValue)>),
}

/// The `JsonData` a `HashMapValue` stands for.
pub open spec fn json_data_of(v: HashMapValue) -> JsonData
    decreases v,
{
    match v {
        HashMapValue::Int(i) => JsonData::Int(i),
        HashMapValue::String(s) => JsonData::Text(s@),
        HashMapValue::Bool(b) => JsonData::Bool(b),
        HashMapValue::List(vs) => JsonData::Arr(json_data_of_list(vs@)),
        HashMapValue::Dict(es) => JsonData::Obj(json_data_of_entries(es@)),
    }
}

/// Element-wise model of a list of values.
pub open spec fn json_data_of_list(vs: Seq<HashMapValue>) -> Seq<JsonData>
    decreases vs,
{
    if vs.len() == 0 {
        Seq::empty()
    } else {
        seq![json_data_of(vs[0])] + json_data_of_list(vs.drop_first())
    }
}

/// Entry-wise model of a mapping, keeping the entry order.
pub open spec fn json_data_of_entries(es: Seq<(String, HashMapValue)>) -> Seq<
    (Seq<char>, JsonData),
>
    decreases es,
{
    if es.len() == 0 {
        Seq::empty()
    } else {
        seq![(es[0].0@, json_data_of(es[0].1))] + json_data_of_entries(es.drop_first())
    }
}

/// The list model is element-wise: same length, model at each index.
pub proof fn lemma_list_model(vs: Seq<HashMapValue>)
    ensures
        json_data_of_list(vs).len() == vs.len(),
        forall|i: int|
            0 <= i < vs.len() ==> json_data_of_list(vs)[i] == json_data_of(#[trigger] vs[i]),
    decreases vs,
{
    if vs.len() > 0 {
        lemma_list_model(vs.drop_first());
        assert forall|i: int| 0 <= i < vs.len() implies json_data_of_list(vs)[i] == json_data_of(
            #[trigger] vs[i],
        ) by {
            if i > 0 {
                assert(vs.drop_first()[i - 1] == vs[i]);
                assert(json_data_of_list(vs)[i] == json_data_of_list(vs.drop_first())[i - 1]);
            }
        }
    }
}

/// The mapping model is entry-wise: same length, key view and value model at
/// each index.
pub proof fn lemma_entries_model(es: Seq<(String, HashMapValue)>)
    ensures
        json_data_of_entries(es).len() == es.len(),
        forall|i: int|
            0 <= i < es.len() ==> json_data_of_entries(es)[i] == ((#[trigger] es[i]).0@,
            json_data_of(es[i].1)),
    decreases es,
{
    if es.len() > 0 {
        lemma_entries_model(es.drop_first());
        assert forall|i: int| 0 <= i < es.len() implies json_data_of_entries(es)[i] == ((
        #[trigger] es[i]).0@, json_data_of(es[i].1)) by {
            if i > 0 {
                assert(es.drop_first()[i - 1] == es[i]);
                assert(json_data_of_entries(es)[i] == json_data_of_entries(es.drop_first())[i - 1]);
            }
        }
    }
}

/// Body value of a list of text parameters.
pub open spec fn text_list(xs: Seq<String>) -> JsonData {
    JsonData::Arr(xs.map_values(|s: String| JsonData::Text(s@)))
}

/// Clones a list of text parameters into a body list value.
pub fn list_value(xs: &Vec<String>) -> (r: HashMapValue)
    ensures
        json_data_of(r) == text_list(xs@),
{
    let mut items: Vec<HashMapValue> = Vec::new();
    let n: usize = xs.len();
    for i in 0..n
        invariant
            n == xs@.len(),
            items@.len() == i,
            forall|j: int|
                0 <= j < i ==> #[trigger] items@[j] == HashMapValue::String(
                    xs@[j],
                ),
    {
        items.push(HashMapValue::String(xs[i].clone()));
    }
    proof {
        lemma_list_model(items@);
        let ghost mapped = xs@.map_values(|s: String| JsonData::Text(s@));
        assert forall|j: int|
            0 <= j < items@.len() implies json_data_of_list(items@)[j] == mapped[j] by {
            assert(items@[j] == HashMapValue::String(xs@[j]));
            assert(json_data_of(items@[j]) == JsonData::Text(xs@[j]@));
        }
        assert(json_data_of_list(items@) =~= mapped);
    }
    HashMapValue::List(items)
}

impl View for HashMapValue {
    type V = JsonData;

    open spec fn view(&self) -> JsonData {
        json_data_of(*self)
    }
}

impl From<String> for HashMapValue {
    fn from(s: String) -> (r: Self) {
        HashMapValue::String(s)
    }
}

impl vstd::std_specs::convert::FromSpecImpl<String> for HashMapValue {
    open spec fn obeys_from_spec() -> bool {
        true
    }

    open spec fn from_spec(s: String) -> Self {
        HashMapValue::String(s)
    }
}

impl From<u32> for HashMapValue {
    fn from(i: u32) -> (r: Self) {
        HashMapValue::Int(i)
    }
}

impl vstd::std_specs::convert::FromSpecImpl<u32> for HashMapValue {
    open spec fn obeys_from_spec() -> bool {
        true
    }

    open spec fn from_spec(i: u32) -> Self {
        HashMapValue::Int(i)
    }
}

impl From<bool> for HashMapValue {
    fn from(x: bool) -> (r: Self) {
        HashMapValue::Bool(x)
    }
}

impl vstd::std_specs::convert::FromSpecImpl<bool> for HashMapValue {
    open spec fn obeys_from_spec() -> bool {
        true
    }

    open spec fn from_spec(x: bool) -> Self {
        HashMapValue::Bool(x)
    }
}

impl From<Vec<HashMapValue>> for HashMapValue {
    fn from(v: Vec<HashMapValue>) -> (r: Self) {
        HashMapValue::List(v)
    }
}

impl vstd::std_specs::convert::FromSpecImpl<Vec<HashMapValue>> for HashMapValue {
    open spec fn obeys_from_spec() -> bool {
        true
    }

    open spec fn from_spec(v: Vec<HashMapValue>) -> Self {
        HashMapValue::List(v)
    }
}

impl From<Vec<(String, HashMapValue)>> for HashMapValue {
    fn from(d: Vec<(String, HashMapValue)>) -> (r: Self) {
        HashMapValue::Dict(d)
    }
}

impl vstd::std_specs::convert::FromSpecImpl<Vec<(String, HashMapValue)>> for HashMapValue {
    open spec fn obeys_from_spec() -> bool {
        true
    }

    open spec fn from_spec(d: Vec<(String, HashMapValue)>) -> Self {
        HashMapValue::Dict(d)
    }
}

} // verus!
