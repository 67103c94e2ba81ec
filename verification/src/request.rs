//! Planned HTTP requests, and the shared rule for optional parameters: a
//! field that was not supplied contributes no key to the query string or the
//! JSON body; a field that was supplied contributes its key exactly once.

use vstd::prelude::*;

use crate::value::{json_data_of, json_data_of_entries, HashMapValue, JsonData};

verus! {

/// The HTTP method of a planned request.
#[derive(Clone, Copy, Debug, PartialEq, Eq, Structural)]
pub enum Method {
    Get,
    Post,
}

/// The body of a planned request.
pub enum Body {
    /// No body (GET requests, and POSTs that send none).
    Empty,
    /// A JSON object assembled from the supplied parameters.
    Json(HashMapValue),
    /// Pre-serialized JSON text passed through unmodified.
    Raw(String),
}

/// Spec-level shape of a request body.
#[verifier::ext_equal]
pub enum BodyData {
    Empty,
    Json(JsonData),
    Raw(Seq<char>),
}

impl View for Body {
    type V = BodyData;

    open spec fn view(&self) -> BodyData {
        match self {
            Body::Empty => BodyData::Empty,
            Body::Json(v) => BodyData::Json(json_data_of(*v)),
            Body::Raw(s) => BodyData::Raw(s@),
        }
    }
}

/// One fully planned request: everything the transport needs to send it.
pub struct HttpRequest {
    pub method: Method,
    /// The absolute URL, host and path already resolved.
    pub url: String,
    /// Value for the `X-Wallet-Id` header, where the operation needs one.
    pub wallet_id: Option<String>,
    /// Query parameters, in order.
    pub query: Vec<(String, String)>,
    pub body: Body,
}

impl HttpRequest {
    /// The query pairs as character sequences.
    pub open spec fn query_view(&self) -> Seq<(Seq<char>, Seq<char>)> {
        self.query@.map_values(|q: (String, String)| (q.0@, q.1@))
    }

    /// The wallet-id header as a character sequence.
    pub open spec fn wallet_view(&self) -> Option<Seq<char>> {
        match self.wallet_id {
            Option::None => Option::None,
            Option::Some(w) => Option::Some(w@),
        }
    }
}

/// A list of named parameters, each either supplied or absent.
pub type FieldSeq<V> = Seq<(Seq<char>, Option<V>)>;

/// Keeps the supplied parameters, with their keys, in order; drops the
/// absent ones.
pub open spec fn assemble<V>(fields: FieldSeq<V>) -> Seq<(Seq<char>, V)>
    decreases fields,
{
    if fields.len() == 0 {
        Seq::empty()
    } else {
        let rest = assemble(fields.drop_first());
        match fields[0].1 {
            Option::None => rest,
            Option::Some(v) => seq![(fields[0].0, v)] + rest,
        }
    }
}

/// How many entries carry the given key.
pub open spec fn key_count<V>(entries: Seq<(Seq<char>, V)>, key: Seq<char>) -> nat
    decreases entries,
{
    if entries.len() == 0 {
        0
    } else {
        (if entries[0].0 == key {
            1nat
        } else {
            0nat
        }) + key_count(entries.drop_first(), key)
    }
}

/// The value of the first entry with the given key, if any.
pub open spec fn key_value<V>(entries: Seq<(Seq<char>, V)>, key: Seq<char>) -> Option<V>
    decreases entries,
{
    if entries.len() == 0 {
        Option::None
    } else if entries[0].0 == key {
        Option::Some(entries[0].1)
    } else {
        key_value(entries.drop_first(), key)
    }
}

/// No two parameters share a key.
pub open spec fn distinct_keys<V>(fields: FieldSeq<V>) -> bool {
    forall|i: int, j: int| 0 <= i < j < fields.len() ==> fields[i].0 != fields[j].0
}

/// A key that belongs to none of the parameters never appears.
pub proof fn lemma_key_absent<V>(fields: FieldSeq<V>, key: Seq<char>)
    requires
        forall|j: int| 0 <= j < fields.len() ==> (#[trigger] fields[j]).0 != key,
    ensures
        key_count(assemble(fields), key) == 0,
    decreases fields,
{
    if fields.len() > 0 {
        lemma_key_absent(fields.drop_first(), key);
        match fields[0].1 {
            Option::None => {},
            Option::Some(v) => {
                let rest = assemble(fields.drop_first());
                assert((seq![(fields[0].0, v)] + rest).drop_first() =~= rest);
            },
        }
    }
}

/// The rule for every parameter: an absent optional parameter contributes no
/// key to the assembled entries; a supplied parameter contributes its key
/// exactly once, bound to exactly the supplied value.
pub proof fn lemma_field_presence<V>(fields: FieldSeq<V>, i: int)
    requires
        distinct_keys(fields),
        0 <= i < fields.len(),
    ensures
        fields[i].1 is None ==> key_count(assemble(fields), fields[i].0) == 0,
        fields[i].1 is Some ==> key_count(assemble(fields), fields[i].0) == 1 && key_value(
            assemble(fields),
            fields[i].0,
        ) == Option::Some(fields[i].1->0),
    decreases fields,
{
    let key = fields[i].0;
    let rest = fields.drop_first();
    if i == 0 {
        assert(forall|j: int| 0 <= j < rest.len() ==> (#[trigger] rest[j]).0 != key);
        lemma_key_absent(rest, key);
        match fields[0].1 {
            Option::None => {},
            Option::Some(v) => {
                let tail = assemble(rest);
                assert((seq![(key, v)] + tail).drop_first() =~= tail);
            },
        }
    } else {
        assert(rest[i - 1] == fields[i]);
        assert(distinct_keys(rest)) by {
            assert(forall|x: int, y: int|
                0 <= x < y < rest.len() ==> rest[x] == fields[x + 1] && rest[y] == fields[y + 1]);
        }
        lemma_field_presence(rest, i - 1);
        match fields[0].1 {
            Option::None => {},
            Option::Some(v) => {
                let tail = assemble(rest);
                assert((seq![(fields[0].0, v)] + tail).drop_first() =~= tail);
                assert(fields[0].0 != key);
            },
        }
    }
}

/// Spec view of an exec field list whose values are body values.
pub open spec fn body_fields_view(fields: Seq<(String, Option<HashMapValue>)>) -> FieldSeq<
    JsonData,
> {
    fields.map_values(
        |f: (String, Option<HashMapValue>)|
            (
                f.0@,
                match f.1 {
                    Option::None => Option::None,
                    Option::Some(v) => Option::Some(json_data_of(v)),
                },
            ),
    )
}

/// Spec view of an exec field list whose values are query strings.
pub open spec fn query_fields_view(fields: Seq<(String, Option<String>)>) -> FieldSeq<Seq<char>> {
    fields.map_values(
        |f: (String, Option<String>)|
            (
                f.0@,
                match f.1 {
                    Option::None => Option::None,
                    Option::Some(v) => Option::Some(v@),
                },
            ),
    )
}

/// Builds the entries of a JSON body from named parameters, keeping the
/// supplied ones in order and dropping the absent ones.
pub fn assemble_body(fields: Vec<(String, Option<HashMapValue>)>) -> (r: Vec<
    (String, HashMapValue),
>)
    ensures
        json_data_of_entries(r@) == assemble(body_fields_view(fields@)),
{
    let ghost all = body_fields_view(fields@);
    let mut fields = fields;
    let mut out: Vec<(String, HashMapValue)> = Vec::new();
    while fields.len() > 0
        invariant
            assemble(all) =~= json_data_of_entries(out@) + assemble(body_fields_view(fields@)),
        decreases fields.len(),
    {
        let ghost pre = body_fields_view(fields@);
        let f = fields.remove(0);
        proof {
            assert(body_fields_view(fields@) =~= pre.drop_first());
        }
        match f.1 {
            Option::None => {},
            Option::Some(v) => {
                let ghost prev = out@;
                out.push((f.0, v));
                proof {
                    lemma_entries_push(prev, (f.0, v));
                    assert(json_data_of_entries(out@) + assemble(body_fields_view(fields@))
                        =~= json_data_of_entries(prev) + (seq![(f.0@, json_data_of(v))] + assemble(
                        body_fields_view(fields@),
                    )));
                }
            },
        }
    }
    proof {
        assert(assemble(body_fields_view(fields@)) =~= Seq::<(Seq<char>, JsonData)>::empty());
        assert(json_data_of_entries(out@) + Seq::<(Seq<char>, JsonData)>::empty()
            =~= json_data_of_entries(out@));
    }
    out
}

/// Appending an entry extends the entry model by one pair.
proof fn lemma_entries_push(es: Seq<(String, HashMapValue)>, e: (String, HashMapValue))
    ensures
        json_data_of_entries(es.push(e)) =~= json_data_of_entries(es) + seq![
            (e.0@, json_data_of(e.1)),
        ],
    decreases es,
{
    reveal_with_fuel(json_data_of_entries, 2);
    if es.len() == 0 {
        assert(es.push(e).drop_first() =~= Seq::<(String, HashMapValue)>::empty());
        assert(es.push(e)[0] == e);
    } else {
        lemma_entries_push(es.drop_first(), e);
        assert(es.push(e).drop_first() =~= es.drop_first().push(e));
        assert(es.push(e)[0] == es[0]);
        assert(json_data_of_entries(es.push(e)) =~= json_data_of_entries(es) + seq![
            (e.0@, json_data_of(e.1)),
        ]);
    }
}

/// Builds the query pairs of a request from named parameters, keeping the
/// supplied ones in order and dropping the absent ones.
pub fn assemble_query(fields: Vec<(String, Option<String>)>) -> (r: Vec<(String, String)>)
    ensures
        r@.map_values(|q: (String, String)| (q.0@, q.1@)) == assemble(query_fields_view(fields@)),
{
    let ghost all = query_fields_view(fields@);
    let mut fields = fields;
    let mut out: Vec<(String, String)> = Vec::new();
    while fields.len() > 0
        invariant
            assemble(all) =~= out@.map_values(|q: (String, String)| (q.0@, q.1@)) + assemble(
                query_fields_view(fields@),
            ),
        decreases fields.len(),
    {
        let ghost pre = query_fields_view(fields@);
        let f = fields.remove(0);
        proof {
            assert(query_fields_view(fields@) =~= pre.drop_first());
        }
        match f.1 {
            Option::None => {},
            Option::Some(v) => {
                let ghost prev = out@;
                out.push((f.0, v));
                proof {
                    assert(out@.map_values(|q: (String, String)| (q.0@, q.1@)) =~= prev.map_values(
                        |q: (String, String)| (q.0@, q.1@),
                    ).push((f.0@, v@)));
                }
            },
        }
    }
    proof {
        assert(assemble(query_fields_view(fields@)) =~= Seq::<(Seq<char>, Seq<char>)>::empty());
    }
    out
}

} // verus!
