//! Rendering of the request value model as JSON text.
//!
//! The wire format is untagged: integers become JSON numbers, strings JSON
//! strings, booleans JSON `true`/`false`, lists JSON arrays and mappings JSON
//! objects, so the text never reveals which variant produced a value.

use vstd::prelude::*;

use crate::text::{dec_rep, push_char, push_decimal};
use crate::value::{json_data_of, json_data_of_entries, json_data_of_list, lemma_entries_model, lemma_list_model, HashMapValue, JsonData};

verus! {

/// Lower-case hexadecimal digit character.
pub open spec fn hex_digit(d: nat) -> char
    recommends
        d < 16,
{
    if d < 10 {
        ((d + 48) as u8) as char
    } else {
        ((d + 87) as u8) as char
    }
}

/// How one character is written inside a JSON string: the two-character
/// escapes for quote, backslash and the common control characters, the
/// six-character `\u00..` form for the remaining control characters, and the
/// character itself for everything else.
pub open spec fn escape_char(c: char) -> Seq<char> {
    if c == '"' {
        seq!['\\', '"']
    } else if c == '\\' {
        seq!['\\', '\\']
    } else if c == '\u{8}' {
        seq!['\\', 'b']
    } else if c == '\u{c}' {
        seq!['\\', 'f']
    } else if c == '\n' {
        seq!['\\', 'n']
    } else if c == '\r' {
        seq!['\\', 'r']
    } else if c == '\t' {
        seq!['\\', 't']
    } else if (c as u32) < 32 {
        seq!['\\', 'u', '0', '0', hex_digit(((c as u32) / 16) as nat), hex_digit(
            ((c as u32) % 16) as nat,
        )]
    } else {
        seq![c]
    }
}

/// The body of a JSON string: every character escaped, in order.
pub open spec fn escape_text(s: Seq<char>) -> Seq<char>
    decreases s,
{
    if s.len() == 0 {
        Seq::empty()
    } else {
        escape_text(s.drop_last()) + escape_char(s.last())
    }
}

/// The JSON text of one value.
pub open spec fn json_text(d: JsonData) -> Seq<char>
    decreases d,
{
    match d {
        JsonData::Int(i) => dec_rep(i as nat),
        JsonData::Text(s) => seq!['"'] + escape_text(s) + seq!['"'],
        JsonData::Bool(b) => if b {
            seq!['t', 'r', 'u', 'e']
        } else {
            seq!['f', 'a', 'l', 's', 'e']
        },
        JsonData::Arr(ds) => seq!['['] + arr_text(ds) + seq![']'],
        JsonData::Obj(es) => seq!['{'] + obj_text(es) + seq!['}'],
    }
}

/// The comma-separated inside of a JSON array.
pub open spec fn arr_text(ds: Seq<JsonData>) -> Seq<char>
    decreases ds,
{
    if ds.len() == 0 {
        Seq::empty()
    } else if ds.len() == 1 {
        json_text(ds[0])
    } else {
        arr_text(ds.drop_last()) + seq![','] + json_text(ds.last())
    }
}

/// One `"key":value` member of a JSON object.
pub open spec fn entry_text(e: (Seq<char>, JsonData)) -> Seq<char>
    decreases e,
{
    seq!['"'] + escape_text(e.0) + seq!['"', ':'] + json_text(e.1)
}

/// The comma-separated inside of a JSON object, keys in entry order.
pub open spec fn obj_text(es: Seq<(Seq<char>, JsonData)>) -> Seq<char>
    decreases es,
{
    if es.len() == 0 {
        Seq::empty()
    } else if es.len() == 1 {
        entry_text(es[0])
    } else {
        obj_text(es.drop_last()) + seq![','] + entry_text(es.last())
    }
}

/// Appends `s` to `out` as a JSON string, quotes and escapes included.
pub fn write_json_str(out: &mut String, s: &str)
    ensures
        final(out)@ == old(out)@ + seq!['"'] + escape_text(s@) + seq!['"'],
{
    let ghost base = out@;
    push_char(out, '"');
    let len: usize = s.unicode_len();
    for i in 0..len
        invariant
            len == s@.len(),
            out@ =~= base + seq!['"'] + escape_text(s@.take(i as int)),
    {
        let c: char = s.get_char(i);
        proof {
            assert(s@.take(i + 1).drop_last() =~= s@.take(i as int));
            assert(s@.take(i + 1).last() == c);
            assert(escape_text(s@.take(i + 1)) == escape_text(s@.take(i as int)) + escape_char(c));
        }
        if c == '"' {
            push_char(out, '\\');
            push_char(out, '"');
        } else if c == '\\' {
            push_char(out, '\\');
            push_char(out, '\\');
        } else if c == '\u{8}' {
            push_char(out, '\\');
            push_char(out, 'b');
        } else if c == '\u{c}' {
            push_char(out, '\\');
            push_char(out, 'f');
        } else if c == '\n' {
            push_char(out, '\\');
            push_char(out, 'n');
        } else if c == '\r' {
            push_char(out, '\\');
            push_char(out, 'r');
        } else if c == '\t' {
            push_char(out, '\\');
            push_char(out, 't');
        } else if (c as u32) < 32 {
            let code: u32 = c as u32;
            let hi: u8 = (code / 16) as u8;
            let lo: u8 = (code % 16) as u8;
            let hi_c: char = if hi < 10 {
                (hi + 48) as char
            } else {
                (hi + 87) as char
            };
            let lo_c: char = if lo < 10 {
                (lo + 48) as char
            } else {
                (lo + 87) as char
            };
            push_char(out, '\\');
            push_char(out, 'u');
            push_char(out, '0');
            push_char(out, '0');
            push_char(out, hi_c);
            push_char(out, lo_c);
        } else {
            push_char(out, c);
        }
        assert(out@ =~= base + seq!['"'] + escape_text(s@.take(i + 1)));
    }
    proof {
        assert(s@.take(len as int) =~= s@);
    }
    push_char(out, '"');
    assert(out@ =~= base + seq!['"'] + escape_text(s@) + seq!['"']);
}

/// Appends the JSON text of `v` to `out`.
#[verifier::loop_isolation(false)]
#[verifier::rlimit(60)]
pub fn write_json(v: &HashMapValue, out: &mut String)
    ensures
        final(out)@ == old(out)@ + json_text(json_data_of(*v)),
    decreases *v,
{
    let ghost base = out@;
    match v {
        HashMapValue::Int(i) => {
            push_decimal(out, *i);
        },
        HashMapValue::String(s) => {
            write_json_str(out, s.as_str());
        },
        HashMapValue::Bool(b) => {
            if *b {
                push_char(out, 't');
                push_char(out, 'r');
                push_char(out, 'u');
                push_char(out, 'e');
                assert(out@ =~= base + seq!['t', 'r', 'u', 'e']);
            } else {
                push_char(out, 'f');
                push_char(out, 'a');
                push_char(out, 'l');
                push_char(out, 's');
                push_char(out, 'e');
                assert(out@ =~= base + seq!['f', 'a', 'l', 's', 'e']);
            }
        },
        HashMapValue::List(vs) => {
            let ghost ds = json_data_of_list(vs@);
            proof {
                lemma_list_model(vs@);
            }
            push_char(out, '[');
            let n: usize = vs.len();
            for i in 0..n
                invariant
                    n == vs@.len(),
                    ds == json_data_of_list(vs@),
                    ds.len() == n,
                    forall|j: int| 0 <= j < n ==> ds[j] == json_data_of(#[trigger] vs@[j]),
                    out@ =~= base + seq!['['] + arr_text(ds.take(i as int)),
            {
                proof {
                    assert(ds.take(i + 1).drop_last() =~= ds.take(i as int));
                    assert(ds.take(i + 1).last() == ds[i as int]);
                    assert((*v)->List_0 == *vs);
                    assert(decreases_to!(*v => (*v)->List_0));
                    assert(decreases_to!(*vs => vs@[i as int]));
                }
                if i > 0 {
                    push_char(out, ',');
                }
                write_json(&vs[i], out);
                assert(out@ =~= base + seq!['['] + arr_text(ds.take(i + 1)));
            }
            proof {
                assert(ds.take(n as int) =~= ds);
            }
            push_char(out, ']');
            assert(out@ =~= base + seq!['['] + arr_text(ds) + seq![']']);
        },
        HashMapValue::Dict(es) => {
            let ghost ms = json_data_of_entries(es@);
            proof {
                lemma_entries_model(es@);
            }
            push_char(out, '{');
            let n: usize = es.len();
            for i in 0..n
                invariant
                    n == es@.len(),
                    ms == json_data_of_entries(es@),
                    ms.len() == n,
                    forall|j: int|
                        0 <= j < n ==> #[trigger] ms[j] == (es@[j].0@, json_data_of(es@[j].1)),
                    out@ =~= base + seq!['{'] + obj_text(ms.take(i as int)),
            {
                proof {
                    assert(ms.take(i + 1).drop_last() =~= ms.take(i as int));
                    assert(ms.take(i + 1).last() == ms[i as int]);
                    assert((*v)->Dict_0 == *es);
                    assert(decreases_to!(*v => (*v)->Dict_0));
                    assert(decreases_to!(*es => es@[i as int]));
                    assert(decreases_to!(es@[i as int] => es@[i as int].1));
                }
                if i > 0 {
                    push_char(out, ',');
                }
                let ghost pre = out@;
                write_json_str(out, es[i].0.as_str());
                push_char(out, ':');
                write_json(&es[i].1, out);
                assert(out@ =~= pre + entry_text(ms[i as int]));
                assert(out@ =~= base + seq!['{'] + obj_text(ms.take(i + 1)));
            }
            proof {
                assert(ms.take(n as int) =~= ms);
            }
            push_char(out, '}');
            assert(out@ =~= base + seq!['{'] + obj_text(ms) + seq!['}']);
        },
    }
}

/// The JSON text of `v` as a fresh string.
pub fn to_json(v: &HashMapValue) -> (r: String)
    ensures
        r@ == json_text(v@),
{
    let mut s = String::new();
    write_json(v, &mut s);
    s
}

} // verus!
