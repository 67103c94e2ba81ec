//! The derived token-discovery operation: given the wallet's transaction
//! history and its owned addresses — both fetched from the service — the
//! set of token identifiers that appear in any output or input whose
//! decoded address is owned.  Order-insensitive, duplicates collapsed; an
//! entry the service could not decode an address for is never owned.

use vstd::prelude::*;

use crate::data::{HistoryInput, HistoryOutput, HistoryTx};
use crate::json::{json_text, to_json};
use crate::value::{list_value, text_list};

verus! {

/// The set of character sequences a vector of strings holds.
pub open spec fn string_set(xs: Seq<String>) -> Set<Seq<char>> {
    Set::new(|a: Seq<char>| exists|i: int| 0 <= i < xs.len() && xs[i]@ == a)
}

/// Whether an output is spendable by an owned address: its decoded address
/// must be present and a member of the owned set.
pub open spec fn output_owned(o: HistoryOutput, owned: Set<Seq<char>>) -> bool {
    o.decoded.address is Some && owned.contains(o.decoded.address->Some_0@)
}

/// Whether an input was spent from an owned address.
pub open spec fn input_owned(i: HistoryInput, owned: Set<Seq<char>>) -> bool {
    i.decoded.address is Some && owned.contains(i.decoded.address->Some_0@)
}

/// The tokens carried by owned outputs.
pub open spec fn output_tokens(os: Seq<HistoryOutput>, owned: Set<Seq<char>>) -> Set<Seq<char>> {
    Set::new(
        |t: Seq<char>|
            exists|i: int| 0 <= i < os.len() && output_owned(#[trigger] os[i], owned) && os[i].token@
                == t,
    )
}

/// The tokens carried by owned inputs.
pub open spec fn input_tokens(is: Seq<HistoryInput>, owned: Set<Seq<char>>) -> Set<Seq<char>> {
    Set::new(
        |t: Seq<char>|
            exists|i: int| 0 <= i < is.len() && input_owned(#[trigger] is[i], owned) && is[i].token@
                == t,
    )
}

/// The tokens one transaction contributes.
pub open spec fn tx_owned_tokens(tx: HistoryTx, owned: Set<Seq<char>>) -> Set<Seq<char>> {
    output_tokens(tx.outputs@, owned).union(input_tokens(tx.inputs@, owned))
}

/// The tokens of the whole history: every token that appears in any output
/// or input, of any transaction, whose decoded address is owned.
pub open spec fn owned_tokens(hist: Seq<HistoryTx>, owned: Set<Seq<char>>) -> Set<Seq<char>> {
    Set::new(
        |t: Seq<char>|
            exists|i: int| 0 <= i < hist.len() && tx_owned_tokens(#[trigger] hist[i], owned).contains(
                t,
            ),
    )
}

/// No two strings of the vector read the same.
pub open spec fn distinct_strings(xs: Seq<String>) -> bool {
    forall|i: int, j: int| 0 <= i < j < xs.len() ==> xs[i]@ != xs[j]@
}

/// Whether the vector holds a string reading as `x`.
fn vec_contains(xs: &Vec<String>, x: &String) -> (r: bool)
    ensures
        r == string_set(xs@).contains(x@),
{
    let n: usize = xs.len();
    for i in 0..n
        invariant
            n == xs@.len(),
            forall|j: int| 0 <= j < i ==> (#[trigger] xs@[j])@ != x@,
    {
        if xs[i].eq(x) {
            proof {
                assert(xs@[i as int]@ == x@);
            }
            return true;
        }
    }
    proof {
        assert(!string_set(xs@).contains(x@));
    }
    false
}

/// Adds a token to the accumulating set unless it is already there.
fn insert_token(tokens: &mut Vec<String>, t: &String)
    requires
        distinct_strings(old(tokens)@),
    ensures
        distinct_strings(final(tokens)@),
        string_set(final(tokens)@) == string_set(old(tokens)@).insert(t@),
{
    if !vec_contains(tokens, t) {
        let ghost prev = tokens@;
        tokens.push(t.clone());
        proof {
            assert forall|a: Seq<char>|
                string_set(tokens@).contains(a) == string_set(prev).insert(t@).contains(a) by {
                if string_set(prev).insert(t@).contains(a) {
                    if a == t@ {
                        assert(tokens@[prev.len() as int]@ == a);
                    } else {
                        let i = choose|i: int| 0 <= i < prev.len() && prev[i]@ == a;
                        assert(tokens@[i]@ == a);
                    }
                }
            }
            assert(string_set(tokens@) =~= string_set(prev).insert(t@));
        }
    } else {
        proof {
            assert(string_set(tokens@) =~= string_set(tokens@).insert(t@));
        }
    }
}

/// Extending the outputs by one more: an owned output adds its token, any
/// other output adds nothing.
proof fn lemma_output_tokens_step(os: Seq<HistoryOutput>, owned: Set<Seq<char>>, n: int)
    requires
        0 <= n < os.len(),
    ensures
        output_tokens(os.take(n + 1), owned) == if output_owned(os[n], owned) {
            output_tokens(os.take(n), owned).insert(os[n].token@)
        } else {
            output_tokens(os.take(n), owned)
        },
{
    let prefix = os.take(n);
    let ext = os.take(n + 1);
    assert(forall|i: int| 0 <= i < n + 1 ==> ext[i] == os[i]);
    if output_owned(os[n], owned) {
        assert forall|t: Seq<char>|
            output_tokens(ext, owned).contains(t) == output_tokens(prefix, owned).insert(
                os[n].token@,
            ).contains(t) by {
            if output_tokens(ext, owned).contains(t) {
                let i = choose|i: int|
                    0 <= i < ext.len() && output_owned(#[trigger] ext[i], owned) && ext[i].token@
                        == t;
                if i < n {
                    assert(output_owned(prefix[i], owned) && prefix[i].token@ == t);
                }
            }
            if output_tokens(prefix, owned).insert(os[n].token@).contains(t) {
                if output_tokens(prefix, owned).contains(t) {
                    let i = choose|i: int|
                        0 <= i < prefix.len() && output_owned(#[trigger] prefix[i], owned)
                            && prefix[i].token@ == t;
                    assert(output_owned(ext[i], owned) && ext[i].token@ == t);
                } else {
                    assert(output_owned(ext[n], owned) && ext[n].token@ == t);
                }
            }
        }
        assert(output_tokens(ext, owned) =~= output_tokens(prefix, owned).insert(os[n].token@));
    } else {
        assert forall|t: Seq<char>|
            output_tokens(ext, owned).contains(t) == output_tokens(prefix, owned).contains(t) by {
            if output_tokens(ext, owned).contains(t) {
                let i = choose|i: int|
                    0 <= i < ext.len() && output_owned(#[trigger] ext[i], owned) && ext[i].token@
                        == t;
                assert(i != n);
                assert(output_owned(prefix[i], owned) && prefix[i].token@ == t);
            }
            if output_tokens(prefix, owned).contains(t) {
                let i = choose|i: int|
                    0 <= i < prefix.len() && output_owned(#[trigger] prefix[i], owned)
                        && prefix[i].token@ == t;
                assert(output_owned(ext[i], owned) && ext[i].token@ == t);
            }
        }
        assert(output_tokens(ext, owned) =~= output_tokens(prefix, owned));
    }
}

/// Extending the inputs by one more: an owned input adds its token, any
/// other input adds nothing.
proof fn lemma_input_tokens_step(is: Seq<HistoryInput>, owned: Set<Seq<char>>, n: int)
    requires
        0 <= n < is.len(),
    ensures
        input_tokens(is.take(n + 1), owned) == if input_owned(is[n], owned) {
            input_tokens(is.take(n), owned).insert(is[n].token@)
        } else {
            input_tokens(is.take(n), owned)
        },
{
    let prefix = is.take(n);
    let ext = is.take(n + 1);
    assert(forall|i: int| 0 <= i < n + 1 ==> ext[i] == is[i]);
    if input_owned(is[n], owned) {
        assert forall|t: Seq<char>|
            input_tokens(ext, owned).contains(t) == input_tokens(prefix, owned).insert(
                is[n].token@,
            ).contains(t) by {
            if input_tokens(ext, owned).contains(t) {
                let i = choose|i: int|
                    0 <= i < ext.len() && input_owned(#[trigger] ext[i], owned) && ext[i].token@
                        == t;
                if i < n {
                    assert(input_owned(prefix[i], owned) && prefix[i].token@ == t);
                }
            }
            if input_tokens(prefix, owned).insert(is[n].token@).contains(t) {
                if input_tokens(prefix, owned).contains(t) {
                    let i = choose|i: int|
                        0 <= i < prefix.len() && input_owned(#[trigger] prefix[i], owned)
                            && prefix[i].token@ == t;
                    assert(input_owned(ext[i], owned) && ext[i].token@ == t);
                } else {
                    assert(input_owned(ext[n], owned) && ext[n].token@ == t);
                }
            }
        }
        assert(input_tokens(ext, owned) =~= input_tokens(prefix, owned).insert(is[n].token@));
    } else {
        assert forall|t: Seq<char>|
            input_tokens(ext, owned).contains(t) == input_tokens(prefix, owned).contains(t) by {
            if input_tokens(ext, owned).contains(t) {
                let i = choose|i: int|
                    0 <= i < ext.len() && input_owned(#[trigger] ext[i], owned) && ext[i].token@
                        == t;
                assert(i != n);
                assert(input_owned(prefix[i], owned) && prefix[i].token@ == t);
            }
            if input_tokens(prefix, owned).contains(t) {
                let i = choose|i: int|
                    0 <= i < prefix.len() && input_owned(#[trigger] prefix[i], owned)
                        && prefix[i].token@ == t;
                assert(input_owned(ext[i], owned) && ext[i].token@ == t);
            }
        }
        assert(input_tokens(ext, owned) =~= input_tokens(prefix, owned));
    }
}

/// Extending the history by one transaction adds exactly that
/// transaction's tokens.
proof fn lemma_owned_tokens_step(hist: Seq<HistoryTx>, owned: Set<Seq<char>>, n: int)
    requires
        0 <= n < hist.len(),
    ensures
        owned_tokens(hist.take(n + 1), owned) == owned_tokens(hist.take(n), owned).union(
            tx_owned_tokens(hist[n], owned),
        ),
{
    let prefix = hist.take(n);
    let ext = hist.take(n + 1);
    assert(forall|i: int| 0 <= i < n + 1 ==> ext[i] == hist[i]);
    assert forall|t: Seq<char>|
        owned_tokens(ext, owned).contains(t) == owned_tokens(prefix, owned).union(
            tx_owned_tokens(hist[n], owned),
        ).contains(t) by {
        if owned_tokens(ext, owned).contains(t) {
            let i = choose|i: int|
                0 <= i < ext.len() && tx_owned_tokens(#[trigger] ext[i], owned).contains(t);
            if i < n {
                assert(tx_owned_tokens(prefix[i], owned).contains(t));
            }
        }
        if owned_tokens(prefix, owned).contains(t) {
            let i = choose|i: int|
                0 <= i < prefix.len() && tx_owned_tokens(#[trigger] prefix[i], owned).contains(t);
            assert(tx_owned_tokens(ext[i], owned).contains(t));
        }
        if tx_owned_tokens(hist[n], owned).contains(t) {
            assert(tx_owned_tokens(ext[n], owned).contains(t));
        }
    }
    assert(owned_tokens(ext, owned) =~= owned_tokens(prefix, owned).union(
        tx_owned_tokens(hist[n], owned),
    ));
}

/// Token discovery over an empty owned-address set is empty, whatever the
/// history holds: every contribution requires a membership in the set.
pub proof fn lemma_no_addresses_no_tokens(hist: Seq<HistoryTx>, owned: Set<Seq<char>>)
    requires
        owned == Set::<Seq<char>>::empty(),
    ensures
        owned_tokens(hist, owned) == Set::<Seq<char>>::empty(),
{
    assert(owned_tokens(hist, owned) =~= Set::<Seq<char>>::empty());
}

/// An output the service could not decode an address for is never owned,
/// so it contributes no token: a history extended by a transaction none of
/// whose outputs and inputs carry a decoded address discovers the same
/// tokens as before.
pub proof fn lemma_undecoded_tx_excluded(hist: Seq<HistoryTx>, owned: Set<Seq<char>>, tx: HistoryTx)
    requires
        forall|i: int| 0 <= i < tx.outputs@.len() ==> (#[trigger] tx.outputs@[i]).decoded.address
            is None,
        forall|i: int| 0 <= i < tx.inputs@.len() ==> (#[trigger] tx.inputs@[i]).decoded.address
            is None,
    ensures
        tx_owned_tokens(tx, owned) == Set::<Seq<char>>::empty(),
        owned_tokens(hist.push(tx), owned) == owned_tokens(hist, owned),
{
    assert(tx_owned_tokens(tx, owned) =~= Set::<Seq<char>>::empty());
    let ext = hist.push(tx);
    assert forall|t: Seq<char>|
        owned_tokens(ext, owned).contains(t) == owned_tokens(hist, owned).contains(t) by {
        if owned_tokens(ext, owned).contains(t) {
            let i = choose|i: int|
                0 <= i < ext.len() && tx_owned_tokens(#[trigger] ext[i], owned).contains(t);
            assert(i < hist.len());
            assert(tx_owned_tokens(hist[i], owned).contains(t));
        }
        if owned_tokens(hist, owned).contains(t) {
            let i = choose|i: int|
                0 <= i < hist.len() && tx_owned_tokens(#[trigger] hist[i], owned).contains(t);
            assert(tx_owned_tokens(ext[i], owned).contains(t));
        }
    }
    assert(owned_tokens(ext, owned) =~= owned_tokens(hist, owned));
}

/// Reconciles the fetched history against the fetched addresses: returns
/// the tokens of every output and input whose decoded address is owned —
/// exactly the set `owned_tokens` describes, without duplicates.  Entries
/// without a decoded address are skipped; a transaction without outputs or
/// inputs contributes nothing.
pub fn discover_tokens(history: &Vec<HistoryTx>, addresses: &Vec<String>) -> (r: Vec<String>)
    ensures
        string_set(r@) == owned_tokens(history@, string_set(addresses@)),
        distinct_strings(r@),
{
    let ghost owned = string_set(addresses@);
    let mut tokens: Vec<String> = Vec::new();
    proof {
        assert(string_set(tokens@) =~= Set::<Seq<char>>::empty());
    }
    let n_txs: usize = history.len();
    for ti in 0..n_txs
        invariant
            n_txs == history@.len(),
            owned == string_set(addresses@),
            distinct_strings(tokens@),
            string_set(tokens@) == owned_tokens(history@.take(ti as int), owned),
    {
        let tx = &history[ti];
        let ghost before_tx = string_set(tokens@);
        let n_outs: usize = tx.outputs.len();
        for oi in 0..n_outs
            invariant
                n_txs == history@.len(),
                ti < n_txs,
                owned == string_set(addresses@),
                tx == &history@[ti as int],
                n_outs == tx.outputs@.len(),
                distinct_strings(tokens@),
                before_tx == owned_tokens(history@.take(ti as int), owned),
                string_set(tokens@) == before_tx.union(
                    output_tokens(tx.outputs@.take(oi as int), owned),
                ),
        {
            proof {
                lemma_output_tokens_step(tx.outputs@, owned, oi as int);
            }
            match &tx.outputs[oi].decoded.address {
                Option::Some(address) => {
                    if vec_contains(addresses, address) {
                        insert_token(&mut tokens, &tx.outputs[oi].token);
                        proof {
                            assert(string_set(tokens@) =~= before_tx.union(
                                output_tokens(tx.outputs@.take(oi + 1), owned),
                            ));
                        }
                    } else {
                        proof {
                            assert(string_set(tokens@) =~= before_tx.union(
                                output_tokens(tx.outputs@.take(oi + 1), owned),
                            ));
                        }
                    }
                },
                Option::None => {
                    proof {
                        assert(string_set(tokens@) =~= before_tx.union(
                            output_tokens(tx.outputs@.take(oi + 1), owned),
                        ));
                    }
                },
            }
        }
        proof {
            assert(tx.outputs@.take(n_outs as int) =~= tx.outputs@);
        }
        let ghost after_outputs = string_set(tokens@);
        let n_ins: usize = tx.inputs.len();
        for ii in 0..n_ins
            invariant
                n_txs == history@.len(),
                ti < n_txs,
                owned == string_set(addresses@),
                tx == &history@[ti as int],
                n_ins == tx.inputs@.len(),
                distinct_strings(tokens@),
                before_tx == owned_tokens(history@.take(ti as int), owned),
                after_outputs == before_tx.union(output_tokens(tx.outputs@, owned)),
                string_set(tokens@) == after_outputs.union(
                    input_tokens(tx.inputs@.take(ii as int), owned),
                ),
        {
            proof {
                lemma_input_tokens_step(tx.inputs@, owned, ii as int);
            }
            match &tx.inputs[ii].decoded.address {
                Option::Some(address) => {
                    if vec_contains(addresses, address) {
                        insert_token(&mut tokens, &tx.inputs[ii].token);
                        proof {
                            assert(string_set(tokens@) =~= after_outputs.union(
                                input_tokens(tx.inputs@.take(ii + 1), owned),
                            ));
                        }
                    } else {
                        proof {
                            assert(string_set(tokens@) =~= after_outputs.union(
                                input_tokens(tx.inputs@.take(ii + 1), owned),
                            ));
                        }
                    }
                },
                Option::None => {
                    proof {
                        assert(string_set(tokens@) =~= after_outputs.union(
                            input_tokens(tx.inputs@.take(ii + 1), owned),
                        ));
                    }
                },
            }
        }
        proof {
            lemma_owned_tokens_step(history@, owned, ti as int);
            assert(tx.outputs@.take(n_outs as int) =~= tx.outputs@);
            assert(tx.inputs@.take(n_ins as int) =~= tx.inputs@);
            assert(string_set(tokens@) =~= owned_tokens(history@.take(ti + 1), owned));
        }
    }
    proof {
        assert(history@.take(n_txs as int) =~= history@);
    }
    tokens
}

/// The discovered tokens, rendered as a JSON array of strings, ready to
/// print.
pub fn tokens_json(tokens: &Vec<String>) -> (r: String)
    ensures
        r@ == json_text(text_list(tokens@)),
{
    let arr = list_value(tokens);
    to_json(&arr)
}

} // verus!
