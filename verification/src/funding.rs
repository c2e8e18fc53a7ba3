//! Choosing the buyer's outputs that fund a purchase.
//!
//! The choice is first-fit: the candidates are taken in the order in which
//! they came, outputs too small to be worth spending are passed over, and
//! the choice ends with the first output that brings the sum to the amount
//! that is needed.

use crate::error::MarketError;
use crate::models::{BuyerUtxo, BuyerUtxoView, OrdinalUtxo, OrdinalUtxoView};
use vstd::prelude::*;

verus! {

/// The least value an output can have and still be taken as funding. It is
/// lower than the threshold below which the assembler pays no change: an
/// output that exists can be spent for what it is worth, while a new output
/// that small is not worth making.
pub const MIN_FUNDING_VALUE: u64 = 200;

/// What a purchase sets aside for the miner fee, on top of the price.
pub const MINER_FEE_BUFFER: u64 = 1000;

/// The test that picks the outputs worth spending.
pub open spec fn spendable_test() -> spec_fn(OrdinalUtxoView) -> bool {
    |u: OrdinalUtxoView| u.satoshis >= MIN_FUNDING_VALUE
}

/// The candidates that are worth spending, in the order in which they came.
pub open spec fn spendable(candidates: Seq<OrdinalUtxoView>) -> Seq<OrdinalUtxoView> {
    candidates.filter(spendable_test())
}

/// The sum of the values of some outputs.
pub open spec fn total_value(outputs: Seq<OrdinalUtxoView>) -> nat
    decreases outputs.len(),
{
    if outputs.len() == 0 {
        0
    } else {
        total_value(outputs.drop_last()) + outputs.last().satoshis as nat
    }
}

/// An output of the indexer as a funding output: the locking script becomes
/// the script to sign for.
pub open spec fn as_funding(u: OrdinalUtxoView) -> BuyerUtxoView {
    BuyerUtxoView { txid: u.txid, vout: u.vout, satoshis: u.satoshis, script_hex: u.lock }
}

/// Some outputs of the indexer as funding outputs, in the same order.
pub open spec fn funding_of(pool: Seq<OrdinalUtxoView>) -> Seq<BuyerUtxoView> {
    pool.map_values(|u: OrdinalUtxoView| as_funding(u))
}

/// Whether the first `k` outputs of the pool are the choice for `required`:
/// they reach the amount, and without the last of them they do not.
pub open spec fn is_selection(pool: Seq<OrdinalUtxoView>, k: int, required: nat) -> bool {
    &&& 0 <= k <= pool.len()
    &&& total_value(pool.take(k)) >= required
    &&& k > 0 ==> total_value(pool.take(k - 1)) < required
}

/// The number of outputs that the selector takes from a pool for an amount,
/// where the pool reaches the amount.
pub open spec fn selection_size(pool: Seq<OrdinalUtxoView>, required: nat) -> int {
    choose|k: int| is_selection(pool, k, required)
}

/// A longer prefix is worth at least as much as a shorter one.
pub proof fn lemma_total_value_grows(pool: Seq<OrdinalUtxoView>, j: int, k: int)
    requires
        0 <= j <= k <= pool.len(),
    ensures
        total_value(pool.take(j)) <= total_value(pool.take(k)),
    decreases k - j,
{
    if j < k {
        lemma_total_value_grows(pool, j, k - 1);
        assert(pool.take(k).drop_last() =~= pool.take(k - 1));
    }
}

/// The choice is unique: the selector never takes more than the outputs up
/// to the first that brings the sum to the amount, and never fewer.
pub proof fn law_selection_is_unique(pool: Seq<OrdinalUtxoView>, j: int, k: int, required: nat)
    requires
        is_selection(pool, j, required),
        is_selection(pool, k, required),
    ensures
        j == k,
{
    if j < k {
        lemma_total_value_grows(pool, j, k - 1);
    } else if k < j {
        lemma_total_value_grows(pool, k, j - 1);
    }
}

/// What a filter keeps of a prefix is a prefix of what it keeps of the whole.
pub proof fn lemma_filter_of_prefix(
    s: Seq<OrdinalUtxoView>,
    test: spec_fn(OrdinalUtxoView) -> bool,
    i: int,
)
    requires
        0 <= i <= s.len(),
    ensures
        s.take(i).filter(test).len() <= s.filter(test).len(),
        s.take(i).filter(test) == s.filter(test).take(s.take(i).filter(test).len() as int),
{
    assert(s =~= s.take(i) + s.skip(i));
    Seq::filter_distributes_over_add(s.take(i), s.skip(i), test);
    assert(s.filter(test).take(s.take(i).filter(test).len() as int) =~= s.take(i).filter(test));
}

/// What a filter keeps of one more output.
pub proof fn lemma_spendable_next(s: Seq<OrdinalUtxoView>, i: int)
    requires
        0 <= i < s.len(),
    ensures
        spendable(s.take(i + 1)) == if s[i].satoshis >= MIN_FUNDING_VALUE {
            spendable(s.take(i)).push(s[i])
        } else {
            spendable(s.take(i))
        },
{
    reveal(Seq::filter);
    assert(s.take(i + 1).drop_last() =~= s.take(i));
}

/// Chooses the outputs that fund `required`.
///
/// Where the candidates that are worth spending reach the amount, the choice
/// is the shortest run of them, from the first on, that reaches it. Where
/// they do not, the call fails with `InsufficientFunds`, which reports the
/// amount and what the spendable candidates are worth together.
pub fn select_funding(candidates: &Vec<OrdinalUtxo>, required: u64) -> (r: Result<
    Vec<BuyerUtxo>,
    MarketError,
>)
    ensures
        total_value(spendable(candidates.deep_view())) >= required ==> (r matches Ok(chosen)
            && is_selection(spendable(candidates.deep_view()), chosen.len() as int, required as nat)
            && chosen.deep_view() == funding_of(
            spendable(candidates.deep_view()).take(chosen.len() as int),
        )),
        total_value(spendable(candidates.deep_view())) < required ==> r == Err::<
            Vec<BuyerUtxo>,
            MarketError,
        >(
            MarketError::InsufficientFunds {
                required,
                available: total_value(spendable(candidates.deep_view())) as u64,
            },
        ),
{
    let ghost all = candidates.deep_view();
    let mut chosen: Vec<BuyerUtxo> = Vec::new();
    if required == 0 {
        assert(spendable(all).take(0) =~= Seq::<OrdinalUtxoView>::empty());
        assert(chosen.deep_view() =~= funding_of(spendable(all).take(0)));
        return Ok(chosen);
    }
    let mut collected: u64 = 0;
    let mut i: usize = 0;
    assert(spendable(all.take(0)) =~= Seq::<OrdinalUtxoView>::empty()) by {
        reveal(Seq::filter);
    }
    while i < candidates.len()
        invariant
            i <= candidates.len(),
            all == candidates.deep_view(),
            required > 0,
            collected == total_value(spendable(all.take(i as int))),
            collected < required,
            chosen.deep_view() == funding_of(spendable(all.take(i as int))),
        decreases candidates.len() - i,
    {
        let utxo = &candidates[i];
        proof {
            lemma_spendable_next(all, i as int);
        }
        if utxo.satoshis >= MIN_FUNDING_VALUE {
            let ghost before = chosen.deep_view();
            let ghost pool_before = spendable(all.take(i as int));
            let ghost pool_now = spendable(all.take(i + 1));
            chosen.push(
                BuyerUtxo {
                    txid: utxo.txid.clone(),
                    vout: utxo.vout,
                    satoshis: utxo.satoshis,
                    script_hex: utxo.lock.clone(),
                },
            );
            proof {
                assert(pool_now == pool_before.push(all[i as int]));
                assert(pool_now.drop_last() =~= pool_before);
                assert(chosen.deep_view() =~= before.push(as_funding(all[i as int])));
                assert(chosen.deep_view() =~= funding_of(pool_now));
            }
            if utxo.satoshis >= required - collected {
                proof {
                    let pool = spendable(all);
                    let k = chosen.len() as int;
                    lemma_filter_of_prefix(all, spendable_test(), i + 1);
                    assert(pool.take(k) == pool_now);
                    assert(pool.take(k - 1) =~= pool_before);
                    lemma_total_value_grows(pool, k, pool.len() as int);
                    assert(pool.take(pool.len() as int) =~= pool);
                }
                return Ok(chosen);
            }
            collected += utxo.satoshis;
        }
        i += 1;
    }
    proof {
        assert(all.take(i as int) =~= all);
    }
    Err(MarketError::InsufficientFunds { required, available: collected })
}

} // verus!
