//! The merge policy's laws, stated over the spec functions the public
//! contracts use and proved for every pair of source states.

use vstd::prelude::*;

use crate::assoc::assoc_find_bytes;
use crate::chain::ChainQuery;
use crate::mempool::Mempool;
use crate::query::{confirmed_first, spend_lookup_ok, Query};
use crate::types::{
    default_stats, status_of, views_of_utxos, OutPoint, SpendingInput, TransactionStatus, Txid,
    Utxo, UtxoView,
};

verus! {

/// When the confirmed source records a spend for an outpoint, the
/// confirmed-first merge is that record, whatever the mempool holds for the
/// same outpoint — even a disagreeing record.
pub proof fn lemma_spend_confirmed_precedence(c: ChainQuery, m: Mempool, outpoint: OutPoint)
    requires
        c.spend_of(outpoint) is Some,
    ensures
        confirmed_first(c.spend_of(outpoint), m.spend_of(outpoint)) == c.spend_of(outpoint),
{
}

/// Any answer `lookup_spend`'s contract admits for an outpoint the confirmed
/// source records a spend of is the confirmed-first merge against every
/// mempool state whatever: the mempool cannot influence it.
pub proof fn lemma_spend_lookup_confirmed(
    q: Query,
    outpoint: OutPoint,
    r: Option<SpendingInput>,
    m: Mempool,
)
    requires
        spend_lookup_ok(q, outpoint, r),
        (*q.chain).spend_of(outpoint) is Some,
    ensures
        r == confirmed_first((*q.chain).spend_of(outpoint), m.spend_of(outpoint)),
{
}

/// For an outpoint the confirmed source knows no spend of, the
/// confirmed-first merge is exactly the mempool's record.
pub proof fn lemma_spend_mempool_fallback(
    c: ChainQuery,
    m: Mempool,
    outpoint: OutPoint,
    s: SpendingInput,
)
    requires
        c.spend_of(outpoint) is None,
        m.spend_of(outpoint) == Some(s),
    ensures
        confirmed_first(c.spend_of(outpoint), m.spend_of(outpoint)) == Some(s),
{
}

/// For a transaction both sources record — parsed and serialized — the
/// confirmed-first merge returns the confirmed version of both forms.
pub proof fn lemma_txn_confirmed_precedence(c: ChainQuery, m: Mempool, txid: Txid)
    requires
        c.txn_of(txid) is Some,
        m.txn_of(txid) is Some,
        c.raw_txn_of(txid) is Some,
        m.raw_txn_of(txid) is Some,
    ensures
        confirmed_first(c.txn_of(txid), m.txn_of(txid)) == c.txn_of(txid),
        confirmed_first(c.raw_txn_of(txid), m.raw_txn_of(txid)) == c.raw_txn_of(txid),
{
}

/// A script identifier with zero activity — neither source lists an unspent
/// output for it — merges to the empty listing, not an error or an absence.
pub proof fn lemma_utxo_zero_activity(c: ChainQuery, m: Mempool, scripthash: Seq<u8>)
    requires
        c.utxos_of(scripthash) == Seq::<Utxo>::empty(),
        m.utxos_of(scripthash) == Seq::<Utxo>::empty(),
    ensures
        views_of_utxos(c.utxos_of(scripthash)) + views_of_utxos(m.utxos_of(scripthash)) == Seq::<
            UtxoView,
        >::empty(),
{
    assert(views_of_utxos(c.utxos_of(scripthash)) + views_of_utxos(m.utxos_of(scripthash)) =~= Seq::<
        UtxoView,
    >::empty());
}

/// Both members of the statistics pair exist for every identifier: a source
/// with nothing recorded reports the no-activity defaults, never an absence.
pub proof fn lemma_stats_zero_activity(c: ChainQuery, m: Mempool, scripthash: Seq<u8>)
    requires
        assoc_find_bytes(c.records.stats_by_script@, scripthash) is None,
        assoc_find_bytes(m.records.stats_by_script@, scripthash) is None,
    ensures
        c.stats_of(scripthash) == default_stats(),
        m.stats_of(scripthash) == default_stats(),
{
}

/// A transaction the confirmed index places in no block has the unconfirmed
/// status, even while the mempool holds the transaction.
pub proof fn lemma_status_ignores_mempool(c: ChainQuery, m: Mempool, txid: Txid)
    requires
        c.block_of(txid) is None,
        m.txn_of(txid) is Some,
    ensures
        status_of(c.block_of(txid)) == TransactionStatus::Unconfirmed,
{
}

} // verus!
