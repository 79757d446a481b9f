//! The query facade: every public read operation answers from both sources
//! under a fixed policy — confirmed-first with short-circuit for single-answer
//! lookups, concatenation for unspent-output listings, a pair for statistics —
//! and reaches the shared mempool only through its read lock, so each call
//! sees a fully formed snapshot.

use std::sync::Arc;

use rayon::iter::{IndexedParallelIterator, IntoParallelRefIterator, ParallelIterator};
use vstd::prelude::*;
use vstd::rwlock::{RwLock, RwLockPredicate};

use crate::chain::ChainQuery;
use crate::mempool::{resolves_txo, txos_lookup_ok, Mempool, TxoResolveError};
use crate::script::{provably_unspendable, script_is_provably_unspendable};
use crate::types::{
    status_of, views_of_utxos, view_opt_bytes, view_opt_tx, OutPoint, ScriptStats, SpendingInput,
    Transaction, TransactionStatus, TxOut, Txid, Utxo,
};

verus! {

/// The lock discipline for the shared mempool: every value the lock may hold
/// is a well-formed snapshot, so a reader never observes a partially written
/// state.
pub struct MempoolInv;

impl RwLockPredicate<Mempool> for MempoolInv {
    open spec fn inv(self, m: Mempool) -> bool {
        m.wf()
    }
}

/// Confirmed-first merge: the confirmed source's answer wins; only its
/// absence falls through to the unconfirmed source.
pub open spec fn confirmed_first<T>(confirmed: Option<T>, unconfirmed: Option<T>) -> Option<T> {
    if confirmed is Some {
        confirmed
    } else {
        unconfirmed
    }
}

/// The facade over the two sources. It holds shared handles only and no
/// state of its own: each call is an independent composition of reads.
pub struct Query {
    pub chain: Arc<ChainQuery>,
    pub mempool: Arc<RwLock<Mempool, MempoolInv>>,
}

/// What a spend lookup's answer says: the confirmed source's record when it
/// has one — the mempool is then never consulted — else the record of some
/// well-formed mempool snapshot.
pub open spec fn spend_lookup_ok(q: Query, outpoint: OutPoint, r: Option<SpendingInput>) -> bool {
    if (*q.chain).spend_of(outpoint) is Some {
        r == (*q.chain).spend_of(outpoint)
    } else {
        exists|m: Mempool| #[trigger] m.wf() && r == m.spend_of(outpoint)
    }
}

/// What a transaction lookup's answer says, with the same precedence as
/// `spend_lookup_ok`, compared by view.
pub open spec fn txn_lookup_ok(q: Query, txid: Txid, r: Option<Transaction>) -> bool {
    if (*q.chain).txn_of(txid) is Some {
        view_opt_tx(r) == view_opt_tx((*q.chain).txn_of(txid))
    } else {
        exists|m: Mempool| #[trigger] m.wf() && view_opt_tx(r) == view_opt_tx(m.txn_of(txid))
    }
}

/// What a raw-transaction lookup's answer says, with the same precedence as
/// `spend_lookup_ok`, compared by view.
pub open spec fn raw_txn_lookup_ok(q: Query, txid: Txid, r: Option<Vec<u8>>) -> bool {
    if (*q.chain).raw_txn_of(txid) is Some {
        view_opt_bytes(r) == view_opt_bytes((*q.chain).raw_txn_of(txid))
    } else {
        exists|m: Mempool| #[trigger] m.wf() && view_opt_bytes(r) == view_opt_bytes(
            m.raw_txn_of(txid),
        )
    }
}

/// What one slot of `lookup_tx_spends` says of output `vout` of transaction
/// `txid`: a provably unspendable script is reported unspent without any
/// lookup; every other output is answered as a spend lookup on its outpoint.
pub open spec fn spend_slot_ok(
    q: Query,
    txid: Txid,
    vout: u32,
    script: Seq<u8>,
    r: Option<SpendingInput>,
) -> bool {
    if provably_unspendable(script) {
        r is None
    } else {
        spend_lookup_ok(q, OutPoint { txid, vout }, r)
    }
}

/// Relies on rayon: `par_iter().enumerate().map(..).collect()` over a vector
/// is an indexed parallel map whose collected result has one element per
/// input, in index order — element `i` is the closure's answer for `(i,
/// &outputs[i])` — and the closure only calls the verified
/// `Query::spend_for_output`.
#[verifier::external_body]
fn par_spend_slots(q: &Query, txid: Txid, outputs: &Vec<TxOut>) -> (r: Vec<Option<SpendingInput>>)
    requires
        q.wf(),
        outputs@.len() <= u32::MAX,
    ensures
        r@.len() == outputs@.len(),
        forall|i: int|
            0 <= i < outputs@.len() ==> spend_slot_ok(
                *q,
                txid,
                i as u32,
                outputs@[i].script_pubkey@,
                r@[i],
            ),
{
    outputs
        .par_iter()
        .enumerate()
        .map(|(vout, txout)| q.spend_for_output(txid, vout as u32, &txout.script_pubkey))
        .collect()
}

impl Query {
    /// A valid facade: its confirmed source is well formed and its mempool
    /// lock carries the snapshot discipline.
    pub open spec fn wf(&self) -> bool {
        &&& (*self.chain).wf()
        &&& (*self.mempool).pred() == MempoolInv
    }

    /// Builds the facade over shared handles to the two sources.
    pub fn new(chain: Arc<ChainQuery>, mempool: Arc<RwLock<Mempool, MempoolInv>>) -> (q: Query)
        ensures
            q.chain == chain,
            q.mempool == mempool,
    {
        Query { chain, mempool }
    }

    /// Confirmed unspent outputs for the identifier, then one mempool
    /// snapshot's, in that order; an identifier with no activity yields the
    /// empty listing. No cross-source deduplication is performed: the two
    /// sources never report the same outpoint as unspent simultaneously.
    pub fn utxo(&self, scripthash: &[u8]) -> (r: Vec<Utxo>)
        requires
            self.wf(),
        ensures
            exists|m: Mempool| #[trigger] m.wf() && views_of_utxos(r@) == views_of_utxos(
                (*self.chain).utxos_of(scripthash@),
            ) + views_of_utxos(m.utxos_of(scripthash@)),
    {
        let mut utxos = self.chain.utxo(scripthash);
        let handle = self.mempool.acquire_read();
        let mem = handle.borrow();
        let mut more = mem.utxo(scripthash);
        let ghost msnap: Mempool = *mem;
        handle.release_read();
        utxos.append(&mut more);
        proof {
            assert(views_of_utxos(utxos@) =~= views_of_utxos(
                (*self.chain).utxos_of(scripthash@),
            ) + views_of_utxos(msnap.utxos_of(scripthash@)));
            assert(msnap.wf());
        }
        utxos
    }

    /// The two sources' statistics for the identifier, as a pair — confirmed
    /// side first — never merged numerically. Both members are always
    /// returned, each falling back to the no-activity defaults. The read
    /// lock is held for the mempool side's computation only.
    pub fn stats(&self, scripthash: &[u8]) -> (r: (ScriptStats, ScriptStats))
        requires
            self.wf(),
        ensures
            r.0 == (*self.chain).stats_of(scripthash@),
            exists|m: Mempool| #[trigger] m.wf() && r.1 == m.stats_of(scripthash@),
    {
        let confirmed = self.chain.stats(scripthash);
        let handle = self.mempool.acquire_read();
        let mem = handle.borrow();
        let unconfirmed = mem.stats(scripthash);
        let ghost msnap: Mempool = *mem;
        handle.release_read();
        proof {
            assert(msnap.wf() && unconfirmed == msnap.stats_of(scripthash@));
        }
        (confirmed, unconfirmed)
    }

    /// The transaction under `txid`, confirmed-first: the mempool is never
    /// consulted when the confirmed source has a record.
    pub fn lookup_txn(&self, txid: &Txid) -> (r: Option<Transaction>)
        requires
            self.wf(),
        ensures
            txn_lookup_ok(*self, *txid, r),
    {
        let c = self.chain.lookup_txn(txid);
        match c {
            Some(t) => Some(t),
            None => {
                let handle = self.mempool.acquire_read();
                let mem = handle.borrow();
                let r = mem.lookup_txn(txid);
                let ghost msnap: Mempool = *mem;
                handle.release_read();
                proof {
                    assert(msnap.wf());
                }
                r
            },
        }
    }

    /// The serialized transaction under `txid`, with the same precedence and
    /// short-circuit as `lookup_txn`.
    pub fn lookup_raw_txn(&self, txid: &Txid) -> (r: Option<Vec<u8>>)
        requires
            self.wf(),
        ensures
            raw_txn_lookup_ok(*self, *txid, r),
    {
        let c = self.chain.lookup_raw_txn(txid);
        match c {
            Some(raw) => Some(raw),
            None => {
                let handle = self.mempool.acquire_read();
                let mem = handle.borrow();
                let r = mem.lookup_raw_txn(txid);
                let ghost msnap: Mempool = *mem;
                handle.release_read();
                proof {
                    assert(msnap.wf());
                }
                r
            },
        }
    }

    /// Resolves a batch of outpoints to their output data in one call,
    /// through the mempool's resolver, which covers confirmed outpoints as
    /// well. A failed resolution is a data-integrity fault, not a miss: the
    /// error passes through unmodified for the caller to treat as fatal.
    pub fn lookup_txos(&self, outpoints: &Vec<OutPoint>) -> (r: Result<
        Vec<(OutPoint, TxOut)>,
        TxoResolveError,
    >)
        requires
            self.wf(),
        ensures
            exists|m: Mempool| #[trigger] m.wf() && txos_lookup_ok(m, outpoints@, r) && ((r
                is Ok) <==> (forall|i: int|
                0 <= i < outpoints@.len() ==> resolves_txo(m, #[trigger] outpoints@[i]))),
    {
        let handle = self.mempool.acquire_read();
        let mem = handle.borrow();
        let r = mem.lookup_txos(outpoints);
        let ghost msnap: Mempool = *mem;
        handle.release_read();
        proof {
            assert(msnap.wf());
        }
        r
    }

    /// The spend of `outpoint`, confirmed-first: the mempool is never
    /// consulted when the confirmed source records a spend.
    pub fn lookup_spend(&self, outpoint: &OutPoint) -> (r: Option<SpendingInput>)
        requires
            self.wf(),
        ensures
            spend_lookup_ok(*self, *outpoint, r),
    {
        let c = self.chain.lookup_spend(outpoint);
        match c {
            Some(s) => Some(s),
            None => {
                let handle = self.mempool.acquire_read();
                let mem = handle.borrow();
                let r = mem.lookup_spend(outpoint);
                let ghost msnap: Mempool = *mem;
                handle.release_read();
                proof {
                    assert(msnap.wf());
                }
                r
            },
        }
    }

    /// Resolves the spend status of one output: a provably unspendable
    /// script is reported unspent without any lookup; every other output is
    /// resolved through `lookup_spend`.
    pub fn spend_for_output(&self, txid: Txid, vout: u32, script_pubkey: &Vec<u8>) -> (r: Option<
        SpendingInput,
    >)
        requires
            self.wf(),
        ensures
            spend_slot_ok(*self, txid, vout, script_pubkey@, r),
    {
        if script_is_provably_unspendable(script_pubkey) {
            None
        } else {
            self.lookup_spend(&OutPoint { txid, vout })
        }
    }

    /// For every output of `tx`, whether and how it has been spent: index
    /// `i` of the result answers for output `i`, whatever order the
    /// per-output lookups complete in. The outputs are resolved
    /// independently and concurrently; each lookup reads its own
    /// confirmed-and-snapshot pair.
    pub fn lookup_tx_spends(&self, tx: Transaction) -> (r: Vec<Option<SpendingInput>>)
        requires
            self.wf(),
            tx.output@.len() <= u32::MAX,
        ensures
            r@.len() == tx.output@.len(),
            forall|i: int|
                0 <= i < tx.output@.len() ==> spend_slot_ok(
                    *self,
                    tx.txid,
                    i as u32,
                    tx.output@[i].script_pubkey@,
                    r@[i],
                ),
    {
        let txid = tx.txid;
        par_spend_slots(self, txid, &tx.output)
    }

    /// The transaction's status, derived purely from whether the confirmed
    /// index places it in a block: no containing block means unconfirmed,
    /// whatever the mempool holds.
    pub fn get_tx_status(&self, txid: &Txid) -> (r: TransactionStatus)
        requires
            self.wf(),
        ensures
            r == status_of((*self.chain).block_of(*txid)),
    {
        TransactionStatus::from(self.chain.tx_confirming_block(txid))
    }
}

/// Wraps a well-formed mempool state in the shared read/write lock that the
/// facade expects, establishing the snapshot discipline.
pub fn mempool_lock(m: Mempool) -> (l: Arc<RwLock<Mempool, MempoolInv>>)
    requires
        m.wf(),
    ensures
        (*l).pred() == MempoolInv,
{
    Arc::new(RwLock::new(m, Ghost(MempoolInv)))
}

} // verus!
