//! The mempool source: answers queries against the pool of unconfirmed
//! transactions. A writer outside this layer rewrites it, so readers reach it
//! only through a reader/writer lock; everything here speaks of one snapshot.
//! Beside the common record store it keeps a batch output resolver that covers
//! confirmed outpoints as well.

use vstd::prelude::*;

use crate::assoc::{assoc_find, lemma_assoc_find_step};
use crate::records::Records;
use crate::types::{
    views_of_utxos, view_opt_bytes, view_opt_tx, view_opt_txo, OutPoint, ScriptStats,
    SpendingInput, Transaction, TxOut, Txid, Utxo,
};

verus! {

/// The batch output resolver failed: an outpoint it was asked for is not
/// resolvable. Callers treat this as a data-integrity fault, not a miss.
#[derive(Clone, Copy, PartialEq, Eq, Structural, Debug)]
pub struct TxoResolveError {
    pub missing: OutPoint,
}

/// The mempool collaborator, as one snapshot under the read lock.
pub struct Mempool {
    pub records: Records,
    pub txos: Vec<(OutPoint, TxOut)>,
}

/// What a batch resolution answer says of the snapshot it was read from:
/// success lists every requested outpoint's output, in request order, exactly
/// when all of them resolve; failure names the first outpoint that does not.
pub open spec fn txos_lookup_ok(
    m: Mempool,
    outpoints: Seq<OutPoint>,
    r: Result<Vec<(OutPoint, TxOut)>, TxoResolveError>,
) -> bool {
    match r {
        Ok(out) => {
            &&& out@.len() == outpoints.len()
            &&& forall|i: int|
                0 <= i < outpoints.len() ==> (#[trigger] out@[i]).0 == outpoints[i]
            &&& forall|i: int|
                0 <= i < outpoints.len() ==> m.txo_of(#[trigger] outpoints[i]) is Some
                    && out@[i].1@ == m.txo_of(outpoints[i])->0@
        },
        Err(e) => {
            exists|i: int|
                0 <= i < outpoints.len() && #[trigger] outpoints[i] == e.missing && m.txo_of(
                    outpoints[i],
                ) is None && (forall|j: int| 0 <= j < i ==> m.txo_of(#[trigger] outpoints[j]) is Some)
        },
    }
}

impl Mempool {
    /// The mempool's unspent outputs recorded for a script identifier.
    pub open spec fn utxos_of(&self, scripthash: Seq<u8>) -> Seq<Utxo> {
        self.records.utxos_of(scripthash)
    }

    /// The mempool's statistics recorded for a script identifier.
    pub open spec fn stats_of(&self, scripthash: Seq<u8>) -> ScriptStats {
        self.records.stats_of(scripthash)
    }

    /// The unconfirmed transaction recorded under an id, if any.
    pub open spec fn txn_of(&self, txid: Txid) -> Option<Transaction> {
        self.records.txn_of(txid)
    }

    /// The serialized unconfirmed transaction recorded under an id, if any.
    pub open spec fn raw_txn_of(&self, txid: Txid) -> Option<Vec<u8>> {
        self.records.raw_txn_of(txid)
    }

    /// The unconfirmed spend recorded for an outpoint, if any.
    pub open spec fn spend_of(&self, outpoint: OutPoint) -> Option<SpendingInput> {
        self.records.spend_of(outpoint)
    }

    /// The output this snapshot can resolve an outpoint to, if any.
    pub open spec fn txo_of(&self, outpoint: OutPoint) -> Option<TxOut> {
        assoc_find(self.txos@, outpoint)
    }

    /// A well-formed mempool snapshot reports only unconfirmed records.
    pub open spec fn wf(&self) -> bool {
        self.records.flags_ok(false)
    }

    /// The mempool's unspent outputs for a script identifier.
    pub fn utxo(&self, scripthash: &[u8]) -> (r: Vec<Utxo>)
        ensures
            views_of_utxos(r@) == views_of_utxos(self.utxos_of(scripthash@)),
    {
        self.records.utxo(scripthash)
    }

    /// The mempool's statistics for a script identifier.
    pub fn stats(&self, scripthash: &[u8]) -> (r: ScriptStats)
        ensures
            r == self.stats_of(scripthash@),
    {
        self.records.stats(scripthash)
    }

    /// The unconfirmed transaction recorded under `txid`.
    pub fn lookup_txn(&self, txid: &Txid) -> (r: Option<Transaction>)
        ensures
            view_opt_tx(r) == view_opt_tx(self.txn_of(*txid)),
    {
        self.records.lookup_txn(txid)
    }

    /// The serialized unconfirmed transaction recorded under `txid`.
    pub fn lookup_raw_txn(&self, txid: &Txid) -> (r: Option<Vec<u8>>)
        ensures
            view_opt_bytes(r) == view_opt_bytes(self.raw_txn_of(*txid)),
    {
        self.records.lookup_raw_txn(txid)
    }

    /// The unconfirmed spend recorded for `outpoint`.
    pub fn lookup_spend(&self, outpoint: &OutPoint) -> (r: Option<SpendingInput>)
        ensures
            r == self.spend_of(*outpoint),
    {
        self.records.lookup_spend(outpoint)
    }

    /// The output this snapshot resolves `outpoint` to, as `txo_of` reports
    /// it.
    pub fn lookup_txo(&self, outpoint: &OutPoint) -> (r: Option<TxOut>)
        ensures
            view_opt_txo(r) == view_opt_txo(self.txo_of(*outpoint)),
    {
        let n = self.txos.len();
        let mut i: usize = 0;
        proof {
            assert(self.txos@.skip(0) =~= self.txos@);
        }
        while i < n
            invariant
                n == self.txos@.len(),
                i <= n,
                assoc_find(self.txos@, *outpoint) == assoc_find(
                    self.txos@.skip(i as int),
                    *outpoint,
                ),
            decreases n - i,
        {
            let entry = &self.txos[i];
            if entry.0 == *outpoint {
                proof {
                    assert(self.txos@.skip(i as int)[0] == self.txos@[i as int]);
                }
                return Some(entry.1.clone());
            }
            proof {
                lemma_assoc_find_step(self.txos@, *outpoint, i as int);
            }
            i = i + 1;
        }
        proof {
            assert(self.txos@.skip(n as int) =~= Seq::<(OutPoint, TxOut)>::empty());
        }
        None
    }

    /// Resolves a batch of outpoints to their output data in one call,
    /// request order preserved. Succeeds exactly when every requested
    /// outpoint resolves; otherwise reports the first that does not.
    pub fn lookup_txos(&self, outpoints: &Vec<OutPoint>) -> (r: Result<
        Vec<(OutPoint, TxOut)>,
        TxoResolveError,
    >)
        ensures
            txos_lookup_ok(*self, outpoints@, r),
            (r is Ok) <==> (forall|i: int|
                0 <= i < outpoints@.len() ==> resolves_txo(*self, #[trigger] outpoints@[i])),
    {
        let mut out: Vec<(OutPoint, TxOut)> = Vec::new();
        let mut i: usize = 0;
        while i < outpoints.len()
            invariant
                i <= outpoints@.len(),
                out@.len() == i,
                forall|j: int| 0 <= j < i ==> (#[trigger] out@[j]).0 == outpoints@[j],
                forall|j: int|
                    0 <= j < i ==> self.txo_of(#[trigger] outpoints@[j]) is Some && out@[j].1@
                        == self.txo_of(outpoints@[j])->0@,
            decreases outpoints@.len() - i,
        {
            let o = outpoints[i];
            match self.lookup_txo(&o) {
                Some(t) => {
                    out.push((o, t));
                },
                None => {
                    proof {
                        assert(self.txo_of(outpoints@[i as int]) is None);
                    }
                    return Err(TxoResolveError { missing: o });
                },
            }
            i = i + 1;
        }
        Ok(out)
    }
}

/// The snapshot can resolve the outpoint.
pub open spec fn resolves_txo(m: Mempool, outpoint: OutPoint) -> bool {
    m.txo_of(outpoint) is Some
}

} // verus!
