//! The record store that each data source answers queries from: per-script
//! unspent outputs and statistics, transactions by id (parsed and raw), and
//! spend records by outpoint. Both sources read it through the same verified
//! linear searches; they differ only in what else they keep beside it.

use vstd::prelude::*;

use crate::assoc::{
    assoc_find, assoc_find_bytes, lemma_assoc_find_bytes_step, lemma_assoc_find_step,
};
use crate::types::{
    views_of_utxos, view_opt_bytes, view_opt_tx, OutPoint, ScriptStats, SpendingInput, Transaction,
    Txid, Utxo, default_stats,
};

verus! {

/// Returns true exactly when the two byte strings hold the same bytes.
pub fn bytes_eq(a: &[u8], b: &[u8]) -> (r: bool)
    ensures
        r == (a@ == b@),
{
    if a.len() != b.len() {
        return false;
    }
    let mut i: usize = 0;
    while i < a.len()
        invariant
            i <= a@.len(),
            a@.len() == b@.len(),
            forall|j: int| 0 <= j < i ==> a@[j] == b@[j],
        decreases a@.len() - i,
    {
        if a[i] != b[i] {
            return false;
        }
        i = i + 1;
    }
    proof {
        assert(a@ =~= b@);
    }
    true
}

/// Copies a sequence of unspent-output records.
pub fn copy_utxos(v: &Vec<Utxo>) -> (r: Vec<Utxo>)
    ensures
        views_of_utxos(r@) == views_of_utxos(v@),
{
    let mut r: Vec<Utxo> = Vec::new();
    let mut i: usize = 0;
    while i < v.len()
        invariant
            i <= v@.len(),
            r@.len() == i,
            forall|j: int| 0 <= j < i ==> #[trigger] r@[j]@ == v@[j]@,
        decreases v@.len() - i,
    {
        r.push(v[i].clone());
        i = i + 1;
    }
    proof {
        assert(views_of_utxos(r@) =~= views_of_utxos(v@));
    }
    r
}

/// What one data source knows, keyed for each kind of query.
pub struct Records {
    pub utxos_by_script: Vec<(Vec<u8>, Vec<Utxo>)>,
    pub stats_by_script: Vec<(Vec<u8>, ScriptStats)>,
    pub txns: Vec<(Txid, Transaction)>,
    pub raw_txns: Vec<(Txid, Vec<u8>)>,
    pub spends: Vec<(OutPoint, SpendingInput)>,
}

impl Records {
    /// The unspent outputs recorded for a script identifier; none recorded
    /// means the empty sequence.
    pub open spec fn utxos_of(&self, scripthash: Seq<u8>) -> Seq<Utxo> {
        match assoc_find_bytes(self.utxos_by_script@, scripthash) {
            Some(v) => v@,
            None => Seq::empty(),
        }
    }

    /// The statistics recorded for a script identifier; none recorded means
    /// the no-activity defaults.
    pub open spec fn stats_of(&self, scripthash: Seq<u8>) -> ScriptStats {
        match assoc_find_bytes(self.stats_by_script@, scripthash) {
            Some(s) => s,
            None => default_stats(),
        }
    }

    /// The transaction recorded under an id, if any.
    pub open spec fn txn_of(&self, txid: Txid) -> Option<Transaction> {
        assoc_find(self.txns@, txid)
    }

    /// The serialized transaction recorded under an id, if any.
    pub open spec fn raw_txn_of(&self, txid: Txid) -> Option<Vec<u8>> {
        assoc_find(self.raw_txns@, txid)
    }

    /// The spend recorded for an outpoint, if any.
    pub open spec fn spend_of(&self, outpoint: OutPoint) -> Option<SpendingInput> {
        assoc_find(self.spends@, outpoint)
    }

    /// Every spend and every unspent output carries `confirmed` as its
    /// confirmation flag: a source reports only records of its own side.
    pub open spec fn flags_ok(&self, confirmed: bool) -> bool {
        &&& forall|i: int|
            0 <= i < self.spends@.len() ==> (#[trigger] self.spends@[i]).1.confirmed == confirmed
        &&& forall|i: int, j: int|
            0 <= i < self.utxos_by_script@.len() && 0 <= j < self.utxos_by_script@[i].1@.len()
                ==> (#[trigger] self.utxos_by_script@[i].1@[j]).confirmed == confirmed
    }

    /// The unspent outputs for a script identifier, as `utxos_of` lists them.
    pub fn utxo(&self, scripthash: &[u8]) -> (r: Vec<Utxo>)
        ensures
            views_of_utxos(r@) == views_of_utxos(self.utxos_of(scripthash@)),
    {
        let n = self.utxos_by_script.len();
        let mut i: usize = 0;
        proof {
            assert(self.utxos_by_script@.skip(0) =~= self.utxos_by_script@);
        }
        while i < n
            invariant
                n == self.utxos_by_script@.len(),
                i <= n,
                assoc_find_bytes(self.utxos_by_script@, scripthash@) == assoc_find_bytes(
                    self.utxos_by_script@.skip(i as int),
                    scripthash@,
                ),
            decreases n - i,
        {
            let entry = &self.utxos_by_script[i];
            if bytes_eq(entry.0.as_slice(), scripthash) {
                proof {
                    assert(self.utxos_by_script@.skip(i as int)[0] == self.utxos_by_script@[
                    i as int]);
                }
                return copy_utxos(&entry.1);
            }
            proof {
                lemma_assoc_find_bytes_step(self.utxos_by_script@, scripthash@, i as int);
            }
            i = i + 1;
        }
        proof {
            assert(self.utxos_by_script@.skip(n as int) =~= Seq::<(Vec<u8>, Vec<Utxo>)>::empty());
        }
        Vec::new()
    }

    /// The statistics for a script identifier, as `stats_of` reports them.
    pub fn stats(&self, scripthash: &[u8]) -> (r: ScriptStats)
        ensures
            r == self.stats_of(scripthash@),
    {
        let n = self.stats_by_script.len();
        let mut i: usize = 0;
        proof {
            assert(self.stats_by_script@.skip(0) =~= self.stats_by_script@);
        }
        while i < n
            invariant
                n == self.stats_by_script@.len(),
                i <= n,
                assoc_find_bytes(self.stats_by_script@, scripthash@) == assoc_find_bytes(
                    self.stats_by_script@.skip(i as int),
                    scripthash@,
                ),
            decreases n - i,
        {
            let entry = &self.stats_by_script[i];
            if bytes_eq(entry.0.as_slice(), scripthash) {
                proof {
                    assert(self.stats_by_script@.skip(i as int)[0] == self.stats_by_script@[
                    i as int]);
                }
                return entry.1;
            }
            proof {
                lemma_assoc_find_bytes_step(self.stats_by_script@, scripthash@, i as int);
            }
            i = i + 1;
        }
        proof {
            assert(self.stats_by_script@.skip(n as int) =~= Seq::<(
                Vec<u8>,
                ScriptStats,
            )>::empty());
        }
        ScriptStats::default()
    }

    /// The transaction recorded under `txid`, as `txn_of` reports it.
    pub fn lookup_txn(&self, txid: &Txid) -> (r: Option<Transaction>)
        ensures
            view_opt_tx(r) == view_opt_tx(self.txn_of(*txid)),
    {
        let n = self.txns.len();
        let mut i: usize = 0;
        proof {
            assert(self.txns@.skip(0) =~= self.txns@);
        }
        while i < n
            invariant
                n == self.txns@.len(),
                i <= n,
                assoc_find(self.txns@, *txid) == assoc_find(self.txns@.skip(i as int), *txid),
            decreases n - i,
        {
            let entry = &self.txns[i];
            if entry.0 == *txid {
                proof {
                    assert(self.txns@.skip(i as int)[0] == self.txns@[i as int]);
                }
                return Some(entry.1.clone());
            }
            proof {
                lemma_assoc_find_step(self.txns@, *txid, i as int);
            }
            i = i + 1;
        }
        proof {
            assert(self.txns@.skip(n as int) =~= Seq::<(Txid, Transaction)>::empty());
        }
        None
    }

    /// The serialized transaction recorded under `txid`, as `raw_txn_of`
    /// reports it.
    pub fn lookup_raw_txn(&self, txid: &Txid) -> (r: Option<Vec<u8>>)
        ensures
            view_opt_bytes(r) == view_opt_bytes(self.raw_txn_of(*txid)),
    {
        let n = self.raw_txns.len();
        let mut i: usize = 0;
        proof {
            assert(self.raw_txns@.skip(0) =~= self.raw_txns@);
        }
        while i < n
            invariant
                n == self.raw_txns@.len(),
                i <= n,
                assoc_find(self.raw_txns@, *txid) == assoc_find(
                    self.raw_txns@.skip(i as int),
                    *txid,
                ),
            decreases n - i,
        {
            let entry = &self.raw_txns[i];
            if entry.0 == *txid {
                proof {
                    assert(self.raw_txns@.skip(i as int)[0] == self.raw_txns@[i as int]);
                }
                let raw = entry.1.clone();
                proof {
                    assert(raw@ =~= self.raw_txns@[i as int].1@);
                }
                return Some(raw);
            }
            proof {
                lemma_assoc_find_step(self.raw_txns@, *txid, i as int);
            }
            i = i + 1;
        }
        proof {
            assert(self.raw_txns@.skip(n as int) =~= Seq::<(Txid, Vec<u8>)>::empty());
        }
        None
    }

    /// The spend recorded for `outpoint`, as `spend_of` reports it.
    pub fn lookup_spend(&self, outpoint: &OutPoint) -> (r: Option<SpendingInput>)
        ensures
            r == self.spend_of(*outpoint),
    {
        let n = self.spends.len();
        let mut i: usize = 0;
        proof {
            assert(self.spends@.skip(0) =~= self.spends@);
        }
        while i < n
            invariant
                n == self.spends@.len(),
                i <= n,
                assoc_find(self.spends@, *outpoint) == assoc_find(
                    self.spends@.skip(i as int),
                    *outpoint,
                ),
            decreases n - i,
        {
            let entry = self.spends[i];
            if entry.0 == *outpoint {
                proof {
                    assert(self.spends@.skip(i as int)[0] == self.spends@[i as int]);
                }
                return Some(entry.1);
            }
            proof {
                lemma_assoc_find_step(self.spends@, *outpoint, i as int);
            }
            i = i + 1;
        }
        proof {
            assert(self.spends@.skip(n as int) =~= Seq::<(OutPoint, SpendingInput)>::empty());
        }
        None
    }
}

} // verus!
