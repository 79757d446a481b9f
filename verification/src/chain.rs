//! The confirmed-chain source: answers queries against confirmed state only.
//! It is read without a lock; an external indexer owns its contents and this
//! layer never mutates them. Beside the common record store it knows, for
//! each confirmed transaction, the block that contains it.

use vstd::prelude::*;

use crate::assoc::{assoc_find, lemma_assoc_find_step};
use crate::records::Records;
use crate::types::{
    views_of_utxos, view_opt_bytes, view_opt_tx, BlockId, OutPoint, ScriptStats, SpendingInput,
    Transaction, Txid, Utxo,
};

verus! {

/// The confirmed-chain collaborator.
pub struct ChainQuery {
    pub records: Records,
    pub blocks: Vec<(Txid, BlockId)>,
}

impl ChainQuery {
    /// The confirmed unspent outputs recorded for a script identifier.
    pub open spec fn utxos_of(&self, scripthash: Seq<u8>) -> Seq<Utxo> {
        self.records.utxos_of(scripthash)
    }

    /// The confirmed statistics recorded for a script identifier.
    pub open spec fn stats_of(&self, scripthash: Seq<u8>) -> ScriptStats {
        self.records.stats_of(scripthash)
    }

    /// The confirmed transaction recorded under an id, if any.
    pub open spec fn txn_of(&self, txid: Txid) -> Option<Transaction> {
        self.records.txn_of(txid)
    }

    /// The serialized confirmed transaction recorded under an id, if any.
    pub open spec fn raw_txn_of(&self, txid: Txid) -> Option<Vec<u8>> {
        self.records.raw_txn_of(txid)
    }

    /// The confirmed spend recorded for an outpoint, if any.
    pub open spec fn spend_of(&self, outpoint: OutPoint) -> Option<SpendingInput> {
        self.records.spend_of(outpoint)
    }

    /// The block recorded as containing a transaction, if any.
    pub open spec fn block_of(&self, txid: Txid) -> Option<BlockId> {
        assoc_find(self.blocks@, txid)
    }

    /// A well-formed confirmed source reports only confirmed records.
    pub open spec fn wf(&self) -> bool {
        self.records.flags_ok(true)
    }

    /// The confirmed unspent outputs for a script identifier.
    pub fn utxo(&self, scripthash: &[u8]) -> (r: Vec<Utxo>)
        ensures
            views_of_utxos(r@) == views_of_utxos(self.utxos_of(scripthash@)),
    {
        self.records.utxo(scripthash)
    }

    /// The confirmed statistics for a script identifier.
    pub fn stats(&self, scripthash: &[u8]) -> (r: ScriptStats)
        ensures
            r == self.stats_of(scripthash@),
    {
        self.records.stats(scripthash)
    }

    /// The confirmed transaction recorded under `txid`.
    pub fn lookup_txn(&self, txid: &Txid) -> (r: Option<Transaction>)
        ensures
            view_opt_tx(r) == view_opt_tx(self.txn_of(*txid)),
    {
        self.records.lookup_txn(txid)
    }

    /// The serialized confirmed transaction recorded under `txid`.
    pub fn lookup_raw_txn(&self, txid: &Txid) -> (r: Option<Vec<u8>>)
        ensures
            view_opt_bytes(r) == view_opt_bytes(self.raw_txn_of(*txid)),
    {
        self.records.lookup_raw_txn(txid)
    }

    /// The confirmed spend recorded for `outpoint`.
    pub fn lookup_spend(&self, outpoint: &OutPoint) -> (r: Option<SpendingInput>)
        ensures
            r == self.spend_of(*outpoint),
    {
        self.records.lookup_spend(outpoint)
    }

    /// The block this source places `txid` in, if any.
    pub fn tx_confirming_block(&self, txid: &Txid) -> (r: Option<BlockId>)
        ensures
            r == self.block_of(*txid),
    {
        let n = self.blocks.len();
        let mut i: usize = 0;
        proof {
            assert(self.blocks@.skip(0) =~= self.blocks@);
        }
        while i < n
            invariant
                n == self.blocks@.len(),
                i <= n,
                assoc_find(self.blocks@, *txid) == assoc_find(self.blocks@.skip(i as int), *txid),
            decreases n - i,
        {
            let entry = self.blocks[i];
            if entry.0 == *txid {
                proof {
                    assert(self.blocks@.skip(i as int)[0] == self.blocks@[i as int]);
                }
                return Some(entry.1);
            }
            proof {
                lemma_assoc_find_step(self.blocks@, *txid, i as int);
            }
            i = i + 1;
        }
        proof {
            assert(self.blocks@.skip(n as int) =~= Seq::<(Txid, BlockId)>::empty());
        }
        None
    }
}

} // verus!
