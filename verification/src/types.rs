//! The value types that queries consume and produce: identifiers, outputs,
//! transactions, unspent-output records, per-script statistics, spend records
//! and confirmation status, together with their spec-level views.

use vstd::prelude::*;

verus! {

/// Identifies a transaction.
#[derive(Clone, Copy, PartialEq, Eq, Structural, Debug, Hash)]
pub struct Txid {
    pub id: u64,
}

/// Identifies a specific output of a transaction by (transaction id, index).
#[derive(Clone, Copy, PartialEq, Eq, Structural, Debug, Hash)]
pub struct OutPoint {
    pub txid: Txid,
    pub vout: u32,
}

/// One output of a transaction: an amount and the script that locks it.
#[derive(Debug)]
pub struct TxOut {
    pub value: u64,
    pub script_pubkey: Vec<u8>,
}

/// Spec-level view of a `TxOut`.
#[verifier::ext_equal]
pub ghost struct TxOutView {
    pub value: u64,
    pub script_pubkey: Seq<u8>,
}

impl View for TxOut {
    type V = TxOutView;

    open spec fn view(&self) -> TxOutView {
        TxOutView { value: self.value, script_pubkey: self.script_pubkey@ }
    }
}

impl Clone for TxOut {
    fn clone(&self) -> (res: Self)
        ensures
            res@ == self@,
    {
        let script = self.script_pubkey.clone();
        proof {
            assert(script@ =~= self.script_pubkey@);
        }
        TxOut { value: self.value, script_pubkey: script }
    }
}

/// A transaction as the query layer reads it: its identifier and its outputs.
#[derive(Debug)]
pub struct Transaction {
    pub txid: Txid,
    pub output: Vec<TxOut>,
}

/// Spec-level view of a `Transaction`.
#[verifier::ext_equal]
pub ghost struct TransactionView {
    pub txid: Txid,
    pub output: Seq<TxOutView>,
}

impl View for Transaction {
    type V = TransactionView;

    open spec fn view(&self) -> TransactionView {
        TransactionView { txid: self.txid, output: self.output@.map_values(|o: TxOut| o@) }
    }
}

impl Clone for Transaction {
    fn clone(&self) -> (res: Self)
        ensures
            res@ == self@,
    {
        let mut output: Vec<TxOut> = Vec::new();
        let mut i: usize = 0;
        while i < self.output.len()
            invariant
                i <= self.output.len(),
                output@.len() == i,
                forall|j: int| 0 <= j < i ==> #[trigger] output@[j]@ == self.output@[j]@,
            decreases self.output.len() - i,
        {
            output.push(self.output[i].clone());
            i = i + 1;
        }
        let res = Transaction { txid: self.txid, output };
        proof {
            assert(res@.output =~= self@.output);
        }
        res
    }
}

/// An unspent output record: where it sits, what it is worth, the script that
/// locks it, and whether it is confirmed.
#[derive(Debug)]
pub struct Utxo {
    pub outpoint: OutPoint,
    pub value: u64,
    pub script_pubkey: Vec<u8>,
    pub confirmed: bool,
}

/// Spec-level view of a `Utxo`.
#[verifier::ext_equal]
pub ghost struct UtxoView {
    pub outpoint: OutPoint,
    pub value: u64,
    pub script_pubkey: Seq<u8>,
    pub confirmed: bool,
}

impl View for Utxo {
    type V = UtxoView;

    open spec fn view(&self) -> UtxoView {
        UtxoView {
            outpoint: self.outpoint,
            value: self.value,
            script_pubkey: self.script_pubkey@,
            confirmed: self.confirmed,
        }
    }
}

impl Clone for Utxo {
    fn clone(&self) -> (res: Self)
        ensures
            res@ == self@,
    {
        let script = self.script_pubkey.clone();
        proof {
            assert(script@ =~= self.script_pubkey@);
        }
        Utxo {
            outpoint: self.outpoint,
            value: self.value,
            script_pubkey: script,
            confirmed: self.confirmed,
        }
    }
}

/// Aggregate statistics about a script, as one source reports them.
#[derive(Clone, Copy, PartialEq, Eq, Structural, Debug)]
pub struct ScriptStats {
    pub tx_count: u64,
    pub funded_txo_count: u64,
    pub funded_txo_sum: u64,
    pub spent_txo_count: u64,
    pub spent_txo_sum: u64,
}

/// The statistics reported for a script with no recorded activity.
pub open spec fn default_stats() -> ScriptStats {
    ScriptStats {
        tx_count: 0,
        funded_txo_count: 0,
        funded_txo_sum: 0,
        spent_txo_count: 0,
        spent_txo_sum: 0,
    }
}

impl Default for ScriptStats {
    fn default() -> (r: Self)
        ensures
            r == default_stats(),
    {
        ScriptStats {
            tx_count: 0,
            funded_txo_count: 0,
            funded_txo_sum: 0,
            spent_txo_count: 0,
            spent_txo_sum: 0,
        }
    }
}

/// Describes the input that spent a given output: which transaction, which of
/// its inputs, and whether that spending transaction is confirmed.
#[derive(Clone, Copy, PartialEq, Eq, Structural, Debug)]
pub struct SpendingInput {
    pub txid: Txid,
    pub vin: u32,
    pub confirmed: bool,
}

/// A reference to the confirmed block that contains a transaction.
#[derive(Clone, Copy, PartialEq, Eq, Structural, Debug)]
pub struct BlockId {
    pub height: u32,
    pub hash: u64,
}

/// Whether the confirmed index places a transaction in a block.
#[derive(Clone, Copy, PartialEq, Eq, Structural, Debug)]
pub enum TransactionStatus {
    Confirmed { block: BlockId },
    Unconfirmed,
}

/// The status derived from the confirmed index's answer about a containing
/// block: absence of a block is reported as unconfirmed, whatever any other
/// source may know about the transaction.
pub open spec fn status_of(block: Option<BlockId>) -> TransactionStatus {
    match block {
        Some(b) => TransactionStatus::Confirmed { block: b },
        None => TransactionStatus::Unconfirmed,
    }
}

impl From<Option<BlockId>> for TransactionStatus {
    fn from(block: Option<BlockId>) -> (r: Self)
        ensures
            r == status_of(block),
    {
        match block {
            Some(b) => TransactionStatus::Confirmed { block: b },
            None => TransactionStatus::Unconfirmed,
        }
    }
}

impl vstd::std_specs::convert::FromSpecImpl<Option<BlockId>> for TransactionStatus {
    open spec fn obeys_from_spec() -> bool {
        true
    }

    open spec fn from_spec(block: Option<BlockId>) -> Self {
        status_of(block)
    }
}

/// Option of a transaction, compared by view.
pub open spec fn view_opt_tx(o: Option<Transaction>) -> Option<TransactionView> {
    match o {
        Some(t) => Some(t@),
        None => None,
    }
}

/// Option of raw bytes, compared by view.
pub open spec fn view_opt_bytes(o: Option<Vec<u8>>) -> Option<Seq<u8>> {
    match o {
        Some(b) => Some(b@),
        None => None,
    }
}

/// Option of an output, compared by view.
pub open spec fn view_opt_txo(o: Option<TxOut>) -> Option<TxOutView> {
    match o {
        Some(t) => Some(t@),
        None => None,
    }
}

/// A sequence of unspent-output records, compared by view.
pub open spec fn views_of_utxos(s: Seq<Utxo>) -> Seq<UtxoView> {
    s.map_values(|u: Utxo| u@)
}

} // verus!
