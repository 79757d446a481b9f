use std::sync::Arc;

use query_facade::chain::ChainQuery;
use query_facade::mempool::{Mempool, TxoResolveError};
use query_facade::query::{mempool_lock, Query};
use query_facade::records::Records;
use query_facade::types::{
    BlockId, OutPoint, ScriptStats, SpendingInput, Transaction, TransactionStatus, TxOut, Txid,
    Utxo,
};

const OP_RETURN: u8 = 0x6a;
const OP_PUSHNUM_1: u8 = 0x51;

fn empty_records() -> Records {
    Records {
        utxos_by_script: vec![],
        stats_by_script: vec![],
        txns: vec![],
        raw_txns: vec![],
        spends: vec![],
    }
}

fn empty_chain() -> ChainQuery {
    ChainQuery { records: empty_records(), blocks: vec![] }
}

fn empty_mempool() -> Mempool {
    Mempool { records: empty_records(), txos: vec![] }
}

fn facade(chain: ChainQuery, mempool: Mempool) -> Query {
    Query::new(Arc::new(chain), mempool_lock(mempool))
}

fn txid(n: u64) -> Txid {
    Txid { id: n }
}

fn outpoint(n: u64, vout: u32) -> OutPoint {
    OutPoint { txid: txid(n), vout }
}

#[test]
fn lookup_spend_prefers_confirmed() {
    let o = outpoint(1, 0);
    let confirmed = SpendingInput { txid: txid(10), vin: 0, confirmed: true };
    let disagreeing = SpendingInput { txid: txid(99), vin: 1, confirmed: false };
    let mut chain = empty_chain();
    chain.records.spends.push((o, confirmed));
    let mut mempool = empty_mempool();
    mempool.records.spends.push((o, disagreeing));
    let q = facade(chain, mempool);
    assert_eq!(q.lookup_spend(&o), Some(confirmed));
}

#[test]
fn lookup_spend_falls_back_to_mempool() {
    let o = outpoint(1, 0);
    let unconfirmed = SpendingInput { txid: txid(7), vin: 2, confirmed: false };
    let mut mempool = empty_mempool();
    mempool.records.spends.push((o, unconfirmed));
    let q = facade(empty_chain(), mempool);
    assert_eq!(q.lookup_spend(&o), Some(unconfirmed));
}

#[test]
fn lookup_spend_absent_everywhere() {
    let q = facade(empty_chain(), empty_mempool());
    assert_eq!(q.lookup_spend(&outpoint(1, 0)), None);
}

#[test]
fn lookup_txn_prefers_confirmed() {
    let t = txid(5);
    let confirmed_tx = Transaction {
        txid: t,
        output: vec![TxOut { value: 5000, script_pubkey: vec![OP_PUSHNUM_1] }],
    };
    let mempool_tx = Transaction { txid: t, output: vec![] };
    let mut chain = empty_chain();
    chain.records.txns.push((t, confirmed_tx));
    let mut mempool = empty_mempool();
    mempool.records.txns.push((t, mempool_tx));
    let q = facade(chain, mempool);
    let got = q.lookup_txn(&t).expect("confirmed record");
    assert_eq!(got.txid, t);
    assert_eq!(got.output.len(), 1);
    assert_eq!(got.output[0].value, 5000);
    assert_eq!(got.output[0].script_pubkey, vec![OP_PUSHNUM_1]);
}

#[test]
fn lookup_txn_falls_back_to_mempool() {
    let t = txid(5);
    let mempool_tx = Transaction {
        txid: t,
        output: vec![TxOut { value: 1234, script_pubkey: vec![OP_PUSHNUM_1] }],
    };
    let mut mempool = empty_mempool();
    mempool.records.txns.push((t, mempool_tx));
    let q = facade(empty_chain(), mempool);
    let got = q.lookup_txn(&t).expect("mempool record");
    assert_eq!(got.output[0].value, 1234);
    assert!(q.lookup_txn(&txid(6)).is_none());
}

#[test]
fn lookup_raw_txn_prefers_confirmed() {
    let t = txid(5);
    let mut chain = empty_chain();
    chain.records.raw_txns.push((t, vec![1, 2, 3]));
    let mut mempool = empty_mempool();
    mempool.records.raw_txns.push((t, vec![9, 9, 9]));
    let q = facade(chain, mempool);
    assert_eq!(q.lookup_raw_txn(&t), Some(vec![1, 2, 3]));
}

#[test]
fn lookup_raw_txn_falls_back_to_mempool() {
    let t = txid(5);
    let mut mempool = empty_mempool();
    mempool.records.raw_txns.push((t, vec![9, 9, 9]));
    let q = facade(empty_chain(), mempool);
    assert_eq!(q.lookup_raw_txn(&t), Some(vec![9, 9, 9]));
    assert_eq!(q.lookup_raw_txn(&txid(6)), None);
}

#[test]
fn utxo_concatenates_confirmed_first() {
    let script_id = vec![1, 2, 3];
    let confirmed_utxo = Utxo {
        outpoint: outpoint(1, 0),
        value: 100,
        script_pubkey: vec![OP_PUSHNUM_1],
        confirmed: true,
    };
    let mempool_utxo = Utxo {
        outpoint: outpoint(2, 1),
        value: 200,
        script_pubkey: vec![OP_PUSHNUM_1],
        confirmed: false,
    };
    let mut chain = empty_chain();
    chain.records.utxos_by_script.push((script_id.clone(), vec![confirmed_utxo]));
    let mut mempool = empty_mempool();
    mempool.records.utxos_by_script.push((script_id.clone(), vec![mempool_utxo]));
    let q = facade(chain, mempool);
    let got = q.utxo(&script_id);
    assert_eq!(got.len(), 2);
    assert_eq!(got[0].outpoint, outpoint(1, 0));
    assert!(got[0].confirmed);
    assert_eq!(got[1].outpoint, outpoint(2, 1));
    assert!(!got[1].confirmed);
}

#[test]
fn utxo_zero_activity_is_empty() {
    let q = facade(empty_chain(), empty_mempool());
    let got = q.utxo(&[4, 5, 6]);
    assert!(got.is_empty());
}

#[test]
fn stats_returns_both_sides() {
    let script_id = vec![1, 2, 3];
    let confirmed_stats = ScriptStats {
        tx_count: 3,
        funded_txo_count: 4,
        funded_txo_sum: 5000,
        spent_txo_count: 1,
        spent_txo_sum: 700,
    };
    let mut chain = empty_chain();
    chain.records.stats_by_script.push((script_id.clone(), confirmed_stats));
    let q = facade(chain, empty_mempool());
    let (c, m) = q.stats(&script_id);
    assert_eq!(c, confirmed_stats);
    assert_eq!(m, ScriptStats::default());
}

#[test]
fn stats_defaults_when_both_sides_idle() {
    let q = facade(empty_chain(), empty_mempool());
    let (c, m) = q.stats(&[7, 7, 7]);
    assert_eq!(c, ScriptStats::default());
    assert_eq!(m, ScriptStats::default());
}

#[test]
fn tx_status_confirmed_in_block() {
    let t = txid(5);
    let block = BlockId { height: 100, hash: 42 };
    let mut chain = empty_chain();
    chain.blocks.push((t, block));
    let q = facade(chain, empty_mempool());
    assert_eq!(q.get_tx_status(&t), TransactionStatus::Confirmed { block });
}

#[test]
fn tx_status_unconfirmed_despite_mempool() {
    let t = txid(5);
    let mut mempool = empty_mempool();
    mempool.records.txns.push((t, Transaction { txid: t, output: vec![] }));
    let q = facade(empty_chain(), mempool);
    assert_eq!(q.get_tx_status(&t), TransactionStatus::Unconfirmed);
}

#[test]
fn lookup_txos_resolves_batch_in_order() {
    let a = outpoint(1, 0);
    let b = outpoint(2, 3);
    let mut mempool = empty_mempool();
    mempool.txos.push((a, TxOut { value: 10, script_pubkey: vec![OP_PUSHNUM_1] }));
    mempool.txos.push((b, TxOut { value: 20, script_pubkey: vec![OP_PUSHNUM_1] }));
    let q = facade(empty_chain(), mempool);
    let got = q.lookup_txos(&vec![b, a]).expect("all outpoints resolvable");
    assert_eq!(got.len(), 2);
    assert_eq!(got[0].0, b);
    assert_eq!(got[0].1.value, 20);
    assert_eq!(got[1].0, a);
    assert_eq!(got[1].1.value, 10);
}

#[test]
fn lookup_txos_missing_outpoint_is_error() {
    let a = outpoint(1, 0);
    let missing = outpoint(8, 8);
    let mut mempool = empty_mempool();
    mempool.txos.push((a, TxOut { value: 10, script_pubkey: vec![OP_PUSHNUM_1] }));
    let q = facade(empty_chain(), mempool);
    let got = q.lookup_txos(&vec![a, missing, a]);
    assert_eq!(got.unwrap_err(), TxoResolveError { missing });
}

#[test]
fn tx_spends_three_output_scenario() {
    // Transaction with three outputs: output 0 provably unspendable, output 1
    // spent by a confirmed transaction, output 2 unspent.
    let t = txid(5);
    let tx = Transaction {
        txid: t,
        output: vec![
            TxOut { value: 0, script_pubkey: vec![OP_RETURN] },
            TxOut { value: 100, script_pubkey: vec![OP_PUSHNUM_1] },
            TxOut { value: 200, script_pubkey: vec![OP_PUSHNUM_1] },
        ],
    };
    let spend = SpendingInput { txid: txid(10), vin: 0, confirmed: true };
    let mut chain = empty_chain();
    chain.records.spends.push((OutPoint { txid: t, vout: 1 }, spend));
    let q = facade(chain, empty_mempool());
    let got = q.lookup_tx_spends(tx);
    assert_eq!(got, vec![None, Some(spend), None]);
}

#[test]
fn tx_spends_unspendable_output_never_looked_up() {
    // Even a recorded spend for the outpoint is not reported when the
    // output's script is provably unspendable: the lookup is skipped.
    let t = txid(5);
    let tx = Transaction {
        txid: t,
        output: vec![TxOut { value: 0, script_pubkey: vec![OP_RETURN] }],
    };
    let stray = SpendingInput { txid: txid(10), vin: 0, confirmed: true };
    let mut chain = empty_chain();
    chain.records.spends.push((OutPoint { txid: t, vout: 0 }, stray));
    let q = facade(chain, empty_mempool());
    assert_eq!(q.lookup_tx_spends(tx), vec![None]);
}

#[test]
fn tx_spends_sees_mempool_spend() {
    let t = txid(5);
    let tx = Transaction {
        txid: t,
        output: vec![TxOut { value: 100, script_pubkey: vec![OP_PUSHNUM_1] }],
    };
    let spend = SpendingInput { txid: txid(11), vin: 3, confirmed: false };
    let mut mempool = empty_mempool();
    mempool.records.spends.push((OutPoint { txid: t, vout: 0 }, spend));
    let q = facade(empty_chain(), mempool);
    assert_eq!(q.lookup_tx_spends(tx), vec![Some(spend)]);
}

#[test]
fn tx_spends_empty_transaction() {
    let tx = Transaction { txid: txid(5), output: vec![] };
    let q = facade(empty_chain(), empty_mempool());
    assert_eq!(q.lookup_tx_spends(tx), Vec::<Option<SpendingInput>>::new());
}

#[test]
fn tx_spends_many_outputs_keep_index_order() {
    // Many outputs resolved concurrently: the result still answers output i
    // at index i, whatever order the parallel lookups completed in.
    let t = txid(5);
    let n: u32 = 40;
    let mut output = Vec::new();
    for _ in 0..n {
        output.push(TxOut { value: 1, script_pubkey: vec![OP_PUSHNUM_1] });
    }
    let tx = Transaction { txid: t, output };
    let mut chain = empty_chain();
    for vout in (0..n).step_by(2) {
        let spend = SpendingInput { txid: txid(1000 + vout as u64), vin: vout, confirmed: true };
        chain.records.spends.push((OutPoint { txid: t, vout }, spend));
    }
    let q = facade(chain, empty_mempool());
    let got = q.lookup_tx_spends(tx);
    assert_eq!(got.len(), n as usize);
    for vout in 0..n {
        if vout % 2 == 0 {
            let spend = got[vout as usize].expect("even outputs are spent");
            assert_eq!(spend.txid, txid(1000 + vout as u64));
            assert_eq!(spend.vin, vout);
        } else {
            assert!(got[vout as usize].is_none());
        }
    }
}
