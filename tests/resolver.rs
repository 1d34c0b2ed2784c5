use bitcoin::consensus::encode::serialize;
use bitcoin::{absolute, transaction, Amount, Network, OutPoint, ScriptBuf, Sequence, TxIn, TxOut, Witness};
use bitcoin_inputs_collector::fetch::{check_transaction, fetch_transaction};
use bitcoin_inputs_collector::hex::txid_hex;
use bitcoin_inputs_collector::model::{Reply, Tx, TxError};
use bitcoin_inputs_collector::request::{raw_tx_url, MAX_RESPONSE_BYTES, REQUEST_CYCLES};
use bitcoin_inputs_collector::resolve::{derive_addresses, fetch_parents, parent_ids, resolve_inputs, spent_output_address};

const GENESIS_COINBASE_ID: &str = "4a5e1e4baab89f3a32518a88c31bc87f618f76673e2cc77ab2127b7afdeda33b";

fn genesis_coinbase() -> bitcoin::Transaction {
    bitcoin::blockdata::constants::genesis_block(Network::Bitcoin).txdata[0].clone()
}

fn p2pkh(fill: u8) -> ScriptBuf {
    ScriptBuf::new_p2pkh(&bitcoin::hashes::Hash::from_byte_array([fill; 20]))
}

fn mainnet_address(script: &ScriptBuf) -> String {
    bitcoin::Address::from_script(script, Network::Bitcoin).unwrap().to_string()
}

/// A transaction that spends `spends` and pays `value` to each of `scripts`.
fn build(spends: &[(bitcoin::Txid, u32)], scripts: &[ScriptBuf], lock_time: u32) -> bitcoin::Transaction {
    bitcoin::Transaction {
        version: transaction::Version(2),
        lock_time: absolute::LockTime::from_consensus(lock_time),
        input: spends
            .iter()
            .map(|(txid, vout)| TxIn {
                previous_output: OutPoint { txid: *txid, vout: *vout },
                script_sig: ScriptBuf::from_bytes(vec![0x51]),
                sequence: Sequence(0xffff_fffe),
                witness: Witness::new(),
            })
            .collect(),
        output: scripts
            .iter()
            .map(|s| TxOut { value: Amount::from_sat(10_000), script_pubkey: s.clone() })
            .collect(),
    }
}

fn id_of(tx: &bitcoin::Transaction) -> String {
    tx.compute_txid().to_string()
}

fn ok(tx: &bitcoin::Transaction) -> Option<Reply> {
    Some(Reply { status: 200, body: serialize(tx) })
}

fn accept(tx: &bitcoin::Transaction) -> Tx {
    check_transaction(&id_of(tx), &serialize(tx)).unwrap()
}

#[test]
fn genuine_bytes_are_accepted_under_their_id() {
    let bytes = serialize(&genesis_coinbase());
    let tx = check_transaction(&GENESIS_COINBASE_ID.to_string(), &bytes).unwrap();
    assert_eq!(tx.version, 1);
    assert_eq!(tx.inputs.len(), 1);
    assert_eq!(tx.inputs[0].prev_txid, [0u8; 32]);
    assert_eq!(tx.inputs[0].vout, 0xffff_ffff);
    assert_eq!(tx.outputs.len(), 1);
    assert_eq!(tx.outputs[0].value, 5_000_000_000);
    assert_eq!(tx.lock_time, 0);
}

#[test]
fn bytes_of_another_transaction_are_an_integrity_error() {
    let other = build(&[(genesis_coinbase().compute_txid(), 0)], &[p2pkh(1)], 0);
    let r = check_transaction(&GENESIS_COINBASE_ID.to_string(), &serialize(&other));
    assert_eq!(r.unwrap_err(), TxError::Integrity);
}

#[test]
fn tampered_bytes_are_an_integrity_error() {
    let mut bytes = serialize(&genesis_coinbase());
    let last = bytes.len() - 1;
    bytes[last] = 1; // lock time changed
    let r = check_transaction(&GENESIS_COINBASE_ID.to_string(), &bytes);
    assert_eq!(r.unwrap_err(), TxError::Integrity);
}

#[test]
fn id_in_upper_case_is_an_integrity_error() {
    let bytes = serialize(&genesis_coinbase());
    let r = check_transaction(&GENESIS_COINBASE_ID.to_uppercase(), &bytes);
    assert_eq!(r.unwrap_err(), TxError::Integrity);
}

#[test]
fn truncated_bytes_are_a_decode_error() {
    let bytes = serialize(&genesis_coinbase());
    for cut in [0usize, 1, 4, 5, 40, bytes.len() - 1] {
        let r = check_transaction(&GENESIS_COINBASE_ID.to_string(), &bytes[..cut].to_vec());
        assert_eq!(r.unwrap_err(), TxError::Decode, "cut at {}", cut);
    }
}

#[test]
fn garbage_is_a_decode_error() {
    let r = check_transaction(&GENESIS_COINBASE_ID.to_string(), &vec![0xff; 12]);
    assert_eq!(r.unwrap_err(), TxError::Decode);
}

#[test]
fn failed_retrieval_is_a_transport_error() {
    let r = fetch_transaction(&GENESIS_COINBASE_ID.to_string(), &None);
    assert_eq!(r.unwrap_err(), TxError::Transport);
    let ok = fetch_transaction(&GENESIS_COINBASE_ID.to_string(), &ok(&genesis_coinbase()));
    assert!(ok.is_ok());
}

#[test]
fn encode_hash_decode_round_trip() {
    let parent = genesis_coinbase();
    let tx = build(&[(parent.compute_txid(), 0), (parent.compute_txid(), 3)], &[p2pkh(7), p2pkh(8)], 812_345);
    let id = id_of(&tx);
    let decoded = check_transaction(&id, &serialize(&tx)).unwrap();
    assert_eq!(txid_hex(&bitcoin::hashes::Hash::to_byte_array(tx.compute_txid())), id);
    assert_eq!(decoded.inputs.len(), 2);
    assert_eq!(decoded.inputs[1].vout, 3);
    assert_eq!(decoded.inputs[1].script_sig, vec![0x51]);
    assert_eq!(decoded.inputs[1].sequence, 0xffff_fffe);
    assert_eq!(decoded.outputs[1].script_pubkey, p2pkh(8).to_bytes());
    assert_eq!(decoded.lock_time, 812_345);
    assert_eq!(decoded.version, 2);
}

#[test]
fn witness_data_does_not_change_the_id() {
    let mut tx = build(&[(genesis_coinbase().compute_txid(), 0)], &[p2pkh(2)], 0);
    tx.input[0].witness = Witness::from_slice(&[vec![1u8, 2, 3]]);
    let decoded = check_transaction(&id_of(&tx), &serialize(&tx)).unwrap();
    assert_eq!(decoded.inputs.len(), 1);
}

#[test]
fn parent_ids_follow_input_order() {
    let a = build(&[], &[p2pkh(1)], 1);
    let b = build(&[], &[p2pkh(2)], 2);
    let child = accept(&build(&[(b.compute_txid(), 0), (a.compute_txid(), 0)], &[p2pkh(3)], 0));
    assert_eq!(parent_ids(&child), vec![id_of(&b), id_of(&a)]);
}

#[test]
fn txid_text_is_reversed_hex() {
    let mut id = [0u8; 32];
    for (i, b) in id.iter_mut().enumerate() {
        *b = i as u8;
    }
    id[0] = 0xab;
    assert_eq!(
        txid_hex(&id),
        "1f1e1d1c1b1a191817161514131211100f0e0d0c0b0a090807060504030201ab"
    );
}

#[test]
fn no_inputs_resolve_to_no_addresses() {
    let tx = Tx { version: 2, inputs: vec![], outputs: vec![], lock_time: 0 };
    assert_eq!(resolve_inputs(&tx, &vec![]), Ok(vec![]));
}

#[test]
fn two_parents_resolve_to_their_addresses_in_input_order() {
    let a = build(&[], &[p2pkh(9), p2pkh(0)], 11);
    let b = build(&[], &[p2pkh(5)], 12);
    let child = accept(&build(&[(a.compute_txid(), 1), (b.compute_txid(), 0)], &[p2pkh(3)], 0));
    let r = resolve_inputs(&child, &vec![ok(&a), ok(&b)]).unwrap();
    assert_eq!(r.len(), 2);
    assert_eq!(r[0], "1111111111111111111114oLvT2");
    assert_eq!(r[1], mainnet_address(&p2pkh(5)));
    assert!(r[1].starts_with('1') && !r[1].is_empty());
}

#[test]
fn all_recognized_templates_resolve() {
    let wpkh = ScriptBuf::new_p2wpkh(&bitcoin::hashes::Hash::from_byte_array([4; 20]));
    let wsh = ScriptBuf::new_p2wsh(&bitcoin::hashes::Hash::from_byte_array([6; 32]));
    let sh = ScriptBuf::new_p2sh(&bitcoin::hashes::Hash::from_byte_array([8; 20]));
    let mut tr = vec![0x51, 0x20];
    tr.extend_from_slice(&[9u8; 32]);
    let tr = ScriptBuf::from_bytes(tr);
    let parent = build(&[], &[wpkh.clone(), wsh.clone(), sh.clone(), tr.clone()], 0);
    let pid = parent.compute_txid();
    let child = accept(&build(&[(pid, 0), (pid, 1), (pid, 2), (pid, 3)], &[p2pkh(3)], 0));
    let r = resolve_inputs(&child, &vec![ok(&parent), ok(&parent), ok(&parent), ok(&parent)]).unwrap();
    let expected: Vec<String> = [wpkh, wsh, sh, tr].iter().map(mainnet_address).collect();
    assert_eq!(r, expected);
    assert!(r[0].starts_with("bc1q") && r[3].starts_with("bc1p") && r[2].starts_with('3'));
}

#[test]
fn one_failed_parent_fails_the_whole_resolution() {
    let a = build(&[], &[p2pkh(1)], 1);
    let b = build(&[], &[p2pkh(2)], 2);
    let child = accept(&build(&[(a.compute_txid(), 0), (b.compute_txid(), 0)], &[p2pkh(3)], 0));
    let r = resolve_inputs(&child, &vec![ok(&a), None]);
    assert_eq!(r, Err(TxError::Transport));
    let r = resolve_inputs(&child, &vec![ok(&a), ok(&a)]);
    assert_eq!(r, Err(TxError::Integrity));
    let r = resolve_inputs(&child, &vec![Some(Reply { status: 200, body: vec![1, 2, 3] }), ok(&b)]);
    assert_eq!(r, Err(TxError::Decode));
}

#[test]
fn output_index_past_the_end_is_missing_output() {
    let a = build(&[], &[p2pkh(1)], 1);
    let child = accept(&build(&[(a.compute_txid(), 1)], &[p2pkh(3)], 0));
    let r = resolve_inputs(&child, &vec![ok(&a)]);
    assert_eq!(r, Err(TxError::MissingOutput));
}

#[test]
fn custom_script_fails_the_resolution() {
    let a = build(&[], &[ScriptBuf::from_bytes(vec![0x51])], 1);
    let child = accept(&build(&[(a.compute_txid(), 0)], &[p2pkh(3)], 0));
    let r = resolve_inputs(&child, &vec![ok(&a)]);
    assert_eq!(r, Err(TxError::UnrecognizedScript));
}

#[test]
fn pay_to_public_key_has_no_address() {
    let coinbase = genesis_coinbase();
    let child = accept(&build(&[(coinbase.compute_txid(), 0)], &[p2pkh(3)], 0));
    let r = resolve_inputs(&child, &vec![ok(&coinbase)]);
    assert_eq!(r, Err(TxError::UnrecognizedScript));
}

#[test]
fn version_zero_program_of_odd_length_has_no_address() {
    let mut script = vec![0x00, 25];
    script.extend_from_slice(&[3u8; 25]);
    let parent = accept(&build(&[], &[ScriptBuf::from_bytes(script)], 0));
    assert_eq!(spent_output_address(&parent, 0), Err(TxError::UnrecognizedScript));
}

#[test]
fn spent_output_address_derives_from_the_script() {
    let parent = accept(&build(&[], &[p2pkh(0)], 0));
    assert_eq!(spent_output_address(&parent, 0), Ok("1111111111111111111114oLvT2".to_string()));
    assert_eq!(spent_output_address(&parent, 1), Err(TxError::MissingOutput));
}

#[test]
fn request_parameters() {
    assert_eq!(raw_tx_url(&"abc".to_string()), "https://btcscan.org/api/tx/abc/raw");
    assert_eq!(MAX_RESPONSE_BYTES, 409_600);
    assert_eq!(REQUEST_CYCLES, 4_314_304_800);
}

#[test]
fn non_success_status_is_a_transport_error() {
    let body = serialize(&genesis_coinbase());
    for status in [199u16, 300, 404, 500] {
        let r = fetch_transaction(&GENESIS_COINBASE_ID.to_string(), &Some(Reply { status, body: body.clone() }));
        assert_eq!(r.unwrap_err(), TxError::Transport);
    }
    let r = fetch_transaction(&GENESIS_COINBASE_ID.to_string(), &Some(Reply { status: 299, body }));
    assert!(r.is_ok());
}

#[test]
fn trailing_bytes_are_a_decode_error() {
    let mut bytes = serialize(&genesis_coinbase());
    bytes.push(0);
    let r = check_transaction(&GENESIS_COINBASE_ID.to_string(), &bytes);
    assert_eq!(r.unwrap_err(), TxError::Decode);
}

#[test]
fn failed_fetch_wins_over_an_earlier_unrecognized_script() {
    let a = build(&[], &[ScriptBuf::from_bytes(vec![0x51])], 1);
    let b = build(&[], &[p2pkh(2)], 2);
    let child = accept(&build(&[(a.compute_txid(), 0), (b.compute_txid(), 0)], &[p2pkh(3)], 0));
    let r = resolve_inputs(&child, &vec![ok(&a), None]);
    assert_eq!(r, Err(TxError::Transport));
    let r = resolve_inputs(&child, &vec![ok(&a), Some(Reply { status: 200, body: vec![9] })]);
    assert_eq!(r, Err(TxError::Decode));
    let r = resolve_inputs(&child, &vec![ok(&a), ok(&b)]);
    assert_eq!(r, Err(TxError::UnrecognizedScript));
}

#[test]
fn parents_are_fetched_then_addresses_derived() {
    let a = build(&[], &[p2pkh(0)], 1);
    let b = build(&[], &[p2pkh(5)], 2);
    let child = accept(&build(&[(a.compute_txid(), 0), (b.compute_txid(), 0)], &[p2pkh(3)], 0));
    let parents = fetch_parents(&child, &vec![ok(&a), ok(&b)]).unwrap();
    assert_eq!(parents.len(), 2);
    assert_eq!(parents[1].lock_time, 2);
    let r = derive_addresses(&child, &parents).unwrap();
    assert_eq!(r, vec!["1111111111111111111114oLvT2".to_string(), mainnet_address(&p2pkh(5))]);
    assert_eq!(fetch_parents(&child, &vec![ok(&b), ok(&a)]).unwrap_err(), TxError::Integrity);
}
