//! The calls into the `bitcoin` crate: consensus decoding, the transaction
//! identifier, and address derivation from a locking script.
use vstd::prelude::*;
use crate::model::{Tx, TxInput, TxOutput, TxView};

verus! {

#[verifier::external_type_specification]
#[verifier::external_body]
pub struct ExDecodeError(bitcoin::consensus::encode::Error);

#[verifier::external_type_specification]
#[verifier::external_body]
pub struct ExFromScriptError(bitcoin::address::FromScriptError);

/// The transaction whose consensus serialization is exactly `b`, as the
/// library's model keeps it; `None` where `b` is not one (malformed, cut
/// short, or followed by extra bytes).
pub uninterp spec fn decoded(b: Seq<u8>) -> Option<TxView>;

/// The identifier (double SHA-256 of the legacy serialization) of a
/// transaction, in internal byte order.
pub uninterp spec fn txid_of(t: TxView) -> Seq<u8>;

/// The mainnet address string that a recognized locking script encodes.
pub uninterp spec fn address_of(script: Seq<u8>) -> Seq<char>;

/// Pay-to-public-key-hash: `OP_DUP OP_HASH160 <20 bytes> OP_EQUALVERIFY OP_CHECKSIG`.
pub open spec fn is_p2pkh(s: Seq<u8>) -> bool {
    s.len() == 25 && s[0] == 0x76u8 && s[1] == 0xa9u8 && s[2] == 0x14u8 && s[23] == 0x88u8
        && s[24] == 0xacu8
}

/// Pay-to-script-hash: `OP_HASH160 <20 bytes> OP_EQUAL`.
pub open spec fn is_p2sh(s: Seq<u8>) -> bool {
    s.len() == 23 && s[0] == 0xa9u8 && s[1] == 0x14u8 && s[22] == 0x87u8
}

/// A witness program: a version opcode (`OP_0` or `OP_1`..`OP_16`) and one
/// push of 2 to 40 bytes that fills the rest of the script.
pub open spec fn is_witness_program(s: Seq<u8>) -> bool {
    4 <= s.len() <= 42 && (s[0] == 0u8 || (0x51u8 <= s[0] && s[0] <= 0x60u8)) && 2u8 <= s[1]
        && s[1] <= 40u8 && s.len() - 2 == s[1] as int
}

/// The scripts that have a mainnet address: P2PKH, P2SH, and witness
/// programs, where a version 0 program is 20 or 32 bytes long.
pub open spec fn has_address(s: Seq<u8>) -> bool {
    is_p2pkh(s) || is_p2sh(s) || (is_witness_program(s) && (s[0] != 0u8 || s[1] == 20u8
        || s[1] == 32u8))
}

/// Relies on bitcoin's `consensus::deserialize` for a transaction, which
/// fails or yields one transaction for given bytes, and fails where bytes are
/// left over. It reads the bytes as a stream, so where it consumes all of `b`,
/// a strict prefix of `b` runs out of bytes and fails. The fields the model
/// keeps are copied one for one.
#[verifier::external_body]
pub(crate) fn decode_transaction(b: &Vec<u8>) -> (r: Result<Tx, bitcoin::consensus::encode::Error>)
    ensures
        r is Ok <==> decoded(b@) is Some,
        r is Ok ==> decoded(b@) == Some(r->Ok_0@),
        r is Ok ==> forall|k: int| 0 <= k < b@.len() ==> (#[trigger] decoded(b@.subrange(0, k))) is None,
{
    let t: bitcoin::Transaction = bitcoin::consensus::deserialize(b.as_slice())?;
    Ok(Tx {
        version: t.version.0,
        inputs: t.input.iter().map(|i| TxInput { prev_txid: bitcoin::hashes::Hash::to_byte_array(i.previous_output.txid),
            vout: i.previous_output.vout, script_sig: i.script_sig.to_bytes(), sequence: i.sequence.0 }).collect(),
        outputs: t.output.iter().map(|o| TxOutput { value: o.value.to_sat(),
            script_pubkey: o.script_pubkey.to_bytes() }).collect(),
        lock_time: t.lock_time.to_consensus_u32(),
    })
}

/// Relies on bitcoin's `Transaction::compute_txid`, which hashes the version,
/// inputs, outputs and lock time; witness data does not enter it.
#[verifier::external_body]
pub(crate) fn compute_txid(tx: &Tx) -> (r: [u8; 32])
    ensures
        r@ == txid_of(tx@),
{
    let t = bitcoin::Transaction { version: bitcoin::transaction::Version(tx.version),
        lock_time: bitcoin::absolute::LockTime::from_consensus(tx.lock_time),
        input: tx.inputs.iter().map(|i| bitcoin::TxIn { previous_output: bitcoin::OutPoint {
            txid: bitcoin::hashes::Hash::from_byte_array(i.prev_txid), vout: i.vout },
            script_sig: bitcoin::ScriptBuf::from_bytes(i.script_sig.clone()),
            sequence: bitcoin::Sequence(i.sequence), witness: bitcoin::Witness::new() }).collect(),
        output: tx.outputs.iter().map(|o| bitcoin::TxOut { value: bitcoin::Amount::from_sat(o.value),
            script_pubkey: bitcoin::ScriptBuf::from_bytes(o.script_pubkey.clone()) }).collect(),
    };
    bitcoin::hashes::Hash::to_byte_array(t.compute_txid())
}

/// Relies on bitcoin's `Address::from_script` for mainnet, which succeeds
/// exactly on the templates of `has_address`, and on the address's string
/// form (base58 or bech32 text, never empty).
#[verifier::external_body]
pub(crate) fn script_address(script: &Vec<u8>) -> (r: Result<String, bitcoin::address::FromScriptError>)
    ensures
        r is Ok <==> has_address(script@),
        r is Ok ==> r->Ok_0@ == address_of(script@),
        r is Ok ==> r->Ok_0@.len() > 0,
{
    let s = bitcoin::Script::from_bytes(script.as_slice());
    bitcoin::Address::from_script(s, bitcoin::params::Params::MAINNET).map(|a| a.to_string())
}

} // verus!
