use vstd::prelude::*;

verus! {

/// One input: the output it spends (parent identifier in internal byte
/// order, and output index) and the unlocking data that the identifier of
/// the transaction covers.
#[derive(Debug)]
pub struct TxInput {
    pub prev_txid: [u8; 32],
    pub vout: u32,
    pub script_sig: Vec<u8>,
    pub sequence: u32,
}

/// One output: its value in satoshi and its locking script.
#[derive(Debug)]
pub struct TxOutput {
    pub value: u64,
    pub script_pubkey: Vec<u8>,
}

/// A transaction as the library keeps it: everything that its identifier is
/// computed from. Witness data, which the identifier does not cover, is not
/// kept.
#[derive(Debug)]
pub struct Tx {
    pub version: i32,
    pub inputs: Vec<TxInput>,
    pub outputs: Vec<TxOutput>,
    pub lock_time: u32,
}

pub struct InputView {
    pub prev_txid: Seq<u8>,
    pub vout: u32,
    pub script_sig: Seq<u8>,
    pub sequence: u32,
}

pub struct OutputView {
    pub value: u64,
    pub script_pubkey: Seq<u8>,
}

pub struct TxView {
    pub version: i32,
    pub inputs: Seq<InputView>,
    pub outputs: Seq<OutputView>,
    pub lock_time: u32,
}

impl View for TxInput {
    type V = InputView;

    open spec fn view(&self) -> InputView {
        InputView {
            prev_txid: self.prev_txid@,
            vout: self.vout,
            script_sig: self.script_sig@,
            sequence: self.sequence,
        }
    }
}

impl View for TxOutput {
    type V = OutputView;

    open spec fn view(&self) -> OutputView {
        OutputView { value: self.value, script_pubkey: self.script_pubkey@ }
    }
}

impl View for Tx {
    type V = TxView;

    open spec fn view(&self) -> TxView {
        TxView {
            version: self.version,
            inputs: self.inputs@.map_values(|i: TxInput| i@),
            outputs: self.outputs@.map_values(|o: TxOutput| o@),
            lock_time: self.lock_time,
        }
    }
}

/// The provider's reply to a raw-transaction request.
#[derive(Debug)]
pub struct Reply {
    pub status: u16,
    pub body: Vec<u8>,
}

pub struct ReplyView {
    pub status: u16,
    pub body: Seq<u8>,
}

impl View for Reply {
    type V = ReplyView;

    open spec fn view(&self) -> ReplyView {
        ReplyView { status: self.status, body: self.body@ }
    }
}

/// Why fetching a transaction or resolving its inputs failed.
#[derive(Debug, Clone, Copy, PartialEq, Eq, Structural)]
pub enum TxError {
    /// The retrieval channel failed or answered with a non-success status.
    Transport,
    /// The bytes are not a consensus-serialized transaction.
    Decode,
    /// The decoded transaction has another identifier than the one asked for.
    Integrity,
    /// An input spends an output index that its parent does not have.
    MissingOutput,
    /// The spent output's script matches no address template.
    UnrecognizedScript,
}

} // verus!
