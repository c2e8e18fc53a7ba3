//! What the library takes from the `bitcoin` and `hex` crates: the parsing of
//! transaction ids and addresses, the wire encoding of a transaction, and hex.
//!
//! The functions of this module are the only ones that call those crates.
//! Their contracts are not proved: each says what the crate's function
//! returns, by a definition where a few lines can give it, and by a name for
//! the result where they cannot.

use bitcoin::hex::DisplayHex;
use std::str::FromStr;
use vstd::prelude::*;
use vstd::string::StringSliceAdditionalSpecFns;

verus! {

/// An input of a transaction: the output it spends, the script that unlocks
/// it, and its sequence number.
#[derive(Debug, PartialEq, Eq)]
pub struct TxInput {
    /// The id of the transaction that holds the spent output, in the byte
    /// order of the wire.
    pub txid: [u8; 32],
    pub vout: u32,
    pub script_sig: Vec<u8>,
    pub sequence: u32,
}

/// A `TxInput` with its bytes as sequences.
pub struct TxInputView {
    pub txid: Seq<u8>,
    pub vout: u32,
    pub script_sig: Seq<u8>,
    pub sequence: u32,
}

impl View for TxInput {
    type V = TxInputView;

    open spec fn view(&self) -> TxInputView {
        TxInputView {
            txid: self.txid@,
            vout: self.vout,
            script_sig: self.script_sig@,
            sequence: self.sequence,
        }
    }
}

impl DeepView for TxInput {
    type V = TxInputView;

    open spec fn deep_view(&self) -> TxInputView {
        self@
    }
}

/// An output of a transaction: a value, and the script that locks it.
#[derive(Debug, PartialEq, Eq)]
pub struct TxOutput {
    pub value: u64,
    pub script_pubkey: Vec<u8>,
}

/// A `TxOutput` with its bytes as a sequence.
pub struct TxOutputView {
    pub value: u64,
    pub script_pubkey: Seq<u8>,
}

impl View for TxOutput {
    type V = TxOutputView;

    open spec fn view(&self) -> TxOutputView {
        TxOutputView { value: self.value, script_pubkey: self.script_pubkey@ }
    }
}

impl DeepView for TxOutput {
    type V = TxOutputView;

    open spec fn deep_view(&self) -> TxOutputView {
        self@
    }
}

/// A transaction as the library builds it: without witness data.
#[derive(Debug, PartialEq, Eq)]
pub struct SettlementTx {
    pub version: i32,
    pub lock_time: u32,
    pub inputs: Vec<TxInput>,
    pub outputs: Vec<TxOutput>,
}

/// A `SettlementTx` with its inputs and outputs as sequences of views.
pub struct SettlementTxView {
    pub version: i32,
    pub lock_time: u32,
    pub inputs: Seq<TxInputView>,
    pub outputs: Seq<TxOutputView>,
}

impl View for SettlementTx {
    type V = SettlementTxView;

    open spec fn view(&self) -> SettlementTxView {
        SettlementTxView {
            version: self.version,
            lock_time: self.lock_time,
            inputs: self.inputs.deep_view(),
            outputs: self.outputs.deep_view(),
        }
    }
}

/// The value of a hex digit, in either case.
pub open spec fn hex_digit_value(b: u8) -> Option<u8> {
    if 0x30 <= b <= 0x39 {
        Some((b - 0x30) as u8)
    } else if 0x61 <= b <= 0x66 {
        Some((b - 0x61 + 10) as u8)
    } else if 0x41 <= b <= 0x46 {
        Some((b - 0x41 + 10) as u8)
    } else {
        None
    }
}

/// Whether the bytes are hex digits, and an even number of them.
pub open spec fn is_hex(digits: Seq<u8>) -> bool {
    &&& digits.len() % 2 == 0
    &&& forall|i: int| 0 <= i < digits.len() ==> hex_digit_value(#[trigger] digits[i]) is Some
}

/// The bytes that hex digits stand for, two digits to a byte, the high
/// half first.
pub open spec fn hex_decoded(digits: Seq<u8>) -> Option<Seq<u8>> {
    if is_hex(digits) {
        Some(
            Seq::new(
                digits.len() / 2,
                |i: int|
                    (hex_digit_value(digits[2 * i]).unwrap() * 16 + hex_digit_value(
                        digits[2 * i + 1],
                    ).unwrap()) as u8,
            ),
        )
    } else {
        None
    }
}

/// The lower-case hex digit of a value below sixteen.
pub open spec fn hex_digit(value: u8) -> char {
    if value < 10 {
        (0x30 + value) as u8 as char
    } else {
        (0x61 + value - 10) as u8 as char
    }
}

/// Bytes in lower-case hex, two digits to a byte, the high half first.
pub open spec fn hex_encoded(bytes: Seq<u8>) -> Seq<char> {
    Seq::new(
        2 * bytes.len(),
        |i: int|
            if i % 2 == 0 {
                hex_digit(bytes[i / 2] / 16)
            } else {
                hex_digit(bytes[i / 2] % 16)
            },
    )
}

/// The bytes of the transaction id that a text gives, in the byte order of
/// the wire: the text is 64 hex digits, and the wire has its 32 bytes
/// backwards. `None` where the text is no transaction id.
pub open spec fn txid_bytes_of(text: Seq<char>) -> Option<Seq<u8>> {
    match hex_decoded(vstd::utf8::encode_utf8(text)) {
        Some(bytes) => if bytes.len() == 32 {
            Some(bytes.reverse())
        } else {
            None
        },
        None => None,
    }
}

/// The locking script that pays to the main-network address that a text
/// gives; `None` where the text is no address, or one of another network.
pub uninterp spec fn address_script_of(text: Seq<char>) -> Option<Seq<u8>>;

/// The bytes of a transaction on the wire.
pub uninterp spec fn consensus_encoding(tx: SettlementTxView) -> Seq<u8>;

/// The id, as text, of the transaction that the bytes encode; `None` where
/// they encode none.
pub uninterp spec fn transaction_id_of(bytes: Seq<u8>) -> Option<Seq<char>>;

/// Decodes hex: `hex::decode`. It reads the text's bytes two by two, takes
/// digits of either case, and fails on an odd length and on any other byte.
#[verifier::external_body]
pub(crate) fn decode_hex(text: &str) -> (r: Option<Vec<u8>>)
    ensures
        r.deep_view() == hex_decoded(text.spec_bytes()),
{
    hex::decode(text).ok()
}

/// Writes bytes in lower-case hex: `as_hex` of `bitcoin::hex::DisplayHex`,
/// whose display form is lower case.
#[verifier::external_body]
pub(crate) fn encode_hex(bytes: &Vec<u8>) -> (r: String)
    ensures
        r@ == hex_encoded(bytes@),
{
    bytes.as_hex().to_string()
}

/// Parses a transaction id: `bitcoin::Txid::from_str`, and `to_byte_array`
/// of `bitcoin::hashes::Hash` for its bytes. The text has to be 64 hex
/// digits, of either case; the id holds the bytes they stand for in
/// reverse order.
#[verifier::external_body]
pub(crate) fn parse_txid(text: &str) -> (r: Option<[u8; 32]>)
    ensures
        r.deep_view() == txid_bytes_of(text@),
{
    match bitcoin::Txid::from_str(text) {
        Ok(txid) => Some(bitcoin::hashes::Hash::to_byte_array(txid)),
        Err(_) => None,
    }
}

/// Parses an address and gives the script that pays to it:
/// `bitcoin::Address::from_str`, then `require_network` for the main
/// network, then `script_pubkey`. The contract names the result: the same
/// text always gives the same script, or always none.
#[verifier::external_body]
pub(crate) fn address_script(text: &str) -> (r: Option<Vec<u8>>)
    ensures
        r.deep_view() == address_script_of(text@),
{
    let unchecked = bitcoin::Address::from_str(text).ok()?;
    let address = unchecked.require_network(bitcoin::Network::Bitcoin).ok()?;
    Some(address.script_pubkey().into_bytes())
}

/// Encodes a transaction for the wire: `bitcoin::consensus::serialize`, on
/// the transaction with these inputs and outputs and with empty witnesses.
/// The contract names the result: the encoding depends on nothing else.
#[verifier::external_body]
pub(crate) fn consensus_encode(tx: &SettlementTx) -> (r: Vec<u8>)
    ensures
        r@ == consensus_encoding(tx@),
{
    let input = tx.inputs.iter().map(|i| bitcoin::TxIn {
        previous_output: bitcoin::OutPoint::new(bitcoin::hashes::Hash::from_byte_array(i.txid), i.vout),
        script_sig: bitcoin::ScriptBuf::from_bytes(i.script_sig.clone()),
        sequence: bitcoin::Sequence(i.sequence),
        witness: bitcoin::Witness::new(),
    }).collect();
    let output = tx.outputs.iter().map(|o| bitcoin::TxOut {
        value: bitcoin::Amount::from_sat(o.value),
        script_pubkey: bitcoin::ScriptBuf::from_bytes(o.script_pubkey.clone()),
    }).collect();
    let version = bitcoin::transaction::Version(tx.version);
    let lock_time = bitcoin::absolute::LockTime::from_consensus(tx.lock_time);
    bitcoin::consensus::serialize(&bitcoin::Transaction { version, lock_time, input, output })
}

/// Decodes a transaction and computes its id: `bitcoin::consensus::deserialize`
/// and `Transaction::compute_txid`, written out as text. The contract names
/// the result: the same bytes always give the same id, or always none.
#[verifier::external_body]
pub(crate) fn transaction_id(bytes: &Vec<u8>) -> (r: Option<String>)
    ensures
        r.deep_view() == transaction_id_of(bytes@),
{
    match bitcoin::consensus::deserialize::<bitcoin::Transaction>(bytes) {
        Ok(tx) => Some(tx.compute_txid().to_string()),
        Err(_) => None,
    }
}

} // verus!
