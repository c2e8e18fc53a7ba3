//! A wallet's assets, read from what the indexer reports.
//!
//! The indexer's records come as loosely shaped data in which every field
//! may be missing. Here they are typed records with optional fields, made
//! once at the boundary; what a missing field defaults to, and which records
//! are assets at all, is decided in this module.

use crate::models::{clone_text, Timestamp};
use crate::text::characters;
use vstd::prelude::*;
use vstd::string::StringExecFns;

verus! {

/// The file of an inscription, as the indexer reports it in full.
#[derive(Debug, PartialEq, Eq)]
pub struct InscriptionFile {
    pub hash: String,
    pub size: u64,
    pub content_type: String,
}

/// The file of an inscription in an output's record: each field may be missing.
#[derive(Debug, PartialEq, Eq)]
pub struct TxoFile {
    pub content_type: Option<String>,
    pub size: Option<u64>,
    pub hash: Option<String>,
}

/// A `TxoFile` with its text as sequences of characters.
pub struct TxoFileView {
    pub content_type: Option<Seq<char>>,
    pub size: Option<u64>,
    pub hash: Option<Seq<char>>,
}

impl View for TxoFile {
    type V = TxoFileView;

    open spec fn view(&self) -> TxoFileView {
        TxoFileView {
            content_type: self.content_type.deep_view(),
            size: self.size,
            hash: self.hash.deep_view(),
        }
    }
}

impl DeepView for TxoFile {
    type V = TxoFileView;

    open spec fn deep_view(&self) -> TxoFileView {
        self@
    }
}

/// What an output's record says of the asset it carries.
#[derive(Debug, PartialEq, Eq)]
pub struct TxoOrigin {
    /// The output of the asset's first appearance.
    pub outpoint: Option<String>,
    /// The inscription's number, as fields divided by colons.
    pub num: Option<String>,
    pub file: Option<TxoFile>,
    /// The asset's metadata, as JSON text.
    pub metadata: Option<String>,
    /// The collection that the metadata names.
    pub collection_id: Option<String>,
}

/// A `TxoOrigin` with its text as sequences of characters.
pub struct TxoOriginView {
    pub outpoint: Option<Seq<char>>,
    pub num: Option<Seq<char>>,
    pub file: Option<TxoFileView>,
    pub metadata: Option<Seq<char>>,
    pub collection_id: Option<Seq<char>>,
}

impl View for TxoOrigin {
    type V = TxoOriginView;

    open spec fn view(&self) -> TxoOriginView {
        TxoOriginView {
            outpoint: self.outpoint.deep_view(),
            num: self.num.deep_view(),
            file: self.file.deep_view(),
            metadata: self.metadata.deep_view(),
            collection_id: self.collection_id.deep_view(),
        }
    }
}

impl DeepView for TxoOrigin {
    type V = TxoOriginView;

    open spec fn deep_view(&self) -> TxoOriginView {
        self@
    }
}

/// One unspent output of an address, as the indexer reports it. Only an
/// output with an `origin` carries an asset.
#[derive(Debug, PartialEq, Eq)]
pub struct IndexedTxo {
    pub outpoint: Option<String>,
    pub txid: Option<String>,
    pub vout: Option<u64>,
    pub satoshis: Option<u64>,
    pub height: Option<u64>,
    pub origin: Option<TxoOrigin>,
}

/// An `IndexedTxo` with its text as sequences of characters.
pub struct IndexedTxoView {
    pub outpoint: Option<Seq<char>>,
    pub txid: Option<Seq<char>>,
    pub vout: Option<u64>,
    pub satoshis: Option<u64>,
    pub height: Option<u64>,
    pub origin: Option<TxoOriginView>,
}

impl View for IndexedTxo {
    type V = IndexedTxoView;

    open spec fn view(&self) -> IndexedTxoView {
        IndexedTxoView {
            outpoint: self.outpoint.deep_view(),
            txid: self.txid.deep_view(),
            vout: self.vout,
            satoshis: self.satoshis,
            height: self.height,
            origin: self.origin.deep_view(),
        }
    }
}

impl DeepView for IndexedTxo {
    type V = IndexedTxoView;

    open spec fn deep_view(&self) -> IndexedTxoView {
        self@
    }
}

/// An asset with what is known of its inscription.
#[derive(Debug, PartialEq, Eq)]
pub struct OrdinalDetails {
    pub origin: String,
    pub txid: String,
    pub vout: u32,
    pub owner_address: String,
    pub satoshis: u64,
    pub content_type: Option<String>,
    pub content_size: Option<u64>,
    pub content_hash: Option<String>,
    pub block_height: Option<u64>,
    pub inscription_number: Option<u64>,
    /// The asset's metadata, as JSON text.
    pub metadata: Option<String>,
    pub collection_id: Option<String>,
    pub content_url: String,
    pub preview_url: String,
    pub fetched_at: Timestamp,
}

/// `OrdinalDetails` with its text as sequences of characters.
pub struct OrdinalDetailsView {
    pub origin: Seq<char>,
    pub txid: Seq<char>,
    pub vout: u32,
    pub owner_address: Seq<char>,
    pub satoshis: u64,
    pub content_type: Option<Seq<char>>,
    pub content_size: Option<u64>,
    pub content_hash: Option<Seq<char>>,
    pub block_height: Option<u64>,
    pub inscription_number: Option<u64>,
    pub metadata: Option<Seq<char>>,
    pub collection_id: Option<Seq<char>>,
    pub content_url: Seq<char>,
    pub preview_url: Seq<char>,
    pub fetched_at: Timestamp,
}

impl View for OrdinalDetails {
    type V = OrdinalDetailsView;

    open spec fn view(&self) -> OrdinalDetailsView {
        OrdinalDetailsView {
            origin: self.origin@,
            txid: self.txid@,
            vout: self.vout,
            owner_address: self.owner_address@,
            satoshis: self.satoshis,
            content_type: self.content_type.deep_view(),
            content_size: self.content_size,
            content_hash: self.content_hash.deep_view(),
            block_height: self.block_height,
            inscription_number: self.inscription_number,
            metadata: self.metadata.deep_view(),
            collection_id: self.collection_id.deep_view(),
            content_url: self.content_url@,
            preview_url: self.preview_url@,
            fetched_at: self.fetched_at,
        }
    }
}

impl DeepView for OrdinalDetails {
    type V = OrdinalDetailsView;

    open spec fn deep_view(&self) -> OrdinalDetailsView {
        self@
    }
}

/// The assets of one address.
#[derive(Debug, PartialEq, Eq)]
pub struct WalletOrdinals {
    pub address: String,
    pub total_count: usize,
    pub ordinals: Vec<OrdinalDetails>,
    pub fetched_at: Timestamp,
    pub fetch_time_ms: u64,
}

/// The answer to a request for a wallet's assets.
#[derive(Debug, PartialEq, Eq)]
pub struct WalletResponse {
    pub success: bool,
    pub data: WalletOrdinals,
}

/// The answer to a request for one asset.
#[derive(Debug, PartialEq, Eq)]
pub struct OrdinalResponse {
    pub success: bool,
    pub data: OrdinalDetails,
}

/// Whether a text has the length of a wallet address: from 20 to 64 bytes.
pub fn valid_wallet_address(address: &str) -> (r: bool)
    ensures
        r == (20 <= vstd::utf8::encode_utf8(address@).len() <= 64),
{
    let len = address.as_bytes().len();
    len >= 20 && len <= 64
}

/// Whether a text has the shape of an origin: a transaction id, an
/// underscore, and an output index. Only the length, of at least 65 bytes,
/// and the underscore are tested.
#[verifier::loop_isolation(false)]
pub fn valid_origin(origin: &str) -> (r: bool)
    ensures
        r == (origin@.contains('_') && vstd::utf8::encode_utf8(origin@).len() >= 65),
{
    if origin.as_bytes().len() < 65 {
        return false;
    }
    let chars = characters(origin);
    let mut i: usize = 0;
    while i < chars.len()
        invariant
            i <= chars.len(),
            chars@ == origin@,
            forall|j: int| 0 <= j < i ==> chars@[j] != '_',
        decreases chars.len() - i,
    {
        if chars[i] == '_' {
            assert(origin@[i as int] == '_');
            return true;
        }
        i += 1;
    }
    false
}

/// The place of the first colon of a text, or its length where it has none.
pub open spec fn first_field_len(s: Seq<char>) -> int
    decreases s.len(),
{
    if s.len() == 0 || s[0] == ':' {
        0
    } else {
        1 + first_field_len(s.drop_first())
    }
}

/// The text up to its first colon.
pub open spec fn first_field(s: Seq<char>) -> Seq<char> {
    s.take(first_field_len(s))
}

/// The value of a decimal digit.
pub open spec fn digit_value(c: char) -> Option<nat> {
    if 0x30 <= c as u32 <= 0x39 {
        Some((c as u32 - 0x30) as nat)
    } else {
        None
    }
}

/// The number that a run of decimal digits writes; `None` where a
/// character is no digit.
pub open spec fn digits_value(s: Seq<char>) -> Option<nat>
    decreases s.len(),
{
    if s.len() == 0 {
        Some(0)
    } else {
        match (digits_value(s.drop_last()), digit_value(s.last())) {
            (Some(v), Some(d)) => Some(v * 10 + d),
            _ => None,
        }
    }
}

/// The number that a text writes in decimal: digits only, after a plus sign
/// if there is one, at least one of them, and a value that the number type
/// holds.
pub open spec fn parsed_number(s: Seq<char>) -> Option<u64> {
    let digits = if s.len() > 0 && s[0] == '+' {
        s.drop_first()
    } else {
        s
    };
    if digits.len() == 0 {
        None
    } else {
        match digits_value(digits) {
            Some(v) => if v <= u64::MAX {
                Some(v as u64)
            } else {
                None
            },
            None => None,
        }
    }
}

/// The number of an inscription: the first of the fields that colons divide
/// its `num` into, read as a decimal number.
pub open spec fn spec_inscription_number(num: Seq<char>) -> Option<u64> {
    parsed_number(first_field(num))
}

/// Digits that write a number start with digits that write one no larger.
pub proof fn lemma_digits_value_grows(s: Seq<char>, i: int)
    requires
        0 <= i <= s.len(),
        digits_value(s) is Some,
    ensures
        digits_value(s.take(i)) is Some,
        digits_value(s.take(i)).unwrap() <= digits_value(s).unwrap(),
    decreases s.len() - i,
{
    if i == s.len() {
        assert(s.take(i) =~= s);
    } else {
        lemma_digits_value_grows(s.drop_last(), i);
        assert(s.drop_last().take(i) =~= s.take(i));
    }
}

/// Reads the number of an inscription from its `num`: see
/// `spec_inscription_number`.
#[verifier::loop_isolation(false)]
pub fn inscription_number(num: &str) -> (r: Option<u64>)
    ensures
        r == spec_inscription_number(num@),
{
    let chars = characters(num);
    let mut end: usize = 0;
    assert(chars@.skip(0) =~= chars@);
    while end < chars.len() && chars[end] != ':'
        invariant
            end <= chars.len(),
            first_field_len(chars@) == end + first_field_len(chars@.skip(end as int)),
        decreases chars.len() - end,
    {
        assert(chars@.skip(end as int).drop_first() =~= chars@.skip(end + 1));
        end += 1;
    }
    assert(first_field_len(chars@) == end);
    let ghost field = first_field(chars@);
    let start: usize = if end > 0 && chars[0] == '+' {
        1
    } else {
        0
    };
    let ghost digits = if field.len() > 0 && field[0] == '+' {
        field.drop_first()
    } else {
        field
    };
    assert(digits =~= chars@.subrange(start as int, end as int));
    if start == end {
        return None;
    }
    let mut value: u64 = 0;
    let mut i: usize = start;
    assert(digits.take(0) =~= Seq::<char>::empty());
    while i < end
        invariant
            start <= i <= end <= chars.len(),
            digits == chars@.subrange(start as int, end as int),
            digits_value(digits.take(i - start)) == Some(value as nat),
        decreases end - i,
    {
        let c = chars[i] as u32;
        proof {
            let next = digits.take(i - start + 1);
            assert(next.drop_last() =~= digits.take(i - start));
            assert(next.last() == chars@[i as int]);
            assert(digits_value(next) == match digit_value(chars@[i as int]) {
                Some(d) => Some(value as nat * 10 + d),
                None => None,
            });
            if digits_value(digits) is Some {
                lemma_digits_value_grows(digits, i - start + 1);
            }
        }
        if c < 0x30 || c > 0x39 {
            return None;
        }
        let d = (c - 0x30) as u64;
        if value > (u64::MAX - d) / 10 {
            return None;
        }
        value = value * 10 + d;
        i += 1;
    }
    assert(digits.take(i - start) =~= digits);
    Some(value)
}

/// Where the content of an asset is served: the indexer's base URL, the path
/// of inscription files, and the asset's origin.
pub open spec fn spec_content_url(base_url: Seq<char>, origin: Seq<char>) -> Seq<char> {
    base_url + "/files/inscriptions/"@ + origin
}

/// Where the content of an asset is served: see `spec_content_url`.
pub fn content_url(base_url: &str, origin: &str) -> (r: String)
    ensures
        r@ == spec_content_url(base_url@, origin@),
{
    let mut url = base_url.to_owned();
    url.append("/files/inscriptions/");
    url.append(origin);
    url
}

/// Where a preview of an asset is served: where its content is.
pub fn preview_url(base_url: &str, origin: &str) -> (r: String)
    ensures
        r@ == spec_content_url(base_url@, origin@),
{
    content_url(base_url, origin)
}

/// A text, or the empty text where there is none.
pub open spec fn text_or_empty(text: Option<Seq<char>>) -> Seq<char> {
    match text {
        Some(t) => t,
        None => Seq::empty(),
    }
}

/// The asset that an output's record describes, if it describes one.
///
/// A record without an `origin` is no asset. Of the others, a missing
/// transaction id is empty, a missing output index is zero, and a missing
/// value is one unit; an index beyond the index type is cut to its low 32
/// bits. The asset is known by the origin's own outpoint, or by the
/// output's where the origin has none.
pub open spec fn spec_ordinal_details(
    address: Seq<char>,
    item: IndexedTxoView,
    base_url: Seq<char>,
    fetched_at: Timestamp,
) -> Option<OrdinalDetailsView> {
    match item.origin {
        None => None,
        Some(origin) => {
            let known_by = match origin.outpoint {
                Some(outpoint) => outpoint,
                None => text_or_empty(item.outpoint),
            };
            Some(
                OrdinalDetailsView {
                    origin: known_by,
                    txid: text_or_empty(item.txid),
                    vout: match item.vout {
                        Some(vout) => (vout % 0x1_0000_0000) as u32,
                        None => 0,
                    },
                    owner_address: address,
                    satoshis: match item.satoshis {
                        Some(satoshis) => satoshis,
                        None => 1,
                    },
                    content_type: match origin.file {
                        Some(file) => file.content_type,
                        None => None,
                    },
                    content_size: match origin.file {
                        Some(file) => file.size,
                        None => None,
                    },
                    content_hash: match origin.file {
                        Some(file) => file.hash,
                        None => None,
                    },
                    block_height: item.height,
                    inscription_number: match origin.num {
                        Some(num) => spec_inscription_number(num),
                        None => None,
                    },
                    metadata: origin.metadata,
                    collection_id: origin.collection_id,
                    content_url: spec_content_url(base_url, known_by),
                    preview_url: spec_content_url(base_url, known_by),
                    fetched_at,
                },
            )
        },
    }
}

/// Reads the asset that an output's record describes: see
/// `spec_ordinal_details`.
pub fn ordinal_details(address: &str, item: &IndexedTxo, base_url: &str, fetched_at: Timestamp) -> (r:
    Option<OrdinalDetails>)
    ensures
        r.deep_view() == spec_ordinal_details(address@, item@, base_url@, fetched_at),
{
    let origin = match &item.origin {
        Some(origin) => origin,
        None => {
            return None;
        },
    };
    let known_by = match &origin.outpoint {
        Some(outpoint) => outpoint.clone(),
        None => match &item.outpoint {
            Some(outpoint) => outpoint.clone(),
            None => String::new(),
        },
    };
    let txid = match &item.txid {
        Some(txid) => txid.clone(),
        None => String::new(),
    };
    let vout = match item.vout {
        Some(vout) => (vout % 0x1_0000_0000) as u32,
        None => 0,
    };
    let satoshis = match item.satoshis {
        Some(satoshis) => satoshis,
        None => 1,
    };
    let (content_type, content_size, content_hash) = match &origin.file {
        Some(file) => (clone_text(&file.content_type), file.size, clone_text(&file.hash)),
        None => (None, None, None),
    };
    let inscription_number = match &origin.num {
        Some(num) => inscription_number(num.as_str()),
        None => None,
    };
    let content_url = content_url(base_url, known_by.as_str());
    let preview_url = preview_url(base_url, known_by.as_str());
    Some(
        OrdinalDetails {
            origin: known_by,
            txid,
            vout,
            owner_address: address.to_owned(),
            satoshis,
            content_type,
            content_size,
            content_hash,
            block_height: item.height,
            inscription_number,
            metadata: clone_text(&origin.metadata),
            collection_id: clone_text(&origin.collection_id),
            content_url,
            preview_url,
            fetched_at,
        },
    )
}

/// The reading of one record, as a function of the record alone.
pub open spec fn details_reader(
    address: Seq<char>,
    base_url: Seq<char>,
    fetched_at: Timestamp,
) -> spec_fn(IndexedTxoView) -> Option<OrdinalDetailsView> {
    |item: IndexedTxoView| spec_ordinal_details(address, item, base_url, fetched_at)
}

/// The assets among the outputs of an address, in the order of the outputs.
pub open spec fn spec_wallet_ordinals(
    address: Seq<char>,
    items: Seq<IndexedTxoView>,
    base_url: Seq<char>,
    fetched_at: Timestamp,
) -> Seq<OrdinalDetailsView> {
    items.filter_map(details_reader(address, base_url, fetched_at))
}

/// Reads the assets of an address from its outputs: the records that
/// describe an asset, each read as `spec_ordinal_details` says, in their
/// order, and their number.
pub fn wallet_ordinals(
    address: &str,
    items: &Vec<IndexedTxo>,
    base_url: &str,
    fetched_at: Timestamp,
    fetch_time_ms: u64,
) -> (r: WalletOrdinals)
    ensures
        r.address@ == address@,
        r.ordinals.deep_view() == spec_wallet_ordinals(
            address@,
            items.deep_view(),
            base_url@,
            fetched_at,
        ),
        r.total_count == r.ordinals.len(),
        r.fetched_at == fetched_at,
        r.fetch_time_ms == fetch_time_ms,
{
    let ghost all = items.deep_view();
    let ghost reader = details_reader(address@, base_url@, fetched_at);
    let mut ordinals: Vec<OrdinalDetails> = Vec::new();
    let mut i: usize = 0;
    assert(all.take(0).filter_map(reader) =~= Seq::<OrdinalDetailsView>::empty());
    while i < items.len()
        invariant
            i <= items.len(),
            all == items.deep_view(),
            reader == details_reader(address@, base_url@, fetched_at),
            ordinals.deep_view() == all.take(i as int).filter_map(reader),
        decreases items.len() - i,
    {
        proof {
            all.lemma_filter_map_take_succ(reader, i as int);
        }
        let ghost before = ordinals.deep_view();
        match ordinal_details(address, &items[i], base_url, fetched_at) {
            Some(details) => {
                ordinals.push(details);
                assert(ordinals.deep_view() =~= before + seq![reader(all[i as int]).unwrap()]);
            },
            None => {},
        }
        i += 1;
    }
    assert(all.take(i as int) =~= all);
    let total_count = ordinals.len();
    WalletOrdinals { address: address.to_owned(), total_count, ordinals, fetched_at, fetch_time_ms }
}

} // verus!
