//! The shape of a chain transaction-query response, and the two positional
//! rules that dig a stored contract's code id and an instantiated contract's
//! address out of its event logs. The rules mirror the event-log layout of
//! the supported chains and are deliberately positional: the code id is the
//! last attribute of the last event of the last log, the address is the
//! first attribute whose key mentions `address` in the first event of the
//! first log.

use vstd::prelude::*;
use crate::text::{contains_substr, contains_str};

verus! {

/// One key/value attribute of a chain event.
#[derive(Debug, Clone)]
pub struct Attribute {
    pub key: String,
    pub value: String,
    pub index: Option<bool>,
}

/// One event of a transaction log.
#[derive(Debug, Clone)]
pub struct Event {
    pub type_field: String,
    pub attributes: Vec<Attribute>,
}

/// One log entry of a transaction result.
#[derive(Debug, Clone)]
pub struct Log {
    pub msg_index: i64,
    pub log: String,
    pub events: Vec<Event>,
}

/// The result of querying a transaction: result code, hash, raw log text,
/// and the structured event logs.
#[derive(Debug, Clone)]
pub struct TxQueryResponse {
    pub height: String,
    pub txhash: String,
    pub codespace: String,
    pub code: i64,
    pub data: String,
    pub raw_log: String,
    pub logs: Vec<Log>,
    pub info: String,
    pub gas_wanted: String,
    pub gas_used: String,
    pub timestamp: String,
    pub events: Vec<Event>,
}

/// The response of a key lookup: the key's name, type, address and public
/// key.
#[derive(Debug, Clone)]
pub struct KeysShowResponse {
    pub name: String,
    pub type_field: String,
    pub address: String,
    pub pubkey: String,
}

/// The decoded body of a store-code message.
#[derive(Debug, Clone)]
pub struct Message {
    pub type_field: String,
    pub sender: String,
    pub wasm_byte_code: String,
    pub source: String,
    pub builder: String,
}

/// Signature metadata of a transaction.
#[derive(Debug, Clone)]
pub struct AuthInfo {
    pub signer_infos: Vec<SignerInfo>,
    pub fee: Fee,
}

/// One signer of a transaction.
#[derive(Debug, Clone)]
pub struct SignerInfo {
    pub public_key: PublicKey,
    pub mode_info: ModeInfo,
    pub sequence: String,
}

/// A signer's public key.
#[derive(Debug, Clone)]
pub struct PublicKey {
    pub type_field: String,
    pub key: String,
}

/// How a signature was made.
#[derive(Debug, Clone)]
pub struct ModeInfo {
    pub single: Single,
}

/// A single-signature mode.
#[derive(Debug, Clone)]
pub struct Single {
    pub mode: String,
}

/// The fee a transaction paid.
#[derive(Debug, Clone)]
pub struct Fee {
    pub amount: Vec<Amount>,
    pub gas_limit: String,
    pub payer: String,
    pub granter: String,
}

/// One coin amount.
#[derive(Debug, Clone)]
pub struct Amount {
    pub denom: String,
    pub amount: String,
}

/// Mathematical image of an `Attribute`.
pub struct AttributeView {
    pub key: Seq<char>,
    pub value: Seq<char>,
    pub index: Option<bool>,
}

/// Mathematical image of an `Event`.
pub struct EventView {
    pub type_field: Seq<char>,
    pub attributes: Seq<AttributeView>,
}

/// Mathematical image of a `Log`.
pub struct LogView {
    pub msg_index: int,
    pub log: Seq<char>,
    pub events: Seq<EventView>,
}

/// Mathematical image of a `TxQueryResponse`; only the fields the library's
/// logic reads are modeled.
pub struct TxView {
    pub code: int,
    pub txhash: Seq<char>,
    pub raw_log: Seq<char>,
    pub logs: Seq<LogView>,
}

impl View for Attribute {
    type V = AttributeView;

    open spec fn view(&self) -> AttributeView {
        AttributeView { key: self.key@, value: self.value@, index: self.index }
    }
}

impl DeepView for Attribute {
    type V = AttributeView;

    open spec fn deep_view(&self) -> AttributeView {
        self.view()
    }
}

impl View for Event {
    type V = EventView;

    open spec fn view(&self) -> EventView {
        EventView { type_field: self.type_field@, attributes: self.attributes.deep_view() }
    }
}

impl DeepView for Event {
    type V = EventView;

    open spec fn deep_view(&self) -> EventView {
        self.view()
    }
}

impl View for Log {
    type V = LogView;

    open spec fn view(&self) -> LogView {
        LogView { msg_index: self.msg_index as int, log: self.log@, events: self.events.deep_view() }
    }
}

impl DeepView for Log {
    type V = LogView;

    open spec fn deep_view(&self) -> LogView {
        self.view()
    }
}

impl View for TxQueryResponse {
    type V = TxView;

    open spec fn view(&self) -> TxView {
        TxView {
            code: self.code as int,
            txhash: self.txhash@,
            raw_log: self.raw_log@,
            logs: self.logs.deep_view(),
        }
    }
}

/// The code id carried by a store transaction: the value of the last
/// attribute of the last event of the last log, when all three exist.
pub open spec fn code_id_of(tx: TxView) -> Option<Seq<char>> {
    if tx.logs.len() > 0 {
        let log = tx.logs.last();
        if log.events.len() > 0 {
            let ev = log.events.last();
            if ev.attributes.len() > 0 {
                Some(ev.attributes.last().value)
            } else {
                None
            }
        } else {
            None
        }
    } else {
        None
    }
}

/// The value of the first attribute whose key contains `address`, if any.
pub open spec fn first_address_attr(attrs: Seq<AttributeView>) -> Option<Seq<char>>
    decreases attrs.len(),
{
    if attrs.len() == 0 {
        None
    } else if contains_substr(attrs[0].key, "address"@) {
        Some(attrs[0].value)
    } else {
        first_address_attr(attrs.skip(1))
    }
}

/// The address assigned by an instantiate transaction: scanned out of the
/// first event of the first log.
pub open spec fn deployed_address_of(tx: TxView) -> Option<Seq<char>> {
    if tx.logs.len() > 0 && tx.logs[0].events.len() > 0 {
        first_address_attr(tx.logs[0].events[0].attributes)
    } else {
        None
    }
}

/// Extract the code id assigned by a store transaction.
pub fn extract_code_id(tx: &TxQueryResponse) -> (r: Option<String>)
    ensures
        r is Some <==> code_id_of(tx@) is Some,
        r matches Some(v) ==> code_id_of(tx@) == Some(v@),
{
    if tx.logs.len() == 0 {
        return None;
    }
    let log = &tx.logs[tx.logs.len() - 1];
    if log.events.len() == 0 {
        return None;
    }
    let ev = &log.events[log.events.len() - 1];
    if ev.attributes.len() == 0 {
        return None;
    }
    Some(ev.attributes[ev.attributes.len() - 1].value.clone())
}

/// Extract the contract address assigned by an instantiate transaction.
pub fn extract_deployed_address(tx: &TxQueryResponse) -> (r: Option<String>)
    ensures
        r is Some <==> deployed_address_of(tx@) is Some,
        r matches Some(v) ==> deployed_address_of(tx@) == Some(v@),
{
    if tx.logs.len() == 0 {
        return None;
    }
    let log = &tx.logs[0];
    if log.events.len() == 0 {
        return None;
    }
    let ev = &log.events[0];
    let mut i: usize = 0;
    proof {
        assert(tx@.logs[0] == tx.logs[0]@);
        assert(tx@.logs[0].events[0] == ev@);
        assert(ev.attributes.deep_view().skip(0) =~= ev.attributes.deep_view());
    }
    while i < ev.attributes.len()
        invariant
            i <= ev.attributes.len(),
            first_address_attr(ev.attributes.deep_view()) == first_address_attr(
                ev.attributes.deep_view().skip(i as int),
            ),
            deployed_address_of(tx@) == first_address_attr(ev.attributes.deep_view()),
        decreases ev.attributes.len() - i,
    {
        let ghost rest = ev.attributes.deep_view().skip(i as int);
        proof {
            assert(rest[0] == ev.attributes.deep_view()[i as int]);
            assert(rest.skip(1) =~= ev.attributes.deep_view().skip(i + 1));
        }
        if contains_str(ev.attributes[i].key.as_str(), "address") {
            return Some(ev.attributes[i].value.clone());
        }
        i = i + 1;
    }
    proof {
        assert(ev.attributes.deep_view().skip(i as int) =~= Seq::<AttributeView>::empty());
    }
    None
}

} // verus!
