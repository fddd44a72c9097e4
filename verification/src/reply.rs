use vstd::prelude::*;

use cosmrs::proto::cosmos::base::abci::v1beta1::{GasInfo, TxMsgData};
use cosmrs::proto::tendermint::v0_38::abci::ResponseFinalizeBlock;
use cosmrs::tendermint::abci::Event;
use prost::DecodeError as ProtoDecodeError;
use prost::Message;

use crate::error::{DecodeError, RunnerError};
use crate::runner::finalize_block_tx_index;

verus! {

/// What `prost::Message::decode` gives for a `cosmos.base.abci.v1beta1.GasInfo`
/// in `reply`: the gas wanted and the gas used, `None` where it reports an
/// error.
pub uninterp spec fn gas_info_of(reply: Seq<u8>) -> Option<(u64, u64)>;

/// Decodes a `GasInfo` with `prost`, taken as its gas wanted and gas used.
#[verifier::external_body]
fn decode_gas_info(bytes: &[u8]) -> (gas: Result<(u64, u64), ProtoDecodeError>)
    ensures
        match gas {
            Ok(g) => gas_info_of(bytes@) == Some(g),
            Err(_) => gas_info_of(bytes@) is None,
        },
{
    GasInfo::decode(bytes).map(|g| (g.gas_wanted, g.gas_used))
}

/// The gas that a simulation reports, as gas wanted and gas used, from the
/// chain's reply.
pub fn gas_info_from_reply(reply: &[u8]) -> (gas: Result<(u64, u64), DecodeError>)
    ensures
        match gas {
            Ok(g) => gas_info_of(reply@) == Some(g),
            Err(e) => gas_info_of(reply@) is None && e is ProtoDecodeError,
        },
{
    match decode_gas_info(reply) {
        Ok(g) => Ok(g),
        Err(e) => Err(DecodeError::ProtoDecodeError(e)),
    }
}

/// One event of an executed transaction: its type and its attributes, each a
/// key and a value.
#[derive(Debug)]
pub struct TxEvent {
    pub kind: String,
    pub attributes: Vec<(String, String)>,
}

/// What the chain reports of one executed transaction: its data, its log,
/// its gas and its events.
#[derive(Debug)]
pub struct TxOutcome {
    pub data: Vec<u8>,
    pub log: String,
    pub gas_wanted: i64,
    pub gas_used: i64,
    pub events: Vec<TxEvent>,
}

/// An event by its type and its attributes as key and value.
pub open spec fn tx_event_view(e: TxEvent) -> (Seq<char>, Seq<(Seq<char>, Seq<char>)>) {
    (e.kind@, e.attributes@.map_values(|a: (String, String)| (a.0@, a.1@)))
}

/// A transaction result by data, log, gas wanted, gas used and events.
pub open spec fn tx_outcome_view(t: TxOutcome) -> (
    Seq<u8>,
    Seq<char>,
    i64,
    i64,
    Seq<(Seq<char>, Seq<(Seq<char>, Seq<char>)>)>,
) {
    (t.data@, t.log@, t.gas_wanted, t.gas_used, t.events@.map_values(|e: TxEvent| tx_event_view(e)))
}

/// What `prost::Message::decode` gives for a
/// `tendermint.abci.ResponseFinalizeBlock` in `reply`, taken as its
/// transaction results, each by data, log, gas wanted, gas used and events
/// (type, then attributes as key and value); `None` where it reports an
/// error.
pub uninterp spec fn finalize_block_tx_results(reply: Seq<u8>) -> Option<
    Seq<(Seq<u8>, Seq<char>, i64, i64, Seq<(Seq<char>, Seq<(Seq<char>, Seq<char>)>)>)>,
>;

/// Decodes a `ResponseFinalizeBlock` with `prost` and converts its
/// transaction results and their events one for one. An event's type is read
/// through `tendermint`'s `Event::try_from`, which moves the fields over and
/// does not fail.
#[verifier::external_body]
fn decode_finalize_block(bytes: &[u8]) -> (results: Result<Vec<TxOutcome>, ProtoDecodeError>)
    ensures
        match results {
            Ok(v) => finalize_block_tx_results(bytes@) == Some(
                v@.map_values(|t: TxOutcome| tx_outcome_view(t)),
            ),
            Err(_) => finalize_block_tx_results(bytes@) is None,
        },
{
    ResponseFinalizeBlock::decode(bytes).map(|r| r.tx_results.into_iter().map(|t| TxOutcome {
        data: t.data.to_vec(),
        log: t.log,
        gas_wanted: t.gas_wanted,
        gas_used: t.gas_used,
        events: t.events.into_iter().map(|e| TxEvent {
            attributes: e.attributes.iter().map(|a| (a.key.clone(), a.value.clone())).collect(),
            kind: Event::try_from(e).unwrap().kind,
        }).collect(),
    }).collect())
}

/// The transaction results of a finalized block, from the chain's reply.
pub fn finalize_block_outcomes(reply: &[u8]) -> (results: Result<Vec<TxOutcome>, DecodeError>)
    ensures
        match results {
            Ok(v) => finalize_block_tx_results(reply@) == Some(
                v@.map_values(|t: TxOutcome| tx_outcome_view(t)),
            ),
            Err(e) => finalize_block_tx_results(reply@) is None && e is ProtoDecodeError,
        },
{
    match decode_finalize_block(reply) {
        Ok(v) => Ok(v),
        Err(e) => Err(DecodeError::ProtoDecodeError(e)),
    }
}

/// What `prost::Message::decode` gives for a
/// `cosmos.base.abci.v1beta1.TxMsgData` in `data`, taken as the values of its
/// message responses in order; `None` where it reports an error.
pub uninterp spec fn msg_response_values(data: Seq<u8>) -> Option<Seq<Seq<u8>>>;

/// Decodes a `TxMsgData` with `prost`, taken as the values of its message
/// responses.
#[verifier::external_body]
fn decode_msg_responses(data: &[u8]) -> (values: Result<Vec<Vec<u8>>, ProtoDecodeError>)
    ensures
        match values {
            Ok(v) => msg_response_values(data@) == Some(v@.map_values(|b: Vec<u8>| b@)),
            Err(_) => msg_response_values(data@) is None,
        },
{
    TxMsgData::decode(data).map(|d| d.msg_responses.into_iter().map(|a| a.value).collect())
}

/// What executing a transaction gave, before the reply of its first message
/// is decoded into that message's own response type.
#[derive(Debug)]
pub struct ExecutedTx {
    pub msg_response: Vec<u8>,
    pub raw_data: Vec<u8>,
    pub events: Vec<TxEvent>,
    pub gas_wanted: u64,
    pub gas_used: u64,
}

/// The position of the result that answers the transaction sent among `n`
/// results, as `finalize_block_tx_index` picks it.
pub open spec fn answering_index(n: int) -> int {
    if n == 1 {
        0
    } else {
        1
    }
}

/// The result of the transaction sent, out of a block's transaction results:
/// an execute error where there is none, a decode error where its data is no
/// `TxMsgData`, an execute error with its log where it has no message
/// response, and else the first message response with the data, the events
/// and the gas (each count taken as unsigned, bit for bit).
pub fn executed_tx(outcomes: Vec<TxOutcome>) -> (executed: Result<ExecutedTx, RunnerError>)
    ensures
        outcomes.len() == 0 ==> (executed matches Err(RunnerError::ExecuteError { msg }) && msg@
            == "No tx results"@),
        outcomes.len() > 0 ==> ({
            let t = outcomes@[answering_index(outcomes.len() as int)];
            match msg_response_values(t.data@) {
                None => executed matches Err(RunnerError::DecodeError(DecodeError::ProtoDecodeError(_))),
                Some(vs) => if vs.len() == 0 {
                    executed matches Err(RunnerError::ExecuteError { msg }) && msg@ == t.log@
                } else {
                    &&& executed matches Ok(x)
                    &&& x.msg_response@ == vs[0]
                    &&& x.raw_data@ == t.data@
                    &&& x.events@ == t.events@
                    &&& x.gas_wanted == t.gas_wanted as u64
                    &&& x.gas_used == t.gas_used as u64
                },
            }
        }),
{
    let mut outcomes = outcomes;
    let index = match finalize_block_tx_index(outcomes.len()) {
        Some(i) => i,
        None => {
            return Err(RunnerError::ExecuteError { msg: "No tx results".to_owned() });
        },
    };
    let tx = outcomes.remove(index);
    let mut values = match decode_msg_responses(tx.data.as_slice()) {
        Ok(v) => v,
        Err(e) => {
            return Err(RunnerError::DecodeError(DecodeError::ProtoDecodeError(e)));
        },
    };
    if values.len() == 0 {
        return Err(RunnerError::ExecuteError { msg: tx.log });
    }
    let first = values.remove(0);
    Ok(ExecutedTx {
        msg_response: first,
        raw_data: tx.data,
        events: tx.events,
        gas_wanted: tx.gas_wanted as u64,
        gas_used: tx.gas_used as u64,
    })
}

} // verus!
