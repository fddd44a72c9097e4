use vstd::prelude::*;
use vstd::slice::slice_to_vec;

use cosmrs::proto::cosmos::bank::v1beta1::MsgSend;
use cosmrs::proto::cosmos::base::v1beta1::Coin as ProtoCoin;
use cosmrs::proto::cosmwasm::wasm::v1::{
    MsgClearAdmin, MsgExecuteContract, MsgInstantiateContract, MsgMigrateContract, MsgUpdateAdmin,
};
use prost::Message;

use crate::coin::{
    is_sorted_by_denom, lemma_sort_permutation, lemma_sort_sorted, lemma_sort_stable, sort_by_denom,
    sort_coins_by_denom, with_denom, Coin,
};
use crate::error::RunnerError;

verus! {

/// A message packed for a transaction: its type URL and its protobuf bytes.
#[derive(Debug)]
pub struct AnyMsg {
    pub type_url: String,
    pub value: Vec<u8>,
}

/// Bank messages that a contract may send.
#[derive(Debug)]
pub enum BankMsg {
    Send { to_address: String, amount: Vec<Coin> },
    /// Any other bank message (a burn, say).
    Other,
}

/// Wasm messages that a contract may send.
#[derive(Debug)]
pub enum WasmMsg {
    Execute { contract_addr: String, msg: Vec<u8>, funds: Vec<Coin> },
    Instantiate {
        admin: Option<String>,
        code_id: u64,
        msg: Vec<u8>,
        funds: Vec<Coin>,
        label: String,
    },
    Migrate { contract_addr: String, new_code_id: u64, msg: Vec<u8> },
    UpdateAdmin { contract_addr: String, admin: String },
    ClearAdmin { contract_addr: String },
    /// Any other wasm message.
    Other,
}

/// The messages that a contract may send, as far as a transaction packs them.
#[derive(Debug)]
pub enum CosmosMsg {
    Bank(BankMsg),
    Wasm(WasmMsg),
    Stargate { type_url: String, value: Vec<u8> },
    Any(AnyMsg),
    /// Any other message (staking, IBC, governance, ...).
    Other,
}

/// The decimal digit for `d`.
pub open spec fn decimal_digit(d: int) -> char {
    (48 + d) as char
}

/// The decimal text of `n`, without leading zeros.
pub open spec fn decimal_text(n: nat) -> Seq<char>
    decreases n,
{
    if n < 10 {
        seq![decimal_digit(n as int)]
    } else {
        decimal_text(n / 10).push(decimal_digit((n % 10) as int))
    }
}

/// `format!("{}", n)` for a `u128`: its decimal text.
#[verifier::external_body]
fn u128_decimal(n: u128) -> (text: String)
    ensures
        text@ == decimal_text(n as nat),
{
    format!("{}", n)
}

/// A coin as a transaction carries it: denomination and decimal amount.
pub open spec fn proto_coin(c: Coin) -> (Seq<char>, Seq<char>) {
    (c.denom@, decimal_text(c.amount as nat))
}

/// Coins as a transaction carries them: sorted by denomination, each as
/// denomination and decimal amount.
pub open spec fn proto_coins(coins: Seq<Coin>) -> Seq<(Seq<char>, Seq<char>)> {
    sort_by_denom(coins).map_values(|c: Coin| proto_coin(c))
}

/// What `prost::Message::encode_to_vec` gives for a
/// `cosmos.bank.v1beta1.MsgSend` with these fields.
pub uninterp spec fn msg_send_bytes(
    from_address: Seq<char>,
    to_address: Seq<char>,
    amount: Seq<(Seq<char>, Seq<char>)>,
) -> Seq<u8>;

/// What `prost::Message::encode_to_vec` gives for a
/// `cosmwasm.wasm.v1.MsgExecuteContract` with these fields.
pub uninterp spec fn msg_execute_contract_bytes(
    sender: Seq<char>,
    contract: Seq<char>,
    msg: Seq<u8>,
    funds: Seq<(Seq<char>, Seq<char>)>,
) -> Seq<u8>;

/// What `prost::Message::encode_to_vec` gives for a
/// `cosmwasm.wasm.v1.MsgInstantiateContract` with these fields.
pub uninterp spec fn msg_instantiate_contract_bytes(
    sender: Seq<char>,
    admin: Seq<char>,
    code_id: u64,
    label: Seq<char>,
    msg: Seq<u8>,
    funds: Seq<(Seq<char>, Seq<char>)>,
) -> Seq<u8>;

/// What `prost::Message::encode_to_vec` gives for a
/// `cosmwasm.wasm.v1.MsgMigrateContract` with these fields.
pub uninterp spec fn msg_migrate_contract_bytes(
    sender: Seq<char>,
    contract: Seq<char>,
    code_id: u64,
    msg: Seq<u8>,
) -> Seq<u8>;

/// What `prost::Message::encode_to_vec` gives for a
/// `cosmwasm.wasm.v1.MsgUpdateAdmin` with these fields.
pub uninterp spec fn msg_update_admin_bytes(
    sender: Seq<char>,
    new_admin: Seq<char>,
    contract: Seq<char>,
) -> Seq<u8>;

/// What `prost::Message::encode_to_vec` gives for a
/// `cosmwasm.wasm.v1.MsgClearAdmin` with these fields.
pub uninterp spec fn msg_clear_admin_bytes(sender: Seq<char>, contract: Seq<char>) -> Seq<u8>;

/// Pairs of texts, by their characters.
pub open spec fn coin_pair_views(coins: Seq<(String, String)>) -> Seq<(Seq<char>, Seq<char>)> {
    coins.map_values(|p: (String, String)| (p.0@, p.1@))
}

/// Encodes a `MsgSend` built from these fields with `prost`. Encoding into
/// a growing vector cannot run out of room, so no error is kept.
#[verifier::external_body]
fn encode_msg_send(from_address: &str, to_address: &str, amount: &Vec<(String, String)>) -> (bytes:
    Vec<u8>)
    ensures
        bytes@ == msg_send_bytes(from_address@, to_address@, coin_pair_views(amount@)),
{
    MsgSend {
        from_address: from_address.to_string(),
        to_address: to_address.to_string(),
        amount: amount.iter().map(|(d, a)| ProtoCoin { denom: d.clone(), amount: a.clone() }).collect(),
    }.encode_to_vec()
}

/// Encodes a `MsgExecuteContract` built from these fields with `prost`.
#[verifier::external_body]
fn encode_msg_execute_contract(
    sender: &str,
    contract: &str,
    msg: &[u8],
    funds: &Vec<(String, String)>,
) -> (bytes: Vec<u8>)
    ensures
        bytes@ == msg_execute_contract_bytes(sender@, contract@, msg@, coin_pair_views(funds@)),
{
    MsgExecuteContract {
        sender: sender.to_string(),
        contract: contract.to_string(),
        msg: msg.to_vec(),
        funds: funds.iter().map(|(d, a)| ProtoCoin { denom: d.clone(), amount: a.clone() }).collect(),
    }.encode_to_vec()
}

/// Encodes a `MsgInstantiateContract` built from these fields with `prost`.
#[verifier::external_body]
fn encode_msg_instantiate_contract(
    sender: &str,
    admin: &str,
    code_id: u64,
    label: &str,
    msg: &[u8],
    funds: &Vec<(String, String)>,
) -> (bytes: Vec<u8>)
    ensures
        bytes@ == msg_instantiate_contract_bytes(
            sender@,
            admin@,
            code_id,
            label@,
            msg@,
            coin_pair_views(funds@),
        ),
{
    MsgInstantiateContract {
        sender: sender.to_string(),
        admin: admin.to_string(),
        code_id,
        label: label.to_string(),
        msg: msg.to_vec(),
        funds: funds.iter().map(|(d, a)| ProtoCoin { denom: d.clone(), amount: a.clone() }).collect(),
    }.encode_to_vec()
}

/// Encodes a `MsgMigrateContract` built from these fields with `prost`.
#[verifier::external_body]
fn encode_msg_migrate_contract(sender: &str, contract: &str, code_id: u64, msg: &[u8]) -> (bytes:
    Vec<u8>)
    ensures
        bytes@ == msg_migrate_contract_bytes(sender@, contract@, code_id, msg@),
{
    MsgMigrateContract {
        sender: sender.to_string(),
        contract: contract.to_string(),
        code_id,
        msg: msg.to_vec(),
    }.encode_to_vec()
}

/// Encodes a `MsgUpdateAdmin` built from these fields with `prost`.
#[verifier::external_body]
fn encode_msg_update_admin(sender: &str, new_admin: &str, contract: &str) -> (bytes: Vec<u8>)
    ensures
        bytes@ == msg_update_admin_bytes(sender@, new_admin@, contract@),
{
    MsgUpdateAdmin {
        sender: sender.to_string(),
        new_admin: new_admin.to_string(),
        contract: contract.to_string(),
    }.encode_to_vec()
}

/// Encodes a `MsgClearAdmin` built from these fields with `prost`.
#[verifier::external_body]
fn encode_msg_clear_admin(sender: &str, contract: &str) -> (bytes: Vec<u8>)
    ensures
        bytes@ == msg_clear_admin_bytes(sender@, contract@),
{
    MsgClearAdmin { sender: sender.to_string(), contract: contract.to_string() }.encode_to_vec()
}

/// Coins as a transaction carries them: sorted by denomination, each as its
/// denomination and decimal amount.
pub fn coins_to_proto(coins: &[Coin]) -> (proto: Vec<(String, String)>)
    ensures
        coin_pair_views(proto@) == proto_coins(coins@),
{
    let sorted = sort_coins_by_denom(coins);
    let mut proto: Vec<(String, String)> = Vec::new();
    for i in 0..sorted.len()
        invariant
            proto@.len() == i,
            coin_pair_views(proto@) == sorted@.take(i as int).map_values(|c: Coin| proto_coin(c)),
    {
        let c = &sorted[i];
        let ghost before = proto@;
        let pair = (c.denom.clone(), u128_decimal(c.amount));
        proto.push(pair);
        assert(sorted@.take(i + 1) =~= sorted@.take(i as int).push(sorted@[i as int]));
        assert forall|k: int| 0 <= k < i + 1 implies #[trigger] coin_pair_views(proto@)[k]
            == sorted@.take(i + 1).map_values(|c: Coin| proto_coin(c))[k] by {
            if k < i {
                assert(proto@[k] == before[k]);
                assert(coin_pair_views(before)[k] == sorted@.take(i as int).map_values(
                    |c: Coin| proto_coin(c),
                )[k]);
            } else {
                assert(proto@[k] == pair);
            }
        }
        assert(coin_pair_views(proto@) =~= sorted@.take(i + 1).map_values(
            |c: Coin| proto_coin(c),
        ));
    }
    assert(sorted@.take(sorted.len() as int) =~= sorted@);
    proto
}

/// A message that cannot be packed: packing stops (panics) on it.
pub open spec fn is_unpackable(m: CosmosMsg) -> bool {
    ||| m matches CosmosMsg::Bank(BankMsg::Other)
    ||| m matches CosmosMsg::Other
}

/// A message that is refused as unsupported.
pub open spec fn is_refused(m: CosmosMsg) -> bool {
    m matches CosmosMsg::Wasm(WasmMsg::Other)
}

/// The type URL and bytes that message `m`, sent by `signer`, is packed into.
pub open spec fn packed(m: CosmosMsg, signer: Seq<char>) -> (Seq<char>, Seq<u8>) {
    match m {
        CosmosMsg::Bank(BankMsg::Send { to_address, amount }) => (
            "/cosmos.bank.v1beta1.MsgSend"@,
            msg_send_bytes(signer, to_address@, proto_coins(amount@)),
        ),
        CosmosMsg::Wasm(WasmMsg::Execute { contract_addr, msg, funds }) => (
            "/cosmwasm.wasm.v1.MsgExecuteContract"@,
            msg_execute_contract_bytes(signer, contract_addr@, msg@, proto_coins(funds@)),
        ),
        CosmosMsg::Wasm(WasmMsg::Instantiate { admin, code_id, msg, funds, label }) => (
            "/cosmwasm.wasm.v1.MsgInstantiateContract"@,
            msg_instantiate_contract_bytes(
                signer,
                match admin {
                    Some(a) => a@,
                    None => Seq::<char>::empty(),
                },
                code_id,
                label@,
                msg@,
                proto_coins(funds@),
            ),
        ),
        CosmosMsg::Wasm(WasmMsg::Migrate { contract_addr, new_code_id, msg }) => (
            "/cosmwasm.wasm.v1.MsgMigrateContract"@,
            msg_migrate_contract_bytes(signer, contract_addr@, new_code_id, msg@),
        ),
        CosmosMsg::Wasm(WasmMsg::UpdateAdmin { contract_addr, admin }) => (
            "/cosmwasm.wasm.v1.MsgUpdateAdmin"@,
            msg_update_admin_bytes(signer, admin@, contract_addr@),
        ),
        CosmosMsg::Wasm(WasmMsg::ClearAdmin { contract_addr }) => (
            "/cosmwasm.wasm.v1.MsgClearAdmin"@,
            msg_clear_admin_bytes(signer, contract_addr@),
        ),
        CosmosMsg::Stargate { type_url, value } => (type_url@, value@),
        CosmosMsg::Any(a) => (a.type_url@, a.value@),
        _ => (Seq::<char>::empty(), Seq::<u8>::empty()),
    }
}

/// `cs` holds the coins of `coins` as the chain accepts them: sorted by
/// denomination, the same coins, and the coins of any one denomination in the
/// order they were given.
pub open spec fn is_chain_arrangement(cs: Seq<Coin>, coins: Seq<Coin>) -> bool {
    &&& is_sorted_by_denom(cs)
    &&& cs.to_multiset() == coins.to_multiset()
    &&& forall|key: Seq<u8>| with_denom(cs, key) == with_denom(coins, key)
}

/// Coins as denomination and decimal amount, in their order.
pub open spec fn denom_amount_pairs(cs: Seq<Coin>) -> Seq<(Seq<char>, Seq<char>)> {
    cs.map_values(|c: Coin| (c.denom@, decimal_text(c.amount as nat)))
}

/// Every message that carries coins (a bank send's amount, a wasm execute's
/// or instantiate's funds) carries them sorted by denomination: the coin list
/// written into the packed bytes is a sorted, stable rearrangement of the
/// coins given, each as its denomination and decimal amount.
pub proof fn lemma_packed_coins_sorted(m: CosmosMsg, signer: Seq<char>)
    ensures
        m matches CosmosMsg::Bank(BankMsg::Send { to_address, amount }) ==> exists|cs: Seq<Coin>|
            #[trigger] is_chain_arrangement(cs, amount@) && packed(m, signer).1 == msg_send_bytes(
                signer,
                to_address@,
                denom_amount_pairs(cs),
            ),
        m matches CosmosMsg::Wasm(WasmMsg::Execute { contract_addr, msg, funds }) ==> exists|
            cs: Seq<Coin>,
        |
            #[trigger] is_chain_arrangement(cs, funds@) && packed(m, signer).1
                == msg_execute_contract_bytes(
                signer,
                contract_addr@,
                msg@,
                denom_amount_pairs(cs),
            ),
        m matches CosmosMsg::Wasm(WasmMsg::Instantiate { admin, code_id, msg, funds, label })
            ==> exists|cs: Seq<Coin>|
            #[trigger] is_chain_arrangement(cs, funds@) && packed(m, signer).1
                == msg_instantiate_contract_bytes(
                signer,
                match admin {
                    Some(a) => a@,
                    None => Seq::<char>::empty(),
                },
                code_id,
                label@,
                msg@,
                denom_amount_pairs(cs),
            ),
{
    let coins = match m {
        CosmosMsg::Bank(BankMsg::Send { amount, .. }) => amount@,
        CosmosMsg::Wasm(WasmMsg::Execute { funds, .. }) => funds@,
        CosmosMsg::Wasm(WasmMsg::Instantiate { funds, .. }) => funds@,
        _ => Seq::<Coin>::empty(),
    };
    let cs = sort_by_denom(coins);
    lemma_sort_sorted(coins);
    lemma_sort_permutation(coins);
    assert forall|key: Seq<u8>| with_denom(cs, key) == with_denom(coins, key) by {
        lemma_sort_stable(coins, key);
    }
    assert(is_chain_arrangement(cs, coins));
    assert(proto_coins(coins) =~= denom_amount_pairs(cs));
}

/// `a` is what `m`, sent by `signer`, is packed into.
pub open spec fn is_packing_of(a: AnyMsg, m: CosmosMsg, signer: Seq<char>) -> bool {
    a.type_url@ == packed(m, signer).0 && a.value@ == packed(m, signer).1
}

/// The error by which an unsupported wasm message is refused.
pub open spec fn is_unsupported_wasm_error(e: RunnerError) -> bool {
    e matches RunnerError::ExecuteError { msg } && msg@ == "Unsupported WasmMsg"@
}

/// Packs one message sent by `signer` for a transaction.
pub fn cosmos_msg_to_any(m: &CosmosMsg, signer: &str) -> (any: Result<AnyMsg, RunnerError>)
    requires
        !is_unpackable(*m),
    ensures
        is_refused(*m) ==> (any matches Err(e) && is_unsupported_wasm_error(e)),
        !is_refused(*m) ==> (any matches Ok(a) && is_packing_of(a, *m, signer@)),
{
    match m {
        CosmosMsg::Bank(BankMsg::Send { to_address, amount }) => {
            let coins = coins_to_proto(amount.as_slice());
            let packed_msg = AnyMsg {
                type_url: "/cosmos.bank.v1beta1.MsgSend".to_owned(),
                value: encode_msg_send(signer, to_address.as_str(), &coins),
            };
            Ok(packed_msg)
        },
        CosmosMsg::Wasm(WasmMsg::Execute { contract_addr, msg, funds }) => {
            let coins = coins_to_proto(funds.as_slice());
            let packed_msg = AnyMsg {
                type_url: "/cosmwasm.wasm.v1.MsgExecuteContract".to_owned(),
                value: encode_msg_execute_contract(
                    signer,
                    contract_addr.as_str(),
                    msg.as_slice(),
                    &coins,
                ),
            };
            Ok(packed_msg)
        },
        CosmosMsg::Wasm(WasmMsg::Instantiate { admin, code_id, msg, funds, label }) => {
            let coins = coins_to_proto(funds.as_slice());
            let admin_text: &str = match admin {
                Some(a) => a.as_str(),
                None => {
                    proof {
                        reveal_strlit("");
                    }
                    let empty = "";
                    assert(empty@ =~= Seq::<char>::empty());
                    empty
                },
            };
            let packed_msg = AnyMsg {
                type_url: "/cosmwasm.wasm.v1.MsgInstantiateContract".to_owned(),
                value: encode_msg_instantiate_contract(
                    signer,
                    admin_text,
                    *code_id,
                    label.as_str(),
                    msg.as_slice(),
                    &coins,
                ),
            };
            Ok(packed_msg)
        },
        CosmosMsg::Wasm(WasmMsg::Migrate { contract_addr, new_code_id, msg }) => {
            let packed_msg = AnyMsg {
                type_url: "/cosmwasm.wasm.v1.MsgMigrateContract".to_owned(),
                value: encode_msg_migrate_contract(
                    signer,
                    contract_addr.as_str(),
                    *new_code_id,
                    msg.as_slice(),
                ),
            };
            Ok(packed_msg)
        },
        CosmosMsg::Wasm(WasmMsg::UpdateAdmin { contract_addr, admin }) => {
            let packed_msg = AnyMsg {
                type_url: "/cosmwasm.wasm.v1.MsgUpdateAdmin".to_owned(),
                value: encode_msg_update_admin(signer, admin.as_str(), contract_addr.as_str()),
            };
            Ok(packed_msg)
        },
        CosmosMsg::Wasm(WasmMsg::ClearAdmin { contract_addr }) => {
            let packed_msg = AnyMsg {
                type_url: "/cosmwasm.wasm.v1.MsgClearAdmin".to_owned(),
                value: encode_msg_clear_admin(signer, contract_addr.as_str()),
            };
            Ok(packed_msg)
        },
        CosmosMsg::Wasm(WasmMsg::Other) => {
            Err(RunnerError::ExecuteError { msg: "Unsupported WasmMsg".to_owned() })
        },
        CosmosMsg::Stargate { type_url, value } => {
            Ok(AnyMsg { type_url: type_url.clone(), value: slice_to_vec(value.as_slice()) })
        },
        CosmosMsg::Any(a) => {
            Ok(AnyMsg { type_url: a.type_url.clone(), value: slice_to_vec(a.value.as_slice()) })
        },
        _ => {
            proof {
                assert(false);
            }
            Err(RunnerError::GenericError(String::new()))
        },
    }
}

/// Packing a list stops (panics) on it: an unpackable message comes before
/// any refused one.
pub open spec fn stops_at_unpackable(msgs: Seq<CosmosMsg>) -> bool {
    exists|i: int|
        0 <= i < msgs.len() && #[trigger] is_unpackable(msgs[i]) && forall|j: int|
            0 <= j < i ==> !is_refused(#[trigger] msgs[j])
}

/// Packs the messages that a contract sends, signed by `signer`, for one
/// transaction, in their order. The first unsupported wasm message refuses
/// the whole list.
pub fn cosmos_msgs_to_any(msgs: &[CosmosMsg], signer: &str) -> (packed: Result<
    Vec<AnyMsg>,
    RunnerError,
>)
    requires
        !stops_at_unpackable(msgs@),
    ensures
        packed is Ok <==> forall|i: int| 0 <= i < msgs@.len() ==> !is_refused(#[trigger] msgs@[i]),
        packed matches Ok(v) ==> v@.len() == msgs@.len() && forall|i: int|
            0 <= i < msgs@.len() ==> is_packing_of(#[trigger] v@[i], msgs@[i], signer@),
        packed matches Err(e) ==> is_unsupported_wasm_error(e),
{
    let mut out: Vec<AnyMsg> = Vec::new();
    for i in 0..msgs.len()
        invariant
            !stops_at_unpackable(msgs@),
            out@.len() == i,
            forall|k: int| 0 <= k < i ==> !is_refused(#[trigger] msgs@[k]),
            forall|k: int| 0 <= k < i ==> is_packing_of(#[trigger] out@[k], msgs@[k], signer@),
    {
        proof {
            if is_unpackable(msgs@[i as int]) {
                assert(stops_at_unpackable(msgs@));
            }
        }
        match cosmos_msg_to_any(&msgs[i], signer) {
            Ok(a) => {
                out.push(a);
            },
            Err(e) => {
                assert(!(forall|k: int| 0 <= k < msgs@.len() ==> !is_refused(#[trigger] msgs@[k])));
                return Err(e);
            },
        }
    }
    Ok(out)
}

} // verus!
