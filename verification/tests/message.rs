use cosmrs::proto::cosmos::bank::v1beta1::MsgSend;
use cosmrs::proto::cosmos::base::v1beta1::Coin as ProtoCoin;
use cosmrs::proto::cosmwasm::wasm::v1::{
    MsgClearAdmin, MsgExecuteContract, MsgInstantiateContract, MsgMigrateContract, MsgUpdateAdmin,
};
use prost::Message;

use neutron_test_tube::coin::Coin;
use neutron_test_tube::error::RunnerError;
use neutron_test_tube::message::{
    coins_to_proto, cosmos_msg_to_any, cosmos_msgs_to_any, AnyMsg, BankMsg, CosmosMsg, WasmMsg,
};

const SIGNER: &str = "neutron1signer";

fn coin(amount: u128, denom: &str) -> Coin {
    Coin::new(amount, denom.to_string())
}

fn proto(amount: &str, denom: &str) -> ProtoCoin {
    ProtoCoin {
        denom: denom.to_string(),
        amount: amount.to_string(),
    }
}

#[test]
fn proto_coins_are_sorted_decimal() {
    let coins = coins_to_proto(&[coin(100, "untrn"), coin(0, "uatom"), coin(u128::MAX, "b")]);
    assert_eq!(
        coins,
        vec![
            ("b".to_string(), u128::MAX.to_string()),
            ("uatom".to_string(), "0".to_string()),
            ("untrn".to_string(), "100".to_string()),
        ]
    );
}

#[test]
fn bank_send_is_packed_from_the_signer() {
    let msg = CosmosMsg::Bank(BankMsg::Send {
        to_address: "neutron1to".to_string(),
        amount: vec![coin(100, "untrn"), coin(5, "uatom")],
    });
    let any = cosmos_msg_to_any(&msg, SIGNER).unwrap();
    assert_eq!(any.type_url, "/cosmos.bank.v1beta1.MsgSend");
    let expected = MsgSend {
        from_address: SIGNER.to_string(),
        to_address: "neutron1to".to_string(),
        amount: vec![proto("5", "uatom"), proto("100", "untrn")],
    };
    assert_eq!(any.value, expected.encode_to_vec());
}

#[test]
fn wasm_messages_are_packed() {
    let execute = CosmosMsg::Wasm(WasmMsg::Execute {
        contract_addr: "neutron1c".to_string(),
        msg: b"{\"freeze\":{}}".to_vec(),
        funds: vec![coin(1, "untrn")],
    });
    let any = cosmos_msg_to_any(&execute, SIGNER).unwrap();
    assert_eq!(any.type_url, "/cosmwasm.wasm.v1.MsgExecuteContract");
    assert_eq!(
        any.value,
        MsgExecuteContract {
            sender: SIGNER.to_string(),
            contract: "neutron1c".to_string(),
            msg: b"{\"freeze\":{}}".to_vec(),
            funds: vec![proto("1", "untrn")],
        }
        .encode_to_vec()
    );

    let instantiate = CosmosMsg::Wasm(WasmMsg::Instantiate {
        admin: None,
        code_id: 1,
        msg: b"{}".to_vec(),
        funds: vec![],
        label: "test".to_string(),
    });
    let any = cosmos_msg_to_any(&instantiate, SIGNER).unwrap();
    assert_eq!(any.type_url, "/cosmwasm.wasm.v1.MsgInstantiateContract");
    assert_eq!(
        any.value,
        MsgInstantiateContract {
            sender: SIGNER.to_string(),
            admin: String::new(),
            code_id: 1,
            label: "test".to_string(),
            msg: b"{}".to_vec(),
            funds: vec![],
        }
        .encode_to_vec()
    );

    let instantiate_with_admin = CosmosMsg::Wasm(WasmMsg::Instantiate {
        admin: Some("neutron1admin".to_string()),
        code_id: 2,
        msg: vec![],
        funds: vec![coin(3, "untrn")],
        label: "l".to_string(),
    });
    let any = cosmos_msg_to_any(&instantiate_with_admin, SIGNER).unwrap();
    assert_eq!(
        any.value,
        MsgInstantiateContract {
            sender: SIGNER.to_string(),
            admin: "neutron1admin".to_string(),
            code_id: 2,
            label: "l".to_string(),
            msg: vec![],
            funds: vec![proto("3", "untrn")],
        }
        .encode_to_vec()
    );

    let migrate = CosmosMsg::Wasm(WasmMsg::Migrate {
        contract_addr: "neutron1c".to_string(),
        new_code_id: 9,
        msg: b"{}".to_vec(),
    });
    let any = cosmos_msg_to_any(&migrate, SIGNER).unwrap();
    assert_eq!(any.type_url, "/cosmwasm.wasm.v1.MsgMigrateContract");
    assert_eq!(
        any.value,
        MsgMigrateContract {
            sender: SIGNER.to_string(),
            contract: "neutron1c".to_string(),
            code_id: 9,
            msg: b"{}".to_vec(),
        }
        .encode_to_vec()
    );

    let update = CosmosMsg::Wasm(WasmMsg::UpdateAdmin {
        contract_addr: "neutron1c".to_string(),
        admin: "neutron1new".to_string(),
    });
    let any = cosmos_msg_to_any(&update, SIGNER).unwrap();
    assert_eq!(any.type_url, "/cosmwasm.wasm.v1.MsgUpdateAdmin");
    assert_eq!(
        any.value,
        MsgUpdateAdmin {
            sender: SIGNER.to_string(),
            new_admin: "neutron1new".to_string(),
            contract: "neutron1c".to_string(),
        }
        .encode_to_vec()
    );

    let clear = CosmosMsg::Wasm(WasmMsg::ClearAdmin {
        contract_addr: "neutron1c".to_string(),
    });
    let any = cosmos_msg_to_any(&clear, SIGNER).unwrap();
    assert_eq!(any.type_url, "/cosmwasm.wasm.v1.MsgClearAdmin");
    assert_eq!(
        any.value,
        MsgClearAdmin {
            sender: SIGNER.to_string(),
            contract: "neutron1c".to_string(),
        }
        .encode_to_vec()
    );
}

#[test]
fn raw_messages_pass_through() {
    let stargate = CosmosMsg::Stargate {
        type_url: "/osmosis.tokenfactory.v1beta1.MsgCreateDenom".to_string(),
        value: vec![1, 2, 3],
    };
    let any = cosmos_msg_to_any(&stargate, SIGNER).unwrap();
    assert_eq!(any.type_url, "/osmosis.tokenfactory.v1beta1.MsgCreateDenom");
    assert_eq!(any.value, vec![1u8, 2, 3]);

    let packed = CosmosMsg::Any(AnyMsg {
        type_url: "/x.y".to_string(),
        value: vec![9],
    });
    let any = cosmos_msg_to_any(&packed, SIGNER).unwrap();
    assert_eq!(any.type_url, "/x.y");
    assert_eq!(any.value, vec![9u8]);
}

#[test]
fn unsupported_wasm_message_is_refused() {
    match cosmos_msg_to_any(&CosmosMsg::Wasm(WasmMsg::Other), SIGNER) {
        Err(RunnerError::ExecuteError { msg }) => assert_eq!(msg, "Unsupported WasmMsg"),
        other => panic!("unexpected {:?}", other),
    }
}

#[test]
fn lists_are_packed_in_order() {
    let msgs = vec![
        CosmosMsg::Stargate {
            type_url: "/a".to_string(),
            value: vec![1],
        },
        CosmosMsg::Any(AnyMsg {
            type_url: "/b".to_string(),
            value: vec![2],
        }),
    ];
    let anys = cosmos_msgs_to_any(&msgs, SIGNER).unwrap();
    assert_eq!(anys.len(), 2);
    assert_eq!(anys[0].type_url, "/a");
    assert_eq!(anys[1].type_url, "/b");
    assert_eq!(anys[1].value, vec![2u8]);
}

#[test]
fn a_refused_message_refuses_the_list_before_an_unpackable_one() {
    let msgs = vec![
        CosmosMsg::Stargate {
            type_url: "/a".to_string(),
            value: vec![],
        },
        CosmosMsg::Wasm(WasmMsg::Other),
        CosmosMsg::Other,
    ];
    match cosmos_msgs_to_any(&msgs, SIGNER) {
        Err(RunnerError::ExecuteError { msg }) => assert_eq!(msg, "Unsupported WasmMsg"),
        other => panic!("unexpected {:?}", other.is_ok()),
    }
}

#[test]
fn no_messages_pack_to_none() {
    assert!(cosmos_msgs_to_any(&[], SIGNER).unwrap().is_empty());
}
