use cosmwasm_std::testing::MockApi;
use cosmwasm_std::to_json_binary;
use cosmwasm_std::Api;
use cosmwasm_std::Uint128;
use cw20::Cw20ExecuteMsg;
use cw20_base::msg::InstantiateMsg;
use cw_asset::reply::parse_event_attribute;
use cw_asset::reply::unwrap_reply;
use cw_asset::token::parse_received_fund;
use cw_asset::token::reply_save_token;
use cw_asset::token::save_cw20_address;
use cw_asset::token::save_osmosis_denom;
use cw_asset::token::SavedToken;
use cw_asset::token::REPLY_SAVE_CW20_ADDRESS;
use cw_asset::token::REPLY_SAVE_OSMOSIS_DENOM;
use cw_asset::token::TOKEN_ITEM_KEY;
use cw_asset::Addr;
use cw_asset::AssetInfo;
use cw_asset::Attribute;
use cw_asset::BalanceQuery;
use cw_asset::Coin;
use cw_asset::Cw20AssetInstantiator;
use cw_asset::Cw20Coin;
use cw_asset::Cw20InstantiateMsg;
use cw_asset::Cw20Logo;
use cw_asset::Cw20MarketingInfo;
use cw_asset::Cw20Minter;
use cw_asset::CwAssetError;
use cw_asset::Env;
use cw_asset::Event;
use cw_asset::FundsMismatch;
use cw_asset::Instantiate;
use cw_asset::MessageInfo;
use cw_asset::OsmosisCreateDenomMsg;
use cw_asset::OsmosisDenomInstantiator;
use cw_asset::OutboundMsg;
use cw_asset::Reply;
use cw_asset::ReplyOn;
use cw_asset::SavedAsset;
use cw_asset::SubMsg;
use cw_asset::SubMsgResponse;
use cw_asset::Token;
use cw_asset::TokenInitInfo;
use cw_asset::TokenInstantiator;

fn validate(raw: &String) -> Result<Addr, String> {
    MockApi::default()
        .addr_validate(raw)
        .map(|addr| Addr::unchecked(addr.as_str()))
        .map_err(|e| e.to_string())
}

fn env() -> Env {
    Env { contract_address: Addr::unchecked("vault") }
}

fn attr(key: &str, value: &str) -> Attribute {
    Attribute { key: key.to_string(), value: value.to_string() }
}

fn event(ty: &str, attributes: Vec<Attribute>) -> Event {
    Event { ty: ty.to_string(), attributes }
}

fn success(id: u64, events: Vec<Event>) -> Reply {
    Reply { id, result: Ok(SubMsgResponse { events, data: None }) }
}

fn init_msg() -> Cw20InstantiateMsg {
    Cw20InstantiateMsg {
        name: String::from("Vault Token"),
        symbol: String::from("VT"),
        decimals: 6,
        initial_balances: vec![],
        mint: None,
        marketing: None,
    }
}

fn outside_init_msg() -> InstantiateMsg {
    InstantiateMsg {
        name: String::from("Vault Token"),
        symbol: String::from("VT"),
        decimals: 6,
        initial_balances: vec![],
        mint: None,
        marketing: None,
    }
}

fn instantiation_payload(init: Cw20InstantiateMsg) -> Vec<u8> {
    let request = TokenInstantiator {
        item_key: String::from("k"),
        init_info: TokenInitInfo::Cw20 {
            label: String::from("l"),
            admin: None,
            code_id: 1,
            cw20_init_msg: Box::new(init),
        },
    };
    match request.instantiate(&env()).unwrap().msg.msg {
        OutboundMsg::WasmInstantiate { msg, .. } => msg,
        other => panic!("unexpected message: {:?}", other),
    }
}

#[test]
fn tags_are_distinct() {
    assert_eq!(REPLY_SAVE_OSMOSIS_DENOM, 14508);
    assert_eq!(REPLY_SAVE_CW20_ADDRESS, 14509);
    assert_eq!(TOKEN_ITEM_KEY, "token_item_key");
}

#[test]
fn request_for_a_ledger_denom() {
    let request = TokenInstantiator {
        item_key: String::from("vault_token"),
        init_info: TokenInitInfo::Osmosis { subdenom: String::from("share") },
    };
    let provision = request.instantiate(&env()).unwrap();
    assert_eq!(provision.item_key, "vault_token");
    assert_eq!(
        provision.msg,
        SubMsg {
            reply_on: ReplyOn::Always,
            id: 14508,
            msg: OutboundMsg::CreateDenom {
                body: OsmosisCreateDenomMsg {
                    sender: String::from("vault"),
                    subdenom: String::from("share"),
                }
            }
        }
    );
}

#[test]
fn request_for_a_token_contract() {
    let request = TokenInstantiator {
        item_key: String::from("vault_token"),
        init_info: TokenInitInfo::Cw20 {
            label: String::from("vault token"),
            admin: Some(String::from("admin")),
            code_id: 17,
            cw20_init_msg: Box::new(init_msg()),
        },
    };
    let provision = request.instantiate(&env()).unwrap();
    assert_eq!(provision.item_key, "vault_token");
    assert_eq!(
        provision.msg,
        SubMsg {
            reply_on: ReplyOn::Always,
            id: 14509,
            msg: OutboundMsg::WasmInstantiate {
                admin: Some(String::from("admin")),
                code_id: 17,
                msg: to_json_binary(&outside_init_msg()).unwrap().0,
                funds: vec![],
                label: String::from("vault token"),
            }
        }
    );
}

#[test]
fn requests_through_the_trait() {
    let denom: OsmosisDenomInstantiator = String::from("share");
    assert_eq!(
        denom.instantiate_msg(&env()),
        Ok(SubMsg {
            reply_on: ReplyOn::Always,
            id: 14508,
            msg: OutboundMsg::CreateDenom {
                body: OsmosisCreateDenomMsg {
                    sender: String::from("vault"),
                    subdenom: String::from("share"),
                }
            }
        })
    );
    let token = Cw20AssetInstantiator {
        label: String::from("vault token"),
        admin: None,
        code_id: 3,
        cw20_init_msg: init_msg(),
    };
    assert_eq!(
        token.instantiate_msg(&env()),
        Ok(SubMsg {
            reply_on: ReplyOn::Always,
            id: 14509,
            msg: OutboundMsg::WasmInstantiate {
                admin: None,
                code_id: 3,
                msg: to_json_binary(&outside_init_msg()).unwrap().0,
                funds: vec![],
                label: String::from("vault token"),
            }
        })
    );
}

#[test]
fn reply_with_a_new_denom() {
    let reply = success(
        14508,
        vec![
            event("message", vec![attr("action", "create_denom")]),
            event(
                "create_denom",
                vec![attr("creator", "vault"), attr("new_token_denom", "factory/vault/share")],
            ),
        ],
    );
    assert_eq!(
        reply_save_token(&validate, reply, String::from("vault_token")),
        Ok(SavedToken {
            item_key: String::from("vault_token"),
            token: Token::Osmosis { denom: String::from("factory/vault/share") },
            attributes: vec![
                attr("action", "save_osmosis_denom"),
                attr("denom", "factory/vault/share")
            ],
        })
    );
}

#[test]
fn reply_with_a_new_contract() {
    let reply = success(
        14509,
        vec![event(
            "instantiate",
            vec![attr("code_id", "17"), attr("_contract_address", "new_token")],
        )],
    );
    assert_eq!(
        reply_save_token(&validate, reply, String::from("vault_token")),
        Ok(SavedToken {
            item_key: String::from("vault_token"),
            token: Token::Cw20 { address: Addr::unchecked("new_token") },
            attributes: vec![attr("action", "save_osmosis_denom"), attr("addr", "new_token")],
        })
    );
}

#[test]
fn reply_with_an_unknown_tag() {
    let reply = success(
        1,
        vec![event("create_denom", vec![attr("new_token_denom", "factory/vault/share")])],
    );
    assert_eq!(
        reply_save_token(&validate, reply, String::from("vault_token")),
        Err(CwAssetError::UnknownReplyTag { id: 1 })
    );
    let reply = success(14510, vec![]);
    assert_eq!(
        reply_save_token(&validate, reply, String::from("vault_token")),
        Err(CwAssetError::UnknownReplyTag { id: 14510 })
    );
}

#[test]
fn reply_without_the_attribute() {
    let reply = success(14508, vec![event("create_denom", vec![attr("creator", "vault")])]);
    assert_eq!(
        reply_save_token(&validate, reply, String::from("vault_token")),
        Err(CwAssetError::MalformedCallback { missing: String::from("new_token_denom") })
    );
}

#[test]
fn reply_without_the_event() {
    let reply = success(
        14508,
        vec![event("instantiate", vec![attr("new_token_denom", "factory/vault/share")])],
    );
    assert_eq!(
        reply_save_token(&validate, reply, String::from("vault_token")),
        Err(CwAssetError::MalformedCallback { missing: String::from("create_denom") })
    );
    let reply = success(14509, vec![]);
    assert_eq!(
        reply_save_token(&validate, reply, String::from("vault_token")),
        Err(CwAssetError::MalformedCallback { missing: String::from("instantiate") })
    );
}

#[test]
fn reply_that_reports_failure() {
    for id in [14508, 14509, 7] {
        let reply = Reply { id, result: Err(String::from("out of gas")) };
        assert_eq!(
            reply_save_token(&validate, reply, String::from("vault_token")),
            Err(CwAssetError::ProvisioningFailed { reason: String::from("out of gas") })
        );
    }
}

#[test]
fn reply_with_an_address_that_is_turned_down() {
    let reply = success(14509, vec![event("instantiate", vec![attr("_contract_address", "x")])]);
    let r = reply_save_token(&validate, reply, String::from("vault_token"));
    match r {
        Err(CwAssetError::InvalidAddress { address, .. }) => assert_eq!(address, "x"),
        other => panic!("unexpected result: {:?}", other),
    }
}

#[test]
fn only_the_first_event_of_the_type_counts() {
    let response = SubMsgResponse {
        events: vec![
            event("instantiate", vec![attr("code_id", "1")]),
            event("instantiate", vec![attr("_contract_address", "late_token")]),
        ],
        data: None,
    };
    assert_eq!(
        parse_event_attribute(&response, "instantiate", "_contract_address"),
        Err(CwAssetError::MalformedCallback { missing: String::from("_contract_address") })
    );
    let response = SubMsgResponse {
        events: vec![event(
            "instantiate",
            vec![attr("_contract_address", "first"), attr("_contract_address", "second")],
        )],
        data: None,
    };
    assert_eq!(
        parse_event_attribute(&response, "instantiate", "_contract_address"),
        Ok(String::from("first"))
    );
}

#[test]
fn unwrapping_a_reply() {
    let response = SubMsgResponse { events: vec![], data: Some(vec![1, 2]) };
    assert_eq!(
        unwrap_reply(Reply { id: 1, result: Ok(response.clone()) }),
        Ok(response)
    );
    assert_eq!(
        unwrap_reply(Reply { id: 1, result: Err(String::from("bad")) }),
        Err(CwAssetError::ProvisioningFailed { reason: String::from("bad") })
    );
}

#[test]
fn saving_by_kind() {
    let response = SubMsgResponse {
        events: vec![
            event("create_denom", vec![attr("new_token_denom", "factory/vault/share")]),
            event("instantiate", vec![attr("_contract_address", "new_token")]),
        ],
        data: None,
    };
    assert_eq!(
        save_osmosis_denom(&response, String::from("k")).unwrap().token,
        Token::Osmosis { denom: String::from("factory/vault/share") }
    );
    assert_eq!(
        save_cw20_address(&validate, &response, String::from("k")).unwrap().token,
        Token::Cw20 { address: Addr::unchecked("new_token") }
    );
}

#[test]
fn saving_through_the_trait() {
    let reply = success(
        14508,
        vec![event("create_denom", vec![attr("new_token_denom", "factory/vault/share")])],
    );
    assert_eq!(
        OsmosisDenomInstantiator::save_asset(&validate, reply),
        Ok(SavedAsset {
            asset_info: AssetInfo::native("factory/vault/share"),
            attributes: vec![
                attr("action", "save_osmosis_denom"),
                attr("denom", "factory/vault/share")
            ],
        })
    );
    let reply = success(14509, vec![event("instantiate", vec![attr("_contract_address", "new_token")])]);
    assert_eq!(
        Cw20AssetInstantiator::save_asset(&validate, reply),
        Ok(SavedAsset {
            asset_info: AssetInfo::cw20(Addr::unchecked("new_token")),
            attributes: vec![attr("action", "save_osmosis_denom"), attr("addr", "new_token")],
        })
    );
    let reply = success(14508, vec![event("instantiate", vec![attr("_contract_address", "new_token")])]);
    assert_eq!(
        Cw20AssetInstantiator::save_asset(&validate, reply),
        Err(CwAssetError::UnknownReplyTag { id: 14508 })
    );
    let reply = success(14509, vec![]);
    assert_eq!(
        OsmosisDenomInstantiator::save_asset(&validate, reply),
        Err(CwAssetError::UnknownReplyTag { id: 14509 })
    );
    let reply = Reply { id: 14509, result: Err(String::from("no such code")) };
    assert_eq!(
        Cw20AssetInstantiator::save_asset(&validate, reply),
        Err(CwAssetError::ProvisioningFailed { reason: String::from("no such code") })
    );
}

#[test]
fn token_as_text_and_as_kind() {
    let denom = Token::Osmosis { denom: String::from("factory/vault/share") };
    let cw20 = Token::Cw20 { address: Addr::unchecked("new_token") };
    assert_eq!(denom.to_string(), "factory/vault/share");
    assert_eq!(cw20.to_string(), "new_token");
    assert_eq!(denom.asset_info(), AssetInfo::native("factory/vault/share"));
    assert_eq!(cw20.asset_info(), AssetInfo::cw20(Addr::unchecked("new_token")));
}

#[test]
fn token_instructions() {
    let denom = Token::Osmosis { denom: String::from("factory/vault/share") };
    let cw20 = Token::Cw20 { address: Addr::unchecked("new_token") };
    let share = Coin { denom: String::from("factory/vault/share"), amount: 5 };

    assert_eq!(
        denom.mint(&env(), 5, "alice"),
        Ok(OutboundMsg::MintDenom { coin: share.clone(), sender: String::from("vault") })
    );
    assert_eq!(
        cw20.mint(&env(), 5, "alice"),
        Ok(OutboundMsg::WasmExecute {
            contract_addr: String::from("new_token"),
            msg: to_json_binary(&Cw20ExecuteMsg::Mint {
                recipient: String::from("alice"),
                amount: Uint128::new(5)
            })
            .unwrap()
            .0,
            funds: vec![],
        })
    );
    assert_eq!(
        denom.burn(&env(), 5),
        Ok(OutboundMsg::BurnDenom { coin: share.clone(), sender: String::from("vault") })
    );
    assert_eq!(
        cw20.burn(&env(), 5),
        Ok(OutboundMsg::WasmExecute {
            contract_addr: String::from("new_token"),
            msg: to_json_binary(&Cw20ExecuteMsg::Burn { amount: Uint128::new(5) }).unwrap().0,
            funds: vec![],
        })
    );
    assert_eq!(
        denom.transfer(&env(), 5, "alice"),
        Ok(OutboundMsg::BankSend { to_address: String::from("alice"), amount: vec![share] })
    );
    assert_eq!(
        cw20.transfer(&env(), 5, "alice"),
        Ok(OutboundMsg::WasmExecute {
            contract_addr: String::from("new_token"),
            msg: to_json_binary(&Cw20ExecuteMsg::Transfer {
                recipient: String::from("alice"),
                amount: Uint128::new(5)
            })
            .unwrap()
            .0,
            funds: vec![],
        })
    );
}

#[test]
fn received_funds() {
    let coin = |denom: &str, amount: u128| Coin { denom: denom.to_string(), amount };
    assert_eq!(parse_received_fund(&vec![coin("uusd", 5)], "uusd"), Ok(5));
    assert_eq!(
        parse_received_fund(&vec![], "uusd"),
        Err(CwAssetError::UnexpectedFunds { mismatch: FundsMismatch::CoinCount { received: 0 } })
    );
    assert_eq!(
        parse_received_fund(&vec![coin("uusd", 5), coin("uluna", 5)], "uusd"),
        Err(CwAssetError::UnexpectedFunds { mismatch: FundsMismatch::CoinCount { received: 2 } })
    );
    assert_eq!(
        parse_received_fund(&vec![coin("uluna", 5)], "uusd"),
        Err(CwAssetError::UnexpectedFunds { mismatch: FundsMismatch::Denom })
    );
    assert_eq!(
        parse_received_fund(&vec![coin("uusd", 0)], "uusd"),
        Err(CwAssetError::UnexpectedFunds { mismatch: FundsMismatch::ZeroAmount })
    );
    // the denom is looked at before the amount
    assert_eq!(
        parse_received_fund(&vec![coin("uluna", 0)], "uusd"),
        Err(CwAssetError::UnexpectedFunds { mismatch: FundsMismatch::Denom })
    );
}

#[test]
fn asserting_received_tokens() {
    let denom = Token::Osmosis { denom: String::from("share") };
    let cw20 = Token::Cw20 { address: Addr::unchecked("new_token") };
    let info = MessageInfo {
        sender: Addr::unchecked("alice"),
        funds: vec![Coin { denom: String::from("share"), amount: 5 }],
    };
    assert_eq!(denom.assert_received_token(&env(), &info, 5), Ok(None));
    assert_eq!(
        denom.assert_received_token(&env(), &info, 6),
        Err(CwAssetError::UnexpectedFunds { mismatch: FundsMismatch::Amount })
    );
    let empty = MessageInfo { sender: Addr::unchecked("alice"), funds: vec![] };
    assert_eq!(
        denom.assert_received_token(&env(), &empty, 5),
        Err(CwAssetError::UnexpectedFunds { mismatch: FundsMismatch::CoinCount { received: 0 } })
    );
    assert_eq!(
        cw20.assert_received_token(&env(), &empty, 5),
        Ok(Some(OutboundMsg::WasmExecute {
            contract_addr: String::from("new_token"),
            msg: to_json_binary(&Cw20ExecuteMsg::TransferFrom {
                owner: String::from("alice"),
                recipient: String::from("vault"),
                amount: Uint128::new(5)
            })
            .unwrap()
            .0,
            funds: vec![],
        }))
    );
}

#[test]
fn token_balances() {
    let querier = |q: &BalanceQuery| -> Result<u128, String> {
        match q {
            BalanceQuery::Bank { address, denom } if address == "alice" && denom == "share" => {
                Ok(3)
            }
            BalanceQuery::Cw20 { contract_addr, address }
                if contract_addr == "new_token" && address == "alice" =>
            {
                Ok(4)
            }
            _ => Err(String::from("unknown")),
        }
    };
    let alice = Addr::unchecked("alice");
    assert_eq!(
        Token::Osmosis { denom: String::from("share") }.query_balance(querier, &alice),
        Ok(3)
    );
    assert_eq!(
        Token::Cw20 { address: Addr::unchecked("new_token") }.query_balance(querier, &alice),
        Ok(4)
    );
    assert_eq!(
        Token::Cw20 { address: Addr::unchecked("other") }.query_balance(querier, &alice),
        Err(CwAssetError::QueryFailed { reason: String::from("unknown") })
    );
}

#[test]
fn a_payload_that_could_not_be_serialised() {
    let failure = || Err(cosmwasm_std::StdError::generic_err("cannot serialize"));
    assert_eq!(
        OutboundMsg::wasm_execute("new_token", failure()),
        Err(CwAssetError::Serialization)
    );
    assert_eq!(
        OutboundMsg::wasm_instantiate(&None, 1, "label", failure()),
        Err(CwAssetError::Serialization)
    );
    assert_eq!(
        OutboundMsg::wasm_execute("new_token", Ok(vec![1, 2, 3])),
        Ok(OutboundMsg::WasmExecute {
            contract_addr: String::from("new_token"),
            msg: vec![1, 2, 3],
            funds: vec![],
        })
    );
    assert_eq!(
        OutboundMsg::bank_send("alice", "uusd", 5),
        OutboundMsg::BankSend {
            to_address: String::from("alice"),
            amount: vec![Coin { denom: String::from("uusd"), amount: 5 }],
        }
    );
}

#[test]
fn calls_of_a_token_contract() {
    let call = cw_asset::Cw20Execute::Burn { amount: 1 };
    assert_eq!(
        OutboundMsg::cw20_execute("new_token", call),
        Ok(OutboundMsg::WasmExecute {
            contract_addr: String::from("new_token"),
            msg: br#"{"burn":{"amount":"1"}}"#.to_vec(),
            funds: vec![],
        })
    );
}

#[test]
fn set_up_payload_holds_every_field() {
    let init = Cw20InstantiateMsg {
        name: String::from("Vault Token"),
        symbol: String::from("VT"),
        decimals: 6,
        initial_balances: vec![
            Cw20Coin { address: String::from("alice"), amount: 5 },
            Cw20Coin { address: String::from("bob"), amount: 7 },
        ],
        mint: Some(Cw20Minter { minter: String::from("vault"), cap: Some(1000) }),
        marketing: Some(Cw20MarketingInfo {
            project: Some(String::from("Vault")),
            description: None,
            marketing: Some(String::from("marketer")),
            logo: Some(Cw20Logo::Svg(vec![60, 115, 118, 103, 62])),
        }),
    };
    let outside = InstantiateMsg {
        name: String::from("Vault Token"),
        symbol: String::from("VT"),
        decimals: 6,
        initial_balances: vec![
            cw20::Cw20Coin { address: String::from("alice"), amount: Uint128::new(5) },
            cw20::Cw20Coin { address: String::from("bob"), amount: Uint128::new(7) },
        ],
        mint: Some(cw20::MinterResponse {
            minter: String::from("vault"),
            cap: Some(Uint128::new(1000)),
        }),
        marketing: Some(cw20_base::msg::InstantiateMarketingInfo {
            project: Some(String::from("Vault")),
            description: None,
            marketing: Some(String::from("marketer")),
            logo: Some(cw20::Logo::Embedded(cw20::EmbeddedLogo::Svg(cosmwasm_std::Binary(
                vec![60, 115, 118, 103, 62],
            )))),
        }),
    };
    assert_eq!(instantiation_payload(init.duplicate()), to_json_binary(&outside).unwrap().0);
    assert_eq!(init.duplicate(), init);

    let mut with_png = init.duplicate();
    with_png.marketing = Some(Cw20MarketingInfo {
        project: None,
        description: Some(String::from("d")),
        marketing: None,
        logo: Some(Cw20Logo::Png(vec![1, 2])),
    });
    let mut outside_png = outside.clone();
    outside_png.marketing = Some(cw20_base::msg::InstantiateMarketingInfo {
        project: None,
        description: Some(String::from("d")),
        marketing: None,
        logo: Some(cw20::Logo::Embedded(cw20::EmbeddedLogo::Png(cosmwasm_std::Binary(vec![1, 2])))),
    });
    assert_eq!(instantiation_payload(with_png), to_json_binary(&outside_png).unwrap().0);

    let mut with_url = init.duplicate();
    with_url.mint = Some(Cw20Minter { minter: String::from("vault"), cap: None });
    with_url.marketing = Some(Cw20MarketingInfo {
        project: None,
        description: None,
        marketing: None,
        logo: Some(Cw20Logo::Url(String::from("https://example.org/logo.svg"))),
    });
    let mut outside_url = outside;
    outside_url.mint = Some(cw20::MinterResponse { minter: String::from("vault"), cap: None });
    outside_url.marketing = Some(cw20_base::msg::InstantiateMarketingInfo {
        project: None,
        description: None,
        marketing: None,
        logo: Some(cw20::Logo::Url(String::from("https://example.org/logo.svg"))),
    });
    assert_eq!(instantiation_payload(with_url), to_json_binary(&outside_url).unwrap().0);

    assert_eq!(
        String::from_utf8(instantiation_payload(init_msg())).unwrap(),
        r#"{"name":"Vault Token","symbol":"VT","decimals":6,"initial_balances":[],"mint":null,"marketing":null}"#
    );
}
