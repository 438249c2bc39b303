use cosmwasm_std::testing::MockApi;
use cosmwasm_std::Api;
use cw_asset::Addr;
use cw_asset::AssetInfo;
use cw_asset::AssetInfoBase;
use cw_asset::AssetInfoKey;
use cw_asset::AssetInfoUnchecked;
use cw_asset::BalanceQuery;
use cw_asset::CwAssetError;

fn validate(raw: &String) -> Result<Addr, String> {
    MockApi::default()
        .addr_validate(raw)
        .map(|addr| Addr::unchecked(addr.as_str()))
        .map_err(|e| e.to_string())
}

#[test]
fn asset_info_creating_instances() {
    let info = AssetInfo::cw20(Addr::unchecked("mock_token"));
    assert_eq!(info, AssetInfo::Cw20(Addr::unchecked("mock_token")));

    let info = AssetInfo::native("uusd");
    assert_eq!(info, AssetInfo::Native(String::from("uusd")));
}

#[test]
fn asset_info_comparing() {
    let uluna = AssetInfo::native("uluna");
    let uusd = AssetInfo::native("uusd");
    let astro = AssetInfo::cw20(Addr::unchecked("astro_token"));
    let mars = AssetInfo::cw20(Addr::unchecked("mars_token"));

    assert!(uluna != uusd);
    assert!(uluna != astro);
    assert!(astro != mars);
    assert!(uluna == uluna.clone());
    assert!(astro == astro.clone());

    assert!(!uluna.same(&uusd));
    assert!(!uluna.same(&astro));
    assert!(!astro.same(&mars));
    assert!(uluna.same(&uluna.duplicate()));
    assert!(astro.same(&astro.duplicate()));
    assert!(!AssetInfo::native("x").same(&AssetInfo::cw20(Addr::unchecked("x"))));
}

#[test]
fn asset_info_displaying() {
    let info = AssetInfo::native("uusd");
    assert_eq!(info.to_string(), String::from("uusd"));

    let info = AssetInfo::cw20(Addr::unchecked("mock_token"));
    assert_eq!(info.to_string(), String::from("mock_token"));

    assert_eq!(AssetInfoUnchecked::native("uusd").to_string(), "uusd");
    assert_eq!(AssetInfoUnchecked::cw20("mock_token").to_string(), "mock_token");
}

#[test]
fn checking() {
    let checked = AssetInfo::cw20(Addr::unchecked("mock_token"));
    let unchecked: AssetInfoUnchecked = checked.to_unchecked();

    assert_eq!(unchecked.check(&validate).unwrap(), checked);
}

#[test]
fn checking_rejects_what_the_validator_rejects() {
    let err = AssetInfoUnchecked::cw20("").check(&validate).unwrap_err();
    match err {
        CwAssetError::InvalidAddress { address, reason } => {
            assert_eq!(address, "");
            assert!(!reason.is_empty());
        }
        other => panic!("unexpected error: {:?}", other),
    }

    let reject = |_: &String| -> Result<Addr, String> { Err(String::from("no")) };
    assert_eq!(
        AssetInfoUnchecked::cw20("mock_token").check(&reject),
        Err(CwAssetError::InvalidAddress {
            address: String::from("mock_token"),
            reason: String::from("no"),
        })
    );
}

#[test]
fn checking_a_native_coin_never_asks() {
    let reject = |_: &String| -> Result<Addr, String> { Err(String::from("no")) };
    assert_eq!(
        AssetInfoUnchecked::native("uusd").check(&reject),
        Ok(AssetInfo::native("uusd"))
    );
    assert_eq!(
        AssetInfoUnchecked::native("").check(&reject),
        Ok(AssetInfo::native(""))
    );
}

#[test]
fn from_str_tells_addresses_from_denoms() {
    assert_eq!(
        AssetInfo::from_str(&validate, &String::from("mock_token")),
        AssetInfo::cw20(Addr::unchecked("mock_token"))
    );
    // too short for the mock validator to take it as an address
    assert_eq!(
        AssetInfo::from_str(&validate, &String::from("ab")),
        AssetInfo::native("ab")
    );
}

#[test]
fn test_from_addr() {
    let addr = Addr::unchecked("mock_token");
    let info = AssetInfo::cw20(addr.clone());
    assert_eq!(info, AssetInfo::Cw20(addr));
}

#[test]
fn test_try_from_asset_info_for_addr() {
    let addr = Addr::unchecked("mock_token");
    let info = AssetInfo::Cw20(addr.clone());
    let addr2: Addr = info.into_addr().unwrap();
    assert_eq!(addr, addr2);

    assert_eq!(
        AssetInfo::native("uusd").into_addr(),
        Err(CwAssetError::NotContractToken)
    );
}

#[test]
fn native_asset_info() {
    let info = AssetInfo::native("uusd");
    assert_eq!(AssetInfo::Native("uusd".to_string()), info);
    assert!(info.is_native());
}

#[test]
fn cw20_asset_info() {
    let info = AssetInfo::cw20(Addr::unchecked("mock_token"));
    assert_eq!(AssetInfoBase::Cw20(Addr::unchecked("mock_token")), info);
    assert!(!info.is_native());
}

#[test]
fn native_asset_info_unchecked() {
    let info = AssetInfoUnchecked::native("uusd");
    assert_eq!(AssetInfoUnchecked::Native("uusd".to_string()), info);
}

#[test]
fn cw20_asset_info_unchecked() {
    let info = AssetInfoUnchecked::cw20("mock_token");
    assert_eq!(AssetInfoUnchecked::Cw20("mock_token".to_string()), info);
}

#[test]
fn to_asset_keeps_kind_and_amount() {
    let asset = AssetInfo::native("uusd").to_asset(42);
    assert_eq!(asset.info, AssetInfo::native("uusd"));
    assert_eq!(asset.amount, 42);
}

#[test]
fn key_encoding_is_tag_then_text() {
    let key = AssetInfoKey::from_asset_info(&AssetInfo::cw20(Addr::unchecked("ab")));
    assert_eq!(key.as_bytes(), &[0u8, b'a', b'b'][..]);

    let key = AssetInfoKey::from_asset_info(&AssetInfo::native("uusd"));
    assert_eq!(key.as_bytes(), &[255u8, b'u', b'u', b's', b'd'][..]);

    let key = AssetInfoKey::from_asset_info(&AssetInfo::native(""));
    assert_eq!(key.as_bytes(), &[255u8][..]);
}

#[test]
fn key_round_trip() {
    for info in [
        AssetInfo::native("uusd"),
        AssetInfo::native(""),
        AssetInfo::native("ibc/ÅÄÖ-€"),
        AssetInfo::cw20(Addr::unchecked("mock_token")),
        AssetInfo::cw20(Addr::unchecked("")),
    ] {
        let key = AssetInfoKey::from_asset_info(&info);
        assert_eq!(key.to_asset_info(), Ok(info.clone()));
        assert!(key.is_key_of(&info));
        let again = AssetInfoKey::from_vec(key.as_bytes().to_vec());
        assert!(again.same(&key));
        assert_eq!(again, key);
    }
}

#[test]
fn key_equality_agrees_with_kind_equality() {
    let native = AssetInfo::native("same");
    let token = AssetInfo::cw20(Addr::unchecked("same"));
    let key = AssetInfoKey::from_asset_info(&native);
    assert!(key.is_key_of(&native));
    assert!(!key.is_key_of(&token));
    assert!(!key.is_key_of(&AssetInfo::native("other")));
    assert!(!key.same(&AssetInfoKey::from_asset_info(&token)));
}

#[test]
fn token_keys_sort_before_native_keys() {
    let token = AssetInfoKey::from_asset_info(&AssetInfo::cw20(Addr::unchecked("zzzz")));
    let native = AssetInfoKey::from_asset_info(&AssetInfo::native("aaaa"));
    assert!(token.as_bytes() < native.as_bytes());
}

#[test]
fn malformed_keys_are_rejected() {
    // no bytes at all
    assert_eq!(
        AssetInfoKey::from_vec(vec![]).to_asset_info(),
        Err(CwAssetError::MalformedKey)
    );
    // a leading byte that is neither tag
    assert_eq!(
        AssetInfoKey::from_vec(vec![1, b'a']).to_asset_info(),
        Err(CwAssetError::MalformedKey)
    );
    assert_eq!(
        AssetInfoKey::from_vec(vec![254, b'a']).to_asset_info(),
        Err(CwAssetError::MalformedKey)
    );
    // text that is not UTF-8
    assert_eq!(
        AssetInfoKey::from_vec(vec![0, 0xff, 0xfe]).to_asset_info(),
        Err(CwAssetError::MalformedKey)
    );
    assert_eq!(
        AssetInfoKey::from_vec(vec![255, 0xc3]).to_asset_info(),
        Err(CwAssetError::MalformedKey)
    );
}

#[test]
fn balance_query_goes_to_ledger_or_contract() {
    assert_eq!(
        AssetInfo::native("uusd").balance_query("alice"),
        BalanceQuery::Bank { address: String::from("alice"), denom: String::from("uusd") }
    );
    assert_eq!(
        AssetInfo::cw20(Addr::unchecked("mock_token")).balance_query("alice"),
        BalanceQuery::Cw20 {
            contract_addr: String::from("mock_token"),
            address: String::from("alice"),
        }
    );
}

#[test]
fn query_balance_hands_on_answer_and_failure() {
    let querier = |q: &BalanceQuery| -> Result<u128, String> {
        match q {
            BalanceQuery::Bank { address, denom } if address == "alice" && denom == "uusd" => {
                Ok(12345)
            }
            BalanceQuery::Cw20 { contract_addr, address }
                if contract_addr == "mock_token" && address == "alice" =>
            {
                Ok(67890)
            }
            _ => Err(String::from("unknown account")),
        }
    };
    assert_eq!(AssetInfo::native("uusd").query_balance(querier, "alice"), Ok(12345));
    assert_eq!(
        AssetInfo::cw20(Addr::unchecked("mock_token")).query_balance(querier, "alice"),
        Ok(67890)
    );
    assert_eq!(
        AssetInfo::native("uusd").query_balance(querier, "bob"),
        Err(CwAssetError::QueryFailed { reason: String::from("unknown account") })
    );
}
