use cw_asset::astroport::asset_list_from_astro;
use cw_asset::astroport::astro_pair;
use cw_asset::astroport::AstroAsset;
use cw_asset::astroport::AstroAssetInfo;
use cw_asset::osmosis::check_factory_denom;
use cw_asset::Addr;
use cw_asset::Asset;
use cw_asset::AssetInfo;
use cw_asset::AssetList;
use cw_asset::BalanceQuery;
use cw_asset::Coin;
use cw_asset::CwAssetError;
use cw_asset::OsmosisCoin;
use cw_asset::OutboundMsg;

fn mock_list() -> AssetList {
    AssetList::from_assets(vec![
        Asset::native("uusd", 69420u128),
        Asset::cw20(Addr::unchecked("mock_token"), 88888u128),
    ])
    .unwrap()
}

fn mock_astro_list() -> Vec<AstroAsset> {
    vec![
        AstroAsset {
            info: AstroAssetInfo::NativeToken { denom: "uusd".to_string() },
            amount: 69420u128,
        },
        AstroAsset {
            info: AstroAssetInfo::Token { contract_addr: Addr::unchecked("mock_token") },
            amount: 88888u128,
        },
    ]
}

#[test]
fn from_astro_asset_info() {
    let info = AstroAssetInfo::Token { contract_addr: Addr::unchecked("mock_token") };
    let info2: AssetInfo = info.into_asset_info();
    assert_eq!(info2, AssetInfo::Cw20(Addr::unchecked("mock_token")));

    let info = AstroAssetInfo::NativeToken { denom: "uusd".to_string() };
    let info2: AssetInfo = info.into_asset_info();
    assert_eq!(info2, AssetInfo::Native("uusd".to_string()));
}

#[test]
fn into_astro_asset_info() {
    let info = AssetInfo::Cw20(Addr::unchecked("mock_token"));
    let info2 = AstroAssetInfo::from_asset_info(info);
    assert_eq!(info2, AstroAssetInfo::Token { contract_addr: Addr::unchecked("mock_token") });

    let info = AssetInfo::Native("uusd".to_string());
    let info2 = AstroAssetInfo::from_asset_info(info);
    assert_eq!(info2, AstroAssetInfo::NativeToken { denom: "uusd".to_string() });
}

#[test]
fn from_assetlist_for_vec_astro_asset_info() {
    let list = mock_list();

    let vec_asset_info: Vec<AstroAsset> =
        list.into_vec().into_iter().map(AstroAsset::from_asset).collect();

    assert_eq!(vec_asset_info, mock_astro_list());
}

#[test]
fn astro_lists_and_pairs() {
    assert_eq!(asset_list_from_astro(&mock_astro_list()), mock_list());
    let pair = astro_pair(mock_list()).unwrap();
    assert_eq!(vec![pair.0, pair.1], mock_astro_list());
    assert_eq!(
        astro_pair(AssetList::from_assets(vec![Asset::native("uusd", 1)]).unwrap()),
        Err(CwAssetError::WrongLength { expected: 2, found: 1 })
    );
    assert_eq!(mock_astro_list()[0].to_asset(), Asset::native("uusd", 69420));
}

#[test]
fn pool_queries() {
    let querier = |q: &BalanceQuery| -> Result<u128, String> {
        match q {
            BalanceQuery::Bank { address, denom } if address == "pool" && denom == "uusd" => Ok(9),
            BalanceQuery::Cw20 { contract_addr, address }
                if contract_addr == "mock_token" && address == "pool" =>
            {
                Ok(8)
            }
            _ => Err(String::from("unknown")),
        }
    };
    let pool = Addr::unchecked("pool");
    let native = AstroAssetInfo::NativeToken { denom: "uusd".to_string() };
    let token = AstroAssetInfo::Token { contract_addr: Addr::unchecked("mock_token") };
    assert_eq!(native.query_pool(&querier, &pool), Ok(9));
    assert_eq!(token.query_pool(&querier, &pool), Ok(8));

    let elsewhere = Addr::unchecked("elsewhere");
    assert_eq!(
        token.query_pool(&querier, &elsewhere),
        Err(CwAssetError::QueryFailed { reason: String::from("unknown") })
    );
    assert_eq!(
        native.query_pool(&querier, &elsewhere),
        Err(CwAssetError::QueryFailed { reason: String::from("unknown") })
    );
}

#[test]
fn factory_denoms() {
    assert!(check_factory_denom("factory/osmo1abc/share"));
    assert!(check_factory_denom("factory//"));
    assert!(!check_factory_denom("factory/osmo1abc"));
    assert!(!check_factory_denom("factory/osmo1abc/share/more"));
    assert!(!check_factory_denom("factori/osmo1abc/share"));
    assert!(!check_factory_denom("ibc/osmo1abc/share"));
    assert!(!check_factory_denom("uosmo"));
    assert!(!check_factory_denom(""));
    assert!(!check_factory_denom("factory"));
    assert!(check_factory_denom("factory/ö/€"));
}

#[test]
fn osmosis_coins() {
    let asset = Asset::native("factory/vault/share", 12);
    let coin = OsmosisCoin::from_asset(asset.clone()).unwrap();
    assert_eq!(coin, OsmosisCoin(Coin { denom: String::from("factory/vault/share"), amount: 12 }));
    assert_eq!(coin.to_string(), "12factory/vault/share");
    assert_eq!(coin.clone().into_asset(), asset);
    assert_eq!(
        coin.clone().into_coin(),
        Coin { denom: String::from("factory/vault/share"), amount: 12 }
    );
    assert!(OsmosisCoin::is_native());

    assert_eq!(
        OsmosisCoin::from_asset(Asset::native("uosmo", 1)),
        Err(CwAssetError::InvalidDenom)
    );
    assert_eq!(
        OsmosisCoin::from_asset(Asset::cw20(Addr::unchecked("factory/a/b"), 1)),
        Err(CwAssetError::NotNative)
    );
}

#[test]
fn osmosis_instructions() {
    let share = Coin { denom: String::from("factory/vault/share"), amount: 12 };
    let coin = OsmosisCoin(share.clone());
    assert_eq!(
        coin.transfer("alice"),
        OutboundMsg::BankSend { to_address: String::from("alice"), amount: vec![share.clone()] }
    );
    assert_eq!(
        coin.mint("vault", "alice"),
        vec![
            OutboundMsg::MintDenom { coin: share.clone(), sender: String::from("vault") },
            OutboundMsg::BankSend { to_address: String::from("alice"), amount: vec![share.clone()] },
        ]
    );
    assert_eq!(
        coin.burn("vault"),
        OutboundMsg::BurnDenom { coin: share, sender: String::from("vault") }
    );
}
