//! The asset types as Astroport has them, and their conversions.
use vstd::prelude::*;
use crate::address::Addr;
use crate::asset::Asset;
use crate::asset::AssetBase;
use crate::asset::AssetView;
use crate::asset_info::AssetInfo;
use crate::asset_info::AssetInfoBase;
use crate::asset_info::InfoView;
use crate::asset_list::AssetList;
use crate::error::CwAssetError;
use crate::query::answered;
use crate::query::asks_balance;
use crate::query::balance_from_answer;
use crate::query::BalanceQuery;

verus! {

/// The kind of an asset as Astroport has it.
#[derive(Clone, Debug, PartialEq, Eq)]
pub enum AstroAssetInfo {
    Token { contract_addr: Addr },
    NativeToken { denom: String },
}

/// An amount of an asset kind as Astroport has it.
#[derive(Clone, Debug, PartialEq, Eq)]
pub struct AstroAsset {
    pub info: AstroAssetInfo,
    pub amount: u128,
}

impl View for AstroAssetInfo {
    type V = InfoView;

    open spec fn view(&self) -> InfoView {
        match self {
            AstroAssetInfo::Token { contract_addr } => InfoView::Cw20(contract_addr@),
            AstroAssetInfo::NativeToken { denom } => InfoView::Native(denom@),
        }
    }
}

impl View for AstroAsset {
    type V = AssetView;

    open spec fn view(&self) -> AssetView {
        AssetView { info: self.info@, amount: self.amount }
    }
}

/// What each of the assets is.
pub open spec fn astro_views(v: Seq<AstroAsset>) -> Seq<AssetView> {
    v.map_values(|a: AstroAsset| a@)
}

impl AstroAssetInfo {
    /// What the pool at `pool_addr` holds of this kind. `querier` stands for the
    /// platform: it is asked once, and its failure is handed on as `QueryFailed`.
    pub fn query_pool<Q: Fn(&BalanceQuery) -> Result<u128, String>>(
        &self,
        querier: &Q,
        pool_addr: &Addr,
    ) -> (r: Result<u128, CwAssetError>)
        requires
            forall|q: BalanceQuery| call_requires(*querier, (&q,)),
        ensures
            exists|answer: Result<u128, String>|
                {
                    &&& answered(*querier, self@, pool_addr@, answer)
                    &&& match answer {
                        Ok(amount) => r == Ok::<u128, CwAssetError>(amount),
                        Err(reason) => r == Err::<u128, CwAssetError>(
                            CwAssetError::QueryFailed { reason },
                        ),
                    }
                },
    {
        let query = match self {
            AstroAssetInfo::Token { contract_addr } => BalanceQuery::Cw20 {
                contract_addr: contract_addr.as_str().to_owned(),
                address: pool_addr.as_str().to_owned(),
            },
            AstroAssetInfo::NativeToken { denom } => BalanceQuery::Bank {
                address: pool_addr.as_str().to_owned(),
                denom: denom.clone(),
            },
        };
        assert(asks_balance(query, self@, pool_addr@));
        let answer = querier(&query);
        assert(answered(*querier, self@, pool_addr@, answer));
        balance_from_answer(answer)
    }

    /// The same kind as this library has it.
    pub fn into_asset_info(self) -> (r: AssetInfo)
        ensures
            r@ == self@,
    {
        match self {
            AstroAssetInfo::Token { contract_addr } => AssetInfo::cw20(contract_addr),
            AstroAssetInfo::NativeToken { denom } => AssetInfoBase::Native(denom),
        }
    }

    /// The kind as Astroport has it.
    pub fn from_asset_info(info: AssetInfo) -> (r: AstroAssetInfo)
        ensures
            r@ == info@,
    {
        match info {
            AssetInfoBase::Cw20(contract_addr) => AstroAssetInfo::Token { contract_addr },
            AssetInfoBase::Native(denom) => AstroAssetInfo::NativeToken { denom },
        }
    }

    /// A copy of this kind.
    pub fn duplicate(&self) -> (r: AstroAssetInfo)
        ensures
            r@ == self@,
    {
        match self {
            AstroAssetInfo::Token { contract_addr } => AstroAssetInfo::Token {
                contract_addr: contract_addr.duplicate(),
            },
            AstroAssetInfo::NativeToken { denom } => AstroAssetInfo::NativeToken {
                denom: denom.clone(),
            },
        }
    }
}

impl AstroAsset {
    /// The same asset as this library has it.
    pub fn to_asset(&self) -> (r: Asset)
        ensures
            r@ == self@,
    {
        AssetBase { info: self.info.duplicate().into_asset_info(), amount: self.amount }
    }

    /// The asset as Astroport has it.
    pub fn from_asset(asset: Asset) -> (r: AstroAsset)
        ensures
            r@ == asset@,
    {
        AstroAsset { info: AstroAssetInfo::from_asset_info(asset.info), amount: asset.amount }
    }
}

/// The list of the given assets as they are, in their order: nothing merges
/// and nothing is left out.
pub fn asset_list_from_astro(astro_assets: &Vec<AstroAsset>) -> (r: AssetList)
    ensures
        r@ == astro_views(astro_assets@),
{
    let mut assets: Vec<Asset> = Vec::new();
    let mut i: usize = 0;
    while i < astro_assets.len()
        invariant
            i <= astro_assets@.len(),
            assets@.len() == i,
            forall|j: int| 0 <= j < i ==> (#[trigger] assets@[j])@ == astro_assets@[j]@,
        decreases astro_assets@.len() - i,
    {
        assets.push(astro_assets[i].to_asset());
        i += 1;
    }
    AssetList::from_vec_unmerged(assets)
}

/// The two assets of a list of two as Astroport has them, or `WrongLength`.
pub fn astro_pair(value: AssetList) -> (r: Result<(AstroAsset, AstroAsset), CwAssetError>)
    ensures
        value@.len() == 2 ==> r is Ok && r->Ok_0.0@ == value@[0] && r->Ok_0.1@ == value@[1],
        value@.len() != 2 ==> r == Err::<(AstroAsset, AstroAsset), CwAssetError>(
            CwAssetError::WrongLength { expected: 2, found: value@.len() as usize },
        ),
{
    match value.into_pair() {
        Ok((first, second)) => Ok((AstroAsset::from_asset(first), AstroAsset::from_asset(second))),
        Err(e) => Err(e),
    }
}

} // verus!
