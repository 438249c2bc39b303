use vstd::prelude::*;
use vstd::string::StringExecFns;
use crate::address::Addr;
use crate::asset_info::AssetInfo;
use crate::asset_info::AssetInfoBase;
use crate::asset_info::AssetInfoUnchecked;
use crate::asset_info::info_checked;
use crate::asset_info::InfoView;
use crate::decimal::decimal;
use crate::decimal::decimal_string;
use crate::error::CwAssetError;
use crate::message::is_cw20_call;
use crate::message::Cw20Execute;
use crate::message::Cw20ExecuteView;
use crate::message::OutboundMsg;
use crate::query::asks_balance;
use crate::query::BalanceQuery;

verus! {

/// An amount of an asset kind.
#[derive(Clone, Debug, PartialEq, Eq)]
pub struct AssetBase<T> {
    pub info: AssetInfoBase<T>,
    pub amount: u128,
}

/// An asset whose contract address is raw text, as it comes from input.
pub type AssetUnchecked = AssetBase<String>;

/// An asset whose contract address is an `Addr`.
pub type Asset = AssetBase<Addr>;

/// What an asset is, checked or not: its kind and its amount.
pub ghost struct AssetView {
    pub info: InfoView,
    pub amount: u128,
}

impl AssetView {
    /// The asset as displayed: the kind, a colon, the amount in decimal.
    pub open spec fn text(self) -> Seq<char> {
        self.info.text() + seq![':'] + decimal(self.amount as nat)
    }
}

impl View for AssetBase<String> {
    type V = AssetView;

    open spec fn view(&self) -> AssetView {
        AssetView { info: self.info@, amount: self.amount }
    }
}

impl View for AssetBase<Addr> {
    type V = AssetView;

    open spec fn view(&self) -> AssetView {
        AssetView { info: self.info@, amount: self.amount }
    }
}

/// A native coin as the platform's ledger holds it.
#[derive(Clone, Debug, PartialEq, Eq)]
pub struct Coin {
    pub denom: String,
    pub amount: u128,
}

/// What a ledger coin is.
pub ghost struct CoinView {
    pub denom: Seq<char>,
    pub amount: u128,
}

impl View for Coin {
    type V = CoinView;

    open spec fn view(&self) -> CoinView {
        CoinView { denom: self.denom@, amount: self.amount }
    }
}

/// What each of the coins is.
pub open spec fn coin_views(v: Seq<Coin>) -> Seq<CoinView> {
    v.map_values(|c: Coin| c@)
}

/// Whether `msg` moves the asset from the sender to `to`: a ledger transfer of
/// the one coin for a native asset, a call of the token's contract with the
/// transfer payload and no funds for a token.
pub open spec fn is_transfer(msg: OutboundMsg, asset: AssetView, to: Seq<char>) -> bool {
    match asset.info {
        InfoView::Native(denom) => {
            &&& msg matches OutboundMsg::BankSend { to_address, amount }
            &&& to_address@ == to
            &&& coin_views(amount@) == seq![CoinView { denom, amount: asset.amount }]
        },
        InfoView::Cw20(contract) => is_cw20_call(
            msg,
            contract,
            Cw20ExecuteView::Transfer { recipient: to, amount: asset.amount },
        ),
    }
}

/// An amount of a token, with the contract's address as raw text.
#[derive(Clone, Debug, PartialEq, Eq)]
pub struct Cw20Coin {
    pub address: String,
    pub amount: u128,
}

/// An amount of a token, with the contract's address validated.
#[derive(Clone, Debug, PartialEq, Eq)]
pub struct Cw20CoinVerified {
    pub address: Addr,
    pub amount: u128,
}

impl AssetUnchecked {
    /// The given amount of the given kind.
    pub fn new(info: AssetInfoUnchecked, amount: u128) -> (r: AssetUnchecked)
        ensures
            r.info == info,
            r.amount == amount,
    {
        AssetBase { info, amount }
    }

    /// The given amount of the native coin of the given denom.
    pub fn native(denom: &str, amount: u128) -> (r: AssetUnchecked)
        ensures
            r@ == (AssetView { info: InfoView::Native(denom@), amount }),
    {
        AssetBase { info: AssetInfoBase::<String>::native(denom), amount }
    }

    /// The given amount of the token of the contract at the given address.
    pub fn cw20(contract_addr: &str, amount: u128) -> (r: AssetUnchecked)
        ensures
            r@ == (AssetView { info: InfoView::Cw20(contract_addr@), amount }),
    {
        AssetBase { info: AssetInfoBase::<String>::cw20(contract_addr), amount }
    }

    /// The asset of a token amount.
    pub fn from_cw20_coin(coin: Cw20Coin) -> (r: AssetUnchecked)
        ensures
            r.info == AssetInfoBase::<String>::Cw20(coin.address),
            r.amount == coin.amount,
    {
        AssetBase { info: AssetInfoBase::Cw20(coin.address), amount: coin.amount }
    }

    /// The token amount of an asset, or `NotContractToken` for a native coin.
    pub fn into_cw20_coin(self) -> (r: Result<Cw20Coin, CwAssetError>)
        ensures
            match self.info {
                AssetInfoBase::Cw20(address) => r == Ok::<Cw20Coin, CwAssetError>(
                    Cw20Coin { address, amount: self.amount },
                ),
                AssetInfoBase::Native(_) => r == Err::<Cw20Coin, CwAssetError>(
                    CwAssetError::NotContractToken,
                ),
            },
    {
        match self.info {
            AssetInfoBase::Cw20(address) => Ok(Cw20Coin { address, amount: self.amount }),
            AssetInfoBase::Native(_) => Err(CwAssetError::NotContractToken),
        }
    }

    /// Validates the contract address, if there is one, with `validate`; the amount
    /// is kept as it is.
    pub fn check<F: Fn(&String) -> Result<Addr, String>>(&self, validate: &F) -> (r: Result<
        Asset,
        CwAssetError,
    >)
        requires
            forall|raw: String| call_requires(*validate, (&raw,)),
        ensures
            asset_checked(*validate, self@, r),
    {
        match self.info.check(validate) {
            Ok(info) => Ok(AssetBase { info, amount: self.amount }),
            Err(e) => Err(e),
        }
    }
}

/// Whether `r` is what checking the asset with `validate` comes to: the same
/// amount of the kind as checked, or the error of checking the kind.
pub open spec fn asset_checked<F: Fn(&String) -> Result<Addr, String>>(
    validate: F,
    asset: AssetView,
    r: Result<Asset, CwAssetError>,
) -> bool {
    match r {
        Ok(checked) => checked.amount == asset.amount && info_checked(
            validate,
            asset.info,
            Ok(checked.info),
        ),
        Err(e) => info_checked(validate, asset.info, Err(e)),
    }
}

impl Asset {
    /// The given amount of the given kind.
    pub fn new(info: AssetInfo, amount: u128) -> (r: Asset)
        ensures
            r.info == info,
            r.amount == amount,
    {
        AssetBase { info, amount }
    }

    /// The given amount of the token of the contract at the given address.
    pub fn cw20(contract_addr: Addr, amount: u128) -> (r: Asset)
        ensures
            r.info == AssetInfoBase::<Addr>::Cw20(contract_addr),
            r.amount == amount,
    {
        AssetBase { info: AssetInfoBase::<Addr>::cw20(contract_addr), amount }
    }

    /// The given amount of the native coin of the given denom.
    pub fn native(denom: &str, amount: u128) -> (r: Asset)
        ensures
            r@ == (AssetView { info: InfoView::Native(denom@), amount }),
    {
        AssetBase { info: AssetInfoBase::<Addr>::native(denom), amount }
    }

    /// A copy of this asset.
    pub fn duplicate(&self) -> (r: Asset)
        ensures
            r@ == self@,
    {
        AssetBase { info: self.info.duplicate(), amount: self.amount }
    }

    /// The same asset with its address as raw text.
    pub fn to_unchecked(&self) -> (r: AssetUnchecked)
        ensures
            r@ == self@,
    {
        AssetBase { info: self.info.to_unchecked(), amount: self.amount }
    }

    /// The asset as text: the kind, a colon, the amount in decimal.
    pub fn to_string(&self) -> (r: String)
        ensures
            r@ == self@.text(),
    {
        let mut s = self.info.to_string();
        proof {
            reveal_strlit(":");
        }
        s.append(":");
        let digits = decimal_string(self.amount);
        s.append(digits.as_str());
        assert(s@ =~= self@.text());
        s
    }

    /// The instruction that sends this amount of the token to the contract at `to`,
    /// together with the payload `msg` for that contract. Native coins cannot be
    /// sent in this way: `NotContractToken`.
    pub fn send_msg(&self, to: &str, msg: Vec<u8>) -> (r: Result<OutboundMsg, CwAssetError>)
        ensures
            self.info is Native ==> r == Err::<OutboundMsg, CwAssetError>(
                CwAssetError::NotContractToken,
            ),
            self.info matches AssetInfoBase::Cw20(contract) ==> r is Ok && is_cw20_call(
                r->Ok_0,
                contract@,
                Cw20ExecuteView::Send { contract: to@, amount: self.amount, msg: msg@ },
            ),
    {
        match &self.info {
            AssetInfoBase::Cw20(contract_addr) => OutboundMsg::cw20_execute(
                contract_addr.as_str(),
                Cw20Execute::Send { contract: to.to_owned(), amount: self.amount, msg },
            ),
            AssetInfoBase::Native(_) => Err(CwAssetError::NotContractToken),
        }
    }

    /// The instruction that moves this asset from the sender to `to`: a ledger
    /// transfer for a native coin, a call of the token's contract for a token.
    pub fn transfer_msg(&self, to: &str) -> (r: Result<OutboundMsg, CwAssetError>)
        ensures
            r is Ok,
            is_transfer(r->Ok_0, self@, to@),
    {
        match &self.info {
            AssetInfoBase::Cw20(contract_addr) => OutboundMsg::cw20_execute(
                contract_addr.as_str(),
                Cw20Execute::Transfer { recipient: to.to_owned(), amount: self.amount },
            ),
            AssetInfoBase::Native(denom) => {
                let msg = OutboundMsg::bank_send(to, denom.as_str(), self.amount);
                assert(is_transfer(msg, self@, to@)) by {
                    assert(msg matches OutboundMsg::BankSend { to_address, amount } && coin_views(
                        amount@,
                    ) =~= seq![CoinView { denom: denom@, amount: self.amount }]);
                }
                Ok(msg)
            },
        }
    }

    /// The instruction that draws this amount of the token from the account
    /// `from` to the account `to`. Native coins cannot be drawn in this way:
    /// `NotContractToken`.
    pub fn transfer_from_msg(&self, from: &str, to: &str) -> (r: Result<OutboundMsg, CwAssetError>)
        ensures
            self.info is Native ==> r == Err::<OutboundMsg, CwAssetError>(
                CwAssetError::NotContractToken,
            ),
            self.info matches AssetInfoBase::Cw20(contract) ==> r is Ok && is_cw20_call(
                r->Ok_0,
                contract@,
                Cw20ExecuteView::TransferFrom { owner: from@, recipient: to@, amount: self.amount },
            ),
    {
        match &self.info {
            AssetInfoBase::Cw20(contract_addr) => OutboundMsg::cw20_execute(
                contract_addr.as_str(),
                Cw20Execute::TransferFrom {
                    owner: from.to_owned(),
                    recipient: to.to_owned(),
                    amount: self.amount,
                },
            ),
            AssetInfoBase::Native(_) => Err(CwAssetError::NotContractToken),
        }
    }

    /// What `addr` holds of this asset's kind. `querier` stands for the platform:
    /// it is asked once, and its failure is handed on as `QueryFailed`.
    pub fn query_balance<Q: Fn(&BalanceQuery) -> Result<u128, String>>(
        &self,
        querier: Q,
        addr: &Addr,
    ) -> (r: Result<u128, CwAssetError>)
        requires
            forall|q: BalanceQuery|
                asks_balance(q, self.info@, addr@) ==> call_requires(querier, (&q,)),
        ensures
            exists|q: BalanceQuery, answer: Result<u128, String>|
                {
                    &&& asks_balance(q, self.info@, addr@)
                    &&& call_ensures(querier, (&q,), answer)
                    &&& match answer {
                        Ok(amount) => r == Ok::<u128, CwAssetError>(amount),
                        Err(reason) => r == Err::<u128, CwAssetError>(
                            CwAssetError::QueryFailed { reason },
                        ),
                    }
                },
    {
        self.info.query_balance(querier, addr.as_str())
    }

    /// The asset of a ledger coin: a native coin of the same denom and amount.
    pub fn from_coin(coin: &Coin) -> (r: Asset)
        ensures
            r@ == (AssetView { info: InfoView::Native(coin.denom@), amount: coin.amount }),
    {
        AssetBase { info: AssetInfoBase::Native(coin.denom.clone()), amount: coin.amount }
    }

    /// The ledger coin of a native asset, or `NotNative` for a token.
    pub fn to_coin(&self) -> (r: Result<Coin, CwAssetError>)
        ensures
            match self.info {
                AssetInfoBase::Native(denom) => r is Ok && r->Ok_0.denom@ == denom@
                    && r->Ok_0.amount == self.amount,
                AssetInfoBase::Cw20(_) => r == Err::<Coin, CwAssetError>(CwAssetError::NotNative),
            },
    {
        match &self.info {
            AssetInfoBase::Native(denom) => Ok(Coin { denom: denom.clone(), amount: self.amount }),
            AssetInfoBase::Cw20(_) => Err(CwAssetError::NotNative),
        }
    }

    /// The asset of a validated token amount.
    pub fn from_cw20_coin_verified(coin: Cw20CoinVerified) -> (r: Asset)
        ensures
            r.info == AssetInfoBase::<Addr>::Cw20(coin.address),
            r.amount == coin.amount,
    {
        AssetBase { info: AssetInfoBase::Cw20(coin.address), amount: coin.amount }
    }

    /// The validated token amount of an asset, or `NotContractToken` for a native
    /// coin.
    pub fn into_cw20_coin_verified(self) -> (r: Result<Cw20CoinVerified, CwAssetError>)
        ensures
            match self.info {
                AssetInfoBase::Cw20(address) => r == Ok::<Cw20CoinVerified, CwAssetError>(
                    Cw20CoinVerified { address, amount: self.amount },
                ),
                AssetInfoBase::Native(_) => r == Err::<Cw20CoinVerified, CwAssetError>(
                    CwAssetError::NotContractToken,
                ),
            },
    {
        match self.info {
            AssetInfoBase::Cw20(address) => Ok(Cw20CoinVerified { address, amount: self.amount }),
            AssetInfoBase::Native(_) => Err(CwAssetError::NotContractToken),
        }
    }

    /// The token amount of an asset, with the address as raw text, or
    /// `NotContractToken` for a native coin.
    pub fn into_cw20_coin(self) -> (r: Result<Cw20Coin, CwAssetError>)
        ensures
            match self.info {
                AssetInfoBase::Cw20(address) => r is Ok && r->Ok_0.address@ == address@
                    && r->Ok_0.amount == self.amount,
                AssetInfoBase::Native(_) => r == Err::<Cw20Coin, CwAssetError>(
                    CwAssetError::NotContractToken,
                ),
            },
    {
        match self.into_cw20_coin_verified() {
            Ok(verified) => Ok(
                Cw20Coin { address: verified.address.into_string(), amount: verified.amount },
            ),
            Err(e) => Err(e),
        }
    }
}

} // verus!
