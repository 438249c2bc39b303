use vstd::prelude::*;
use crate::address::validate_address;
use crate::address::validated_as;
use crate::address::Addr;
use crate::asset::Asset;
use crate::asset::AssetBase;
use crate::error::CwAssetError;
use crate::query::asks_balance;
use crate::query::balance_from_answer;
use crate::query::BalanceQuery;

verus! {

/// The kind of an asset: a contract-tracked token, identified by its contract,
/// or a native coin, identified by its denom.
#[derive(Clone, Debug, PartialEq, Eq, Hash)]
pub enum AssetInfoBase<T> {
    Cw20(T),
    Native(String),
}

/// An asset kind whose contract address is raw text, as it comes from input.
pub type AssetInfoUnchecked = AssetInfoBase<String>;

/// An asset kind whose contract address is an `Addr`.
pub type AssetInfo = AssetInfoBase<Addr>;

/// What an asset kind is, checked or not: the variant and the text it carries.
pub ghost enum InfoView {
    Cw20(Seq<char>),
    Native(Seq<char>),
}

impl InfoView {
    /// The address or the denom.
    pub open spec fn text(self) -> Seq<char> {
        match self {
            InfoView::Cw20(t) => t,
            InfoView::Native(t) => t,
        }
    }
}

impl View for AssetInfoBase<String> {
    type V = InfoView;

    open spec fn view(&self) -> InfoView {
        match self {
            AssetInfoBase::Cw20(a) => InfoView::Cw20(a@),
            AssetInfoBase::Native(d) => InfoView::Native(d@),
        }
    }
}

impl View for AssetInfoBase<Addr> {
    type V = InfoView;

    open spec fn view(&self) -> InfoView {
        match self {
            AssetInfoBase::Cw20(a) => InfoView::Cw20(a@),
            AssetInfoBase::Native(d) => InfoView::Native(d@),
        }
    }
}

impl AssetInfoUnchecked {
    /// The native coin of the given denom.
    pub fn native(denom: &str) -> (r: AssetInfoUnchecked)
        ensures
            r@ == InfoView::Native(denom@),
    {
        AssetInfoBase::Native(denom.to_owned())
    }

    /// The token of the contract at the given, unvalidated, address.
    pub fn cw20(contract_addr: &str) -> (r: AssetInfoUnchecked)
        ensures
            r@ == InfoView::Cw20(contract_addr@),
    {
        AssetInfoBase::Cw20(contract_addr.to_owned())
    }

    /// The kind as text: the address or the denom.
    pub fn to_string(&self) -> (r: String)
        ensures
            r@ == self@.text(),
    {
        match self {
            AssetInfoBase::Cw20(contract_addr) => contract_addr.clone(),
            AssetInfoBase::Native(denom) => denom.clone(),
        }
    }

    /// Validates the contract address, if there is one, with `validate`, which
    /// stands for the platform's address validator. A native coin is accepted as
    /// it is, whatever its denom, and the validator is not asked.
    pub fn check<F: Fn(&String) -> Result<Addr, String>>(&self, validate: &F) -> (r: Result<
        AssetInfo,
        CwAssetError,
    >)
        requires
            forall|raw: String| call_requires(*validate, (&raw,)),
        ensures
            info_checked(*validate, self@, r),
    {
        match self {
            AssetInfoBase::Cw20(contract_addr) => match validate_address(validate, contract_addr) {
                Ok(addr) => Ok(AssetInfoBase::Cw20(addr)),
                Err(e) => Err(e),
            },
            AssetInfoBase::Native(denom) => Ok(AssetInfoBase::Native(denom.clone())),
        }
    }
}

/// Whether `r` is what checking the asset kind `info` with `validate` comes to:
/// a native coin is accepted as it is; a token is accepted with the address
/// that `validate` made of its text, or turned down with the error that
/// `validate`'s refusal amounts to.
pub open spec fn info_checked<F: Fn(&String) -> Result<Addr, String>>(
    validate: F,
    info: InfoView,
    r: Result<AssetInfo, CwAssetError>,
) -> bool {
    match info {
        InfoView::Native(_) => r is Ok && r->Ok_0@ == info,
        InfoView::Cw20(text) => match r {
            Ok(checked) => checked matches AssetInfoBase::Cw20(addr) && validated_as(
                validate,
                text,
                Ok(addr),
            ),
            Err(e) => validated_as(validate, text, Err(e)),
        },
    }
}

/// Checking a native coin succeeds and gives the same coin back, whatever its
/// denom and whatever the validator. Checking a token whose address the
/// validator always turns down fails with `InvalidAddress` for that address.
pub proof fn law_check<F: Fn(&String) -> Result<Addr, String>>(
    validate: F,
    info: InfoView,
    r: Result<AssetInfo, CwAssetError>,
)
    requires
        info_checked(validate, info, r),
    ensures
        info is Native ==> r is Ok && r->Ok_0@ == info,
        info is Cw20 && (forall|raw: String, answer: Result<Addr, String>|
            raw@ == info.text() && call_ensures(validate, (&raw,), answer) ==> answer is Err)
            ==> (r matches Err(CwAssetError::InvalidAddress { address, reason }) && address@
            == info.text()),
{
}

impl AssetInfo {
    /// The token of the contract at the given address.
    pub fn cw20(contract_addr: Addr) -> (r: AssetInfo)
        ensures
            r == AssetInfoBase::<Addr>::Cw20(contract_addr),
    {
        AssetInfoBase::Cw20(contract_addr)
    }

    /// The native coin of the given denom.
    pub fn native(denom: &str) -> (r: AssetInfo)
        ensures
            r@ == InfoView::Native(denom@),
    {
        AssetInfoBase::Native(denom.to_owned())
    }

    /// The kind that `s` names: the token at that address where `validate`
    /// accepts it as an address, the native coin of that denom where it does not.
    pub fn from_str<F: Fn(&String) -> Result<Addr, String>>(validate: &F, s: &String) -> (r:
        AssetInfo)
        requires
            call_requires(*validate, (s,)),
        ensures
            exists|answer: Result<Addr, String>|
                {
                    &&& call_ensures(*validate, (s,), answer)
                    &&& match answer {
                        Ok(addr) => r == AssetInfoBase::<Addr>::Cw20(addr),
                        Err(_) => r@ == InfoView::Native(s@),
                    }
                },
    {
        match validate(s) {
            Ok(contract_addr) => AssetInfoBase::Cw20(contract_addr),
            Err(_) => AssetInfoBase::Native(s.clone()),
        }
    }

    /// The same kind with its address as raw text.
    pub fn to_unchecked(&self) -> (r: AssetInfoUnchecked)
        ensures
            r@ == self@,
    {
        match self {
            AssetInfoBase::Cw20(contract_addr) => AssetInfoBase::Cw20(
                contract_addr.as_str().to_owned(),
            ),
            AssetInfoBase::Native(denom) => AssetInfoBase::Native(denom.clone()),
        }
    }

    /// The contract's address, or `NotContractToken` for a native coin.
    pub fn into_addr(self) -> (r: Result<Addr, CwAssetError>)
        ensures
            match self {
                AssetInfoBase::Cw20(addr) => r == Ok::<Addr, CwAssetError>(addr),
                AssetInfoBase::Native(_) => r == Err::<Addr, CwAssetError>(
                    CwAssetError::NotContractToken,
                ),
            },
    {
        match self {
            AssetInfoBase::Cw20(contract_addr) => Ok(contract_addr),
            AssetInfoBase::Native(_) => Err(CwAssetError::NotContractToken),
        }
    }

    /// The kind as text: the address or the denom.
    pub fn to_string(&self) -> (r: String)
        ensures
            r@ == self@.text(),
    {
        match self {
            AssetInfoBase::Cw20(contract_addr) => contract_addr.as_str().to_owned(),
            AssetInfoBase::Native(denom) => denom.clone(),
        }
    }

    /// The question what `address` holds of this kind: to the ledger for a native
    /// coin, to the token's contract for a token.
    pub fn balance_query(&self, address: &str) -> (r: BalanceQuery)
        ensures
            asks_balance(r, self@, address@),
    {
        match self {
            AssetInfoBase::Cw20(contract_addr) => BalanceQuery::Cw20 {
                contract_addr: contract_addr.as_str().to_owned(),
                address: address.to_owned(),
            },
            AssetInfoBase::Native(denom) => BalanceQuery::Bank {
                address: address.to_owned(),
                denom: denom.clone(),
            },
        }
    }

    /// What `address` holds of this kind. `querier` stands for the platform: it is
    /// asked once, and its failure is handed on as `QueryFailed`.
    pub fn query_balance<Q: Fn(&BalanceQuery) -> Result<u128, String>>(
        &self,
        querier: Q,
        address: &str,
    ) -> (r: Result<u128, CwAssetError>)
        requires
            forall|q: BalanceQuery|
                asks_balance(q, self@, address@) ==> call_requires(querier, (&q,)),
        ensures
            exists|q: BalanceQuery, answer: Result<u128, String>|
                {
                    &&& asks_balance(q, self@, address@)
                    &&& call_ensures(querier, (&q,), answer)
                    &&& match answer {
                        Ok(amount) => r == Ok::<u128, CwAssetError>(amount),
                        Err(reason) => r == Err::<u128, CwAssetError>(
                            CwAssetError::QueryFailed { reason },
                        ),
                    }
                },
    {
        let query = self.balance_query(address);
        let answer = querier(&query);
        balance_from_answer(answer)
    }

    /// The given amount of this kind.
    pub fn to_asset(&self, amount: u128) -> (r: Asset)
        ensures
            r.info@ == self@,
            r.amount == amount,
    {
        AssetBase { info: self.duplicate(), amount }
    }

    /// Whether this is a native coin.
    pub fn is_native(&self) -> (r: bool)
        ensures
            r == (self@ is Native),
    {
        match self {
            AssetInfoBase::Native(_) => true,
            AssetInfoBase::Cw20(_) => false,
        }
    }

    /// Whether the two kinds are the same: same variant, same text.
    pub fn same(&self, other: &AssetInfo) -> (r: bool)
        ensures
            r == (self@ == other@),
    {
        match (self, other) {
            (AssetInfoBase::Cw20(a), AssetInfoBase::Cw20(b)) => a.same(b),
            (AssetInfoBase::Native(a), AssetInfoBase::Native(b)) => *a == *b,
            _ => false,
        }
    }

    /// A copy of this kind.
    pub fn duplicate(&self) -> (r: AssetInfo)
        ensures
            r@ == self@,
    {
        match self {
            AssetInfoBase::Cw20(a) => AssetInfoBase::Cw20(a.duplicate()),
            AssetInfoBase::Native(d) => AssetInfoBase::Native(d.clone()),
        }
    }
}

} // verus!
