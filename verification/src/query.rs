use vstd::prelude::*;
use crate::asset_info::InfoView;
use crate::error::CwAssetError;

verus! {

/// A question to the platform about what an account holds.
#[derive(Clone, Debug, PartialEq, Eq)]
pub enum BalanceQuery {
    /// What `address` holds of the native coin `denom`, as the ledger has it.
    Bank { address: String, denom: String },
    /// What `address` holds of the token, as the contract at `contract_addr` has
    /// it.
    Cw20 { contract_addr: String, address: String },
}

/// Whether `query` asks what `address` holds of the asset kind `info`.
pub open spec fn asks_balance(query: BalanceQuery, info: InfoView, address: Seq<char>) -> bool {
    match info {
        InfoView::Native(denom) => query matches BalanceQuery::Bank { address: a, denom: d }
            && a@ == address && d@ == denom,
        InfoView::Cw20(contract) => query matches BalanceQuery::Cw20 {
            contract_addr: c,
            address: a,
        } && c@ == contract && a@ == address,
    }
}

/// Whether `answer` is what `querier`, which stands for the platform, says when
/// it is asked what `address` holds of the asset kind `info`.
pub open spec fn answered<Q: Fn(&BalanceQuery) -> Result<u128, String>>(
    querier: Q,
    info: InfoView,
    address: Seq<char>,
    answer: Result<u128, String>,
) -> bool {
    exists|q: BalanceQuery| asks_balance(q, info, address) && call_ensures(querier, (&q,), answer)
}

/// What a balance query returns, given the platform's answer: the amount, or
/// `QueryFailed` with the platform's reason.
pub fn balance_from_answer(answer: Result<u128, String>) -> (r: Result<u128, CwAssetError>)
    ensures
        match answer {
            Ok(amount) => r == Ok::<u128, CwAssetError>(amount),
            Err(reason) => r == Err::<u128, CwAssetError>(CwAssetError::QueryFailed { reason }),
        },
{
    match answer {
        Ok(amount) => Ok(amount),
        Err(reason) => Err(CwAssetError::QueryFailed { reason }),
    }
}

} // verus!
