use vstd::prelude::*;
use vstd::string::StringExecFns;
use crate::address::Addr;
use crate::asset::asset_checked;
use crate::asset::coin_views;
use crate::asset::is_transfer;
use crate::asset::Asset;
use crate::asset::AssetBase;
use crate::asset::AssetUnchecked;
use crate::asset::AssetView;
use crate::asset::Coin;
use crate::asset_info::AssetInfo;
use crate::asset_info::InfoView;
use crate::asset_list_model::add_failure;
use crate::asset_list_model::add_op;
use crate::asset_list_model::added;
use crate::asset_list_model::added_all;
use crate::asset_list_model::amount_of;
use crate::asset_list_model::deduct_op;
use crate::asset_list_model::deducted;
use crate::asset_list_model::deducted_all;
use crate::asset_list_model::distinct_kinds;
use crate::asset_list_model::folded;
use crate::asset_list_model::is_first_of;
use crate::asset_list_model::kinds_of;
use crate::asset_list_model::lemma_added_distinct;
use crate::asset_list_model::lemma_deducted_distinct;
use crate::asset_list_model::lemma_folded_step;
use crate::asset_list_model::lemma_folded_stuck;
use crate::asset_list_model::lemma_native_coins_push;
use crate::asset_list_model::lemma_position;
use crate::asset_list_model::list_text;
use crate::asset_list_model::native_coins;
use crate::asset_list_model::paired;
use crate::asset_list_model::position;
use crate::asset_list_model::purged;
use crate::error::CwAssetError;
use crate::message::OutboundMsg;
use crate::query::answered;
use crate::query::balance_from_answer;
use crate::query::BalanceQuery;

verus! {

/// A list of assets in which an asset that is added merges into the one of its
/// kind.
#[derive(Clone, Debug, PartialEq, Eq)]
pub struct AssetListBase<T>(pub(crate) Vec<AssetBase<T>>);

/// A list of assets whose contract addresses are raw text.
pub type AssetListUnchecked = AssetListBase<String>;

/// A list of assets whose contract addresses are `Addr`s.
pub type AssetList = AssetListBase<Addr>;

/// What each of the assets is.
pub open spec fn asset_views(v: Seq<Asset>) -> Seq<AssetView> {
    v.map_values(|a: Asset| a@)
}

/// What each of the unchecked assets is.
pub open spec fn unchecked_views(v: Seq<AssetUnchecked>) -> Seq<AssetView> {
    v.map_values(|a: AssetUnchecked| a@)
}

/// What each of the asset kinds is.
pub open spec fn info_views(v: Seq<AssetInfo>) -> Seq<InfoView> {
    v.map_values(|i: AssetInfo| i@)
}

impl View for AssetListBase<String> {
    type V = Seq<AssetView>;

    closed spec fn view(&self) -> Seq<AssetView> {
        unchecked_views(self.0@)
    }
}

impl View for AssetListBase<Addr> {
    type V = Seq<AssetView>;

    closed spec fn view(&self) -> Seq<AssetView> {
        asset_views(self.0@)
    }
}

/// Whether `r` is what checking the assets of `s` with `validate` and adding
/// them to an empty list, one after the other from the first, comes to. The
/// list of them all; or the error of the first asset that is turned down, or
/// whose amount no longer fits.
pub open spec fn list_checked<F: Fn(&String) -> Result<Addr, String>>(
    validate: F,
    s: Seq<AssetView>,
    r: Result<AssetList, CwAssetError>,
) -> bool {
    exists|checked: Seq<Asset>|
        {
            &&& checked.len() <= s.len()
            &&& forall|i: int|
                0 <= i < checked.len() ==> asset_checked(
                    validate,
                    s[i],
                    Ok(#[trigger] checked[i]),
                )
            &&& added_all(Seq::empty(), asset_views(checked)).1 == checked.len()
            &&& match r {
                Ok(list) => checked.len() == s.len() && list@ == added_all(
                    Seq::empty(),
                    asset_views(checked),
                ).0,
                Err(e) => checked.len() < s.len() && check_stops(
                    validate,
                    added_all(Seq::empty(), asset_views(checked)).0,
                    s[checked.len() as int],
                    e,
                ),
            }
        }
}

/// Whether `e` is the error of checking `next` and adding it to `t`: that of the
/// check, or `ArithmeticOverflow` where the checked asset no longer fits.
pub open spec fn check_stops<F: Fn(&String) -> Result<Addr, String>>(
    validate: F,
    t: Seq<AssetView>,
    next: AssetView,
    e: CwAssetError,
) -> bool {
    ||| asset_checked(validate, next, Err(e))
    ||| exists|a: Asset|
        {
            &&& asset_checked(validate, next, Ok(a))
            &&& added(t, a@) is None
            &&& e == CwAssetError::ArithmeticOverflow {
                left: amount_of(t, a@.info),
                right: a.amount,
            }
        }
}

/// Whether `querier` answers, for each of the kinds, that `address` holds the
/// amount at that place.
pub open spec fn all_answered<Q: Fn(&BalanceQuery) -> Result<u128, String>>(
    querier: Q,
    infos: Seq<InfoView>,
    address: Seq<char>,
    amounts: Seq<u128>,
) -> bool {
    &&& amounts.len() == infos.len()
    &&& forall|i: int|
        0 <= i < infos.len() ==> answered(querier, infos[i], address, Ok(#[trigger] amounts[i]))
}

/// Whether the query for the kind at place `i` fails with `reason`, after the
/// queries for all the kinds before it have been answered with an amount.
pub open spec fn first_failure<Q: Fn(&BalanceQuery) -> Result<u128, String>>(
    querier: Q,
    infos: Seq<InfoView>,
    address: Seq<char>,
    i: int,
    reason: String,
) -> bool {
    &&& 0 <= i < infos.len()
    &&& answered(querier, infos[i], address, Err(reason))
    &&& forall|j: int| 0 <= j < i ==> #[trigger] holds_some(querier, infos[j], address)
}

/// Whether `querier` answers with an amount when it is asked what `address`
/// holds of the asset kind `info`.
pub open spec fn holds_some<Q: Fn(&BalanceQuery) -> Result<u128, String>>(
    querier: Q,
    info: InfoView,
    address: Seq<char>,
) -> bool {
    exists|amount: u128| answered(querier, info, address, Ok(amount))
}

/// Whether `r` is the list of what `address` holds of the kinds, as `querier`
/// answers: the list that the answered amounts make, `ArithmeticOverflow` where
/// they do not fit, or `QueryFailed` with the reason that `querier` gave for the
/// first kind whose query failed.
pub open spec fn balances_listed<Q: Fn(&BalanceQuery) -> Result<u128, String>>(
    querier: Q,
    infos: Seq<InfoView>,
    address: Seq<char>,
    r: Result<AssetList, CwAssetError>,
) -> bool {
    match r {
        Ok(list) => exists|amounts: Seq<u128>|
            {
                &&& all_answered(querier, infos, address, amounts)
                &&& added_all(Seq::empty(), paired(infos, amounts)) == (
                    list@,
                    infos.len() as int,
                )
            },
        Err(CwAssetError::QueryFailed { reason }) => exists|i: int|
            first_failure(querier, infos, address, i, reason),
        Err(e) => exists|amounts: Seq<u128>|
            {
                &&& all_answered(querier, infos, address, amounts)
                &&& added_all(Seq::empty(), paired(infos, amounts)).1 != infos.len()
                &&& e == add_failure(Seq::empty(), paired(infos, amounts))
            },
    }
}

/// Calls `Uint128::checked_add` of cosmwasm-std: the sum, or nothing where it
/// does not fit in 128 bits.
#[verifier::external_body]
fn uint128_checked_add(a: u128, b: u128) -> (r: Option<u128>)
    ensures
        a + b <= u128::MAX ==> r == Some((a + b) as u128),
        a + b > u128::MAX ==> r is None,
{
    cosmwasm_std::Uint128::new(a).checked_add(cosmwasm_std::Uint128::new(b)).ok().map(|v| v.u128())
}

/// Calls `Uint128::checked_sub` of cosmwasm-std: the difference, or nothing where
/// the second number is the larger.
#[verifier::external_body]
fn uint128_checked_sub(a: u128, b: u128) -> (r: Option<u128>)
    ensures
        a >= b ==> r == Some((a - b) as u128),
        a < b ==> r is None,
{
    cosmwasm_std::Uint128::new(a).checked_sub(cosmwasm_std::Uint128::new(b)).ok().map(|v| v.u128())
}

impl Default for AssetList {
    fn default() -> (r: AssetList)
        ensures
            r@ == Seq::<AssetView>::empty(),
    {
        AssetList::new()
    }
}

impl Default for AssetListUnchecked {
    fn default() -> (r: AssetListUnchecked)
        ensures
            r@ == Seq::<AssetView>::empty(),
    {
        let r = AssetListBase(Vec::new());
        assert(r@ =~= Seq::<AssetView>::empty());
        r
    }
}

impl AssetListUnchecked {
    /// The list of the given assets as they are: nothing merges and nothing is
    /// left out.
    pub fn from_vec(assets: Vec<AssetUnchecked>) -> (r: AssetListUnchecked)
        ensures
            r@ == unchecked_views(assets@),
    {
        AssetListBase(assets)
    }

    /// The number of assets in the list.
    pub fn len(&self) -> (r: usize)
        ensures
            r == self@.len(),
    {
        self.0.len()
    }

    /// Checks every asset with `validate` and adds it to a new list, one after
    /// the other from the first: assets of one kind merge, assets of amount zero
    /// are left out. The first asset that is turned down, or whose amount no
    /// longer fits, ends it with its error.
    pub fn check<F: Fn(&String) -> Result<Addr, String>>(&self, validate: &F) -> (r: Result<
        AssetList,
        CwAssetError,
    >)
        requires
            forall|raw: String| call_requires(*validate, (&raw,)),
        ensures
            list_checked(*validate, self@, r),
            r is Ok ==> distinct_kinds(r->Ok_0@),
    {
        let mut assets = AssetList::new();
        let ghost mut checked: Seq<Asset> = Seq::empty();
        let mut i: usize = 0;
        assert(asset_views(checked) =~= Seq::<AssetView>::empty());
        while i < self.0.len()
            invariant
                i <= self.0.len(),
                checked.len() == i,
                forall|raw: String| call_requires(*validate, (&raw,)),
                forall|j: int|
                    0 <= j < i ==> asset_checked(*validate, self@[j], Ok(#[trigger] checked[j])),
                added_all(Seq::empty(), asset_views(checked)) == (assets@, i as int),
                distinct_kinds(assets@),
            decreases self.0.len() - i,
        {
            let ghost before = checked;
            match self.0[i].check(validate) {
                Ok(asset) => {
                    proof {
                        checked = checked.push(asset);
                        let xs = asset_views(checked);
                        assert(xs.take(i as int) =~= asset_views(before));
                        lemma_folded_step(add_op(), Seq::empty(), xs, i as int);
                        assert(xs.take(i + 1) =~= xs);
                    }
                    match assets.add(&asset) {
                        Ok(()) => {},
                        Err(e) => {
                            proof {
                                assert(check_stops(*validate, assets@, self@[i as int], e));
                                assert(list_checked(
                                    *validate,
                                    self@,
                                    Err::<AssetList, CwAssetError>(e),
                                )) by {
                                    assert(added_all(Seq::empty(), asset_views(before)).1
                                        == before.len());
                                }
                            }
                            return Err(e);
                        },
                    }
                },
                Err(e) => {
                    proof {
                        assert(check_stops(*validate, assets@, self@[i as int], e));
                    }
                    return Err(e);
                },
            }
            i += 1;
        }
        Ok(assets)
    }
}

impl AssetList {
    /// The empty list.
    pub fn new() -> (r: AssetList)
        ensures
            r@ == Seq::<AssetView>::empty(),
    {
        let r = AssetListBase(Vec::new());
        assert(r@ =~= Seq::<AssetView>::empty());
        r
    }

    /// The number of assets in the list.
    pub fn len(&self) -> (r: usize)
        ensures
            r == self@.len(),
    {
        self.0.len()
    }

    /// The asset at the given place, if the list is that long.
    pub fn get(&self, idx: usize) -> (r: Option<&Asset>)
        ensures
            idx < self@.len() ==> r is Some && r->Some_0@ == self@[idx as int],
            idx >= self@.len() ==> r is None,
    {
        if idx < self.0.len() {
            Some(&self.0[idx])
        } else {
            None
        }
    }

    /// A copy of the assets, in their order.
    pub fn to_vec(&self) -> (r: Vec<Asset>)
        ensures
            asset_views(r@) == self@,
    {
        let mut copy: Vec<Asset> = Vec::new();
        let mut i: usize = 0;
        while i < self.0.len()
            invariant
                i <= self.0.len(),
                copy@.len() == i,
                forall|j: int| 0 <= j < i ==> (#[trigger] copy@[j])@ == self.0@[j]@,
            decreases self.0.len() - i,
        {
            copy.push(self.0[i].duplicate());
            i += 1;
        }
        assert(asset_views(copy@) =~= self@);
        copy
    }

    /// The assets, in their order.
    pub fn into_vec(self) -> (r: Vec<Asset>)
        ensures
            asset_views(r@) == self@,
    {
        self.0
    }

    /// The list of the given assets as they are, in their order: nothing merges
    /// and nothing is left out.
    pub fn from_vec_unmerged(assets: Vec<Asset>) -> (r: AssetList)
        ensures
            r@ == asset_views(assets@),
    {
        AssetListBase(assets)
    }

    /// The list of the given assets, each added to the ones before it: assets of
    /// one kind merge, assets of amount zero are left out. Where a sum does not
    /// fit, `ArithmeticOverflow`.
    pub fn from_assets(assets: Vec<Asset>) -> (r: Result<AssetList, CwAssetError>)
        ensures
            r is Ok <==> added_all(Seq::empty(), asset_views(assets@)).1 == assets@.len(),
            r is Ok ==> r->Ok_0@ == added_all(Seq::empty(), asset_views(assets@)).0
                && distinct_kinds(r->Ok_0@),
            r is Err ==> r->Err_0 == add_failure(Seq::empty(), asset_views(assets@)),
    {
        let mut list = AssetList::new();
        let other = AssetListBase(assets);
        match list.add_many(&other) {
            Ok(()) => Ok(list),
            Err(e) => Err(e),
        }
    }

    /// The same list with its addresses as raw text.
    pub fn to_unchecked(&self) -> (r: AssetListUnchecked)
        ensures
            r@ == self@,
    {
        let mut copy: Vec<AssetUnchecked> = Vec::new();
        let mut i: usize = 0;
        while i < self.0.len()
            invariant
                i <= self.0.len(),
                copy@.len() == i,
                forall|j: int| 0 <= j < i ==> (#[trigger] copy@[j])@ == self.0@[j]@,
            decreases self.0.len() - i,
        {
            copy.push(self.0[i].to_unchecked());
            i += 1;
        }
        let r = AssetListBase(copy);
        assert(r@ =~= self@);
        r
    }

    /// The list as text: its assets as text, with commas between them.
    pub fn to_string(&self) -> (r: String)
        ensures
            r@ == list_text(self@),
    {
        let mut text = String::new();
        let mut i: usize = 0;
        while i < self.0.len()
            invariant
                i <= self.0.len(),
                text@ == list_text(self@.take(i as int)),
            decreases self.0.len() - i,
        {
            proof {
                reveal_strlit(",");
                assert(self@.take(i + 1).drop_last() =~= self@.take(i as int));
            }
            if i > 0 {
                text.append(",");
            }
            let item = self.0[i].to_string();
            text.append(item.as_str());
            i += 1;
            assert(text@ =~= list_text(self@.take(i as int)));
        }
        assert(self@.take(i as int) =~= self@);
        text
    }

    /// The native coins of the list as ledger coins, in their order; the tokens
    /// are left out.
    pub fn get_native_coins(&self) -> (r: Vec<Coin>)
        ensures
            coin_views(r@) == native_coins(self@),
    {
        let mut coins: Vec<Coin> = Vec::new();
        let mut i: usize = 0;
        while i < self.0.len()
            invariant
                i <= self.0.len(),
                coin_views(coins@) == native_coins(self@.take(i as int)),
            decreases self.0.len() - i,
        {
            proof {
                lemma_native_coins_push(self@.take(i as int), self@[i as int]);
                assert(self@.take(i + 1) =~= self@.take(i as int).push(self@[i as int]));
            }
            match self.0[i].to_coin() {
                Ok(coin) => {
                    coins.push(coin);
                },
                Err(_) => {},
            }
            i += 1;
            assert(coin_views(coins@) =~= native_coins(self@.take(i as int)));
        }
        assert(self@.take(i as int) =~= self@);
        coins
    }

    /// The list as ledger coins, or `NotNative` where it holds a token.
    pub fn to_coins(&self) -> (r: Result<Vec<Coin>, CwAssetError>)
        ensures
            (forall|i: int| 0 <= i < self@.len() ==> self@[i].info is Native) ==> r is Ok,
            r is Ok ==> coin_views(r->Ok_0@) == native_coins(self@) && r->Ok_0@.len()
                == self@.len(),
            r is Err ==> r->Err_0 == CwAssetError::NotNative && exists|i: int|
                0 <= i < self@.len() && self@[i].info is Cw20,
    {
        let mut coins: Vec<Coin> = Vec::new();
        let mut i: usize = 0;
        while i < self.0.len()
            invariant
                i <= self.0.len(),
                coins@.len() == i,
                coin_views(coins@) == native_coins(self@.take(i as int)),
            decreases self.0.len() - i,
        {
            proof {
                lemma_native_coins_push(self@.take(i as int), self@[i as int]);
                assert(self@.take(i + 1) =~= self@.take(i as int).push(self@[i as int]));
            }
            match self.0[i].to_coin() {
                Ok(coin) => {
                    coins.push(coin);
                },
                Err(e) => {
                    assert(self@[i as int].info is Cw20);
                    return Err(e);
                },
            }
            i += 1;
            assert(coin_views(coins@) =~= native_coins(self@.take(i as int)));
        }
        assert(self@.take(i as int) =~= self@);
        Ok(coins)
    }

    /// The two assets of a list of two, or `WrongLength`.
    pub fn into_pair(self) -> (r: Result<(Asset, Asset), CwAssetError>)
        ensures
            self@.len() == 2 ==> r is Ok && r->Ok_0.0@ == self@[0] && r->Ok_0.1@ == self@[1],
            self@.len() != 2 ==> r == Err::<(Asset, Asset), CwAssetError>(
                CwAssetError::WrongLength { expected: 2, found: self@.len() as usize },
            ),
    {
        if self.0.len() != 2 {
            return Err(CwAssetError::WrongLength { expected: 2, found: self.0.len() });
        }
        let first = self.0[0].duplicate();
        let second = self.0[1].duplicate();
        Ok((first, second))
    }

    /// Gives every asset of the list, in the list's order, the amount that `f`
    /// makes of it. Assets of amount zero stay in the list.
    pub fn apply<F: Fn(&Asset) -> u128>(&mut self, f: F)
        requires
            forall|a: Asset| call_requires(f, (&a,)),
        ensures
            final(self)@.len() == old(self)@.len(),
            forall|i: int|
                0 <= i < old(self)@.len() ==> {
                    &&& (#[trigger] final(self)@[i]).info == old(self)@[i].info
                    &&& exists|a: Asset|
                        a@ == old(self)@[i] && call_ensures(f, (&a,), final(self)@[i].amount)
                },
            distinct_kinds(old(self)@) ==> distinct_kinds(final(self)@),
    {
        let mut i: usize = 0;
        while i < self.0.len()
            invariant
                i <= self.0.len(),
                self@.len() == old(self)@.len(),
                forall|a: Asset| call_requires(f, (&a,)),
                forall|j: int| i <= j < self@.len() ==> self@[j] == old(self)@[j],
                forall|j: int|
                    0 <= j < i ==> {
                        &&& (#[trigger] self@[j]).info == old(self)@[j].info
                        &&& exists|a: Asset|
                            a@ == old(self)@[j] && call_ensures(f, (&a,), self@[j].amount)
                    },
            decreases self.0.len() - i,
        {
            let amount = f(&self.0[i]);
            let ghost before = self@;
            let ghost item = self.0@[i as int];
            self.0[i].amount = amount;
            proof {
                assert(item@ == old(self)@[i as int]);
                assert(call_ensures(f, (&item,), self@[i as int].amount));
                assert forall|j: int| 0 <= j < i + 1 implies {
                    &&& (#[trigger] self@[j]).info == old(self)@[j].info
                    &&& exists|a: Asset|
                        a@ == old(self)@[j] && call_ensures(f, (&a,), self@[j].amount)
                } by {
                    if j < i {
                        assert(self@[j] == before[j]);
                    } else {
                        assert(self@[j].info == before[j].info);
                    }
                }
                assert forall|j: int| i < j < self@.len() implies self@[j] == old(self)@[j] by {
                    assert(self@[j] == before[j]);
                }
            }
            i += 1;
        }
        proof {
            if distinct_kinds(old(self)@) {
                assert forall|a: int, b: int| 0 <= a < b < self@.len() implies self@[a].info
                    != self@[b].info by {
                    assert(self@[a].info == old(self)@[a].info);
                    assert(self@[b].info == old(self)@[b].info);
                }
            }
        }
    }

    /// The instructions that move every asset of the list to `to`, one for each
    /// asset and in the list's order.
    pub fn transfer_msgs(&self, to: &str) -> (r: Result<Vec<OutboundMsg>, CwAssetError>)
        ensures
            r is Ok,
            r->Ok_0@.len() == self@.len(),
            forall|i: int|
                0 <= i < self@.len() ==> is_transfer(#[trigger] r->Ok_0@[i], self@[i], to@),
    {
        let mut msgs: Vec<OutboundMsg> = Vec::new();
        let mut i: usize = 0;
        while i < self.0.len()
            invariant
                i <= self.0.len(),
                msgs@.len() == i,
                forall|j: int| 0 <= j < i ==> is_transfer(#[trigger] msgs@[j], self@[j], to@),
            decreases self.0.len() - i,
        {
            match self.0[i].transfer_msg(to) {
                Ok(msg) => {
                    msgs.push(msg);
                },
                Err(e) => {
                    return Err(e);
                },
            }
            i += 1;
        }
        Ok(msgs)
    }

    /// The list of the given kinds with the given amounts, place by place, each
    /// asset added to the ones before it: assets of one kind merge, assets of
    /// amount zero are left out. Where there are not as many amounts as kinds,
    /// `WrongLength`; where a sum does not fit, `ArithmeticOverflow`.
    pub fn with_amounts(asset_infos: &Vec<AssetInfo>, amounts: &Vec<u128>) -> (r: Result<
        AssetList,
        CwAssetError,
    >)
        ensures
            asset_infos@.len() != amounts@.len() ==> r == Err::<AssetList, CwAssetError>(
                CwAssetError::WrongLength {
                    expected: asset_infos@.len() as usize,
                    found: amounts@.len() as usize,
                },
            ),
            asset_infos@.len() == amounts@.len() ==> {
                let assets = paired(info_views(asset_infos@), amounts@);
                &&& r is Ok <==> added_all(Seq::empty(), assets).1 == asset_infos@.len()
                &&& r is Ok ==> r->Ok_0@ == added_all(Seq::empty(), assets).0 && distinct_kinds(
                    r->Ok_0@,
                )
                &&& r is Err ==> r->Err_0 == add_failure(Seq::empty(), assets)
            },
    {
        if asset_infos.len() != amounts.len() {
            return Err(
                CwAssetError::WrongLength { expected: asset_infos.len(), found: amounts.len() },
            );
        }
        let mut assets: Vec<Asset> = Vec::new();
        let mut i: usize = 0;
        while i < asset_infos.len()
            invariant
                i <= asset_infos@.len(),
                asset_infos@.len() == amounts@.len(),
                assets@.len() == i,
                forall|j: int|
                    0 <= j < i ==> (#[trigger] assets@[j])@ == (AssetView {
                        info: asset_infos@[j]@,
                        amount: amounts@[j],
                    }),
            decreases asset_infos@.len() - i,
        {
            assets.push(asset_infos[i].to_asset(amounts[i]));
            i += 1;
        }
        assert(asset_views(assets@) =~= paired(info_views(asset_infos@), amounts@));
        AssetList::from_assets(assets)
    }

    /// What `addr` holds of each of the given kinds, asked of `querier` kind by
    /// kind in the given order, up to the first failure.
    pub fn collect_balances<Q: Fn(&BalanceQuery) -> Result<u128, String>>(
        asset_infos: &Vec<AssetInfo>,
        querier: &Q,
        addr: &Addr,
    ) -> (r: Result<Vec<u128>, CwAssetError>)
        requires
            forall|q: BalanceQuery| call_requires(*querier, (&q,)),
        ensures
            match r {
                Ok(amounts) => {
                    &&& amounts@.len() == asset_infos@.len()
                    &&& forall|i: int|
                        0 <= i < asset_infos@.len() ==> answered(
                            *querier,
                            asset_infos@[i]@,
                            addr@,
                            Ok(#[trigger] amounts@[i]),
                        )
                },
                Err(CwAssetError::QueryFailed { reason }) => exists|i: int|
                    first_failure(*querier, info_views(asset_infos@), addr@, i, reason),
                Err(_) => false,
            },
    {
        let mut amounts: Vec<u128> = Vec::new();
        let mut i: usize = 0;
        while i < asset_infos.len()
            invariant
                i <= asset_infos@.len(),
                amounts@.len() == i,
                forall|q: BalanceQuery| call_requires(*querier, (&q,)),
                forall|j: int|
                    0 <= j < i ==> answered(
                        *querier,
                        asset_infos@[j]@,
                        addr@,
                        Ok(#[trigger] amounts@[j]),
                    ),
            decreases asset_infos@.len() - i,
        {
            let query = asset_infos[i].balance_query(addr.as_str());
            let answer = querier(&query);
            assert(answered(*querier, asset_infos@[i as int]@, addr@, answer));
            match balance_from_answer(answer) {
                Ok(amount) => {
                    amounts.push(amount);
                },
                Err(e) => {
                    proof {
                        let infos = info_views(asset_infos@);
                        assert(infos[i as int] == asset_infos@[i as int]@);
                        assert forall|j: int| 0 <= j < i implies #[trigger] holds_some(
                            *querier,
                            infos[j],
                            addr@,
                        ) by {
                            assert(infos[j] == asset_infos@[j]@);
                            assert(answered(*querier, infos[j], addr@, Ok(amounts@[j])));
                        }
                        assert(answer == Err::<u128, String>(e->QueryFailed_reason));
                        assert(answered(*querier, infos[i as int], addr@, answer));
                        assert(first_failure(
                            *querier,
                            infos,
                            addr@,
                            i as int,
                            e->QueryFailed_reason,
                        ));
                    }
                    return Err(e);
                },
            }
            i += 1;
        }
        Ok(amounts)
    }

    /// The list of what `addr` holds of each of the given kinds. The kinds are
    /// asked of `querier` in the given order; the first failure is handed on as
    /// `QueryFailed`. The amounts then make a list as `with_amounts` has it.
    pub fn query_asset_info_balances<Q: Fn(&BalanceQuery) -> Result<u128, String>>(
        asset_infos: Vec<AssetInfo>,
        querier: &Q,
        addr: &Addr,
    ) -> (r: Result<AssetList, CwAssetError>)
        requires
            forall|q: BalanceQuery| call_requires(*querier, (&q,)),
        ensures
            balances_listed(*querier, info_views(asset_infos@), addr@, r),
    {
        let amounts = match AssetList::collect_balances(&asset_infos, querier, addr) {
            Ok(amounts) => amounts,
            Err(e) => {
                return Err(e);
            },
        };
        let r = AssetList::with_amounts(&asset_infos, &amounts);
        proof {
            let infos = info_views(asset_infos@);
            assert forall|i: int| 0 <= i < infos.len() implies answered(
                *querier,
                infos[i],
                addr@,
                Ok(#[trigger] amounts@[i]),
            ) by {
                assert(infos[i] == asset_infos@[i]@);
            }
            assert(all_answered(*querier, infos, addr@, amounts@));
            let whole = added_all(Seq::empty(), paired(infos, amounts@));
            if r is Ok {
                assert(whole == (r->Ok_0@, infos.len() as int));
            }
        }
        r
    }

    /// The list of what `addr` holds of each kind of this list, as
    /// `query_asset_info_balances` has it.
    pub fn query_balances<Q: Fn(&BalanceQuery) -> Result<u128, String>>(
        &self,
        querier: &Q,
        addr: &Addr,
    ) -> (r: Result<AssetList, CwAssetError>)
        requires
            forall|q: BalanceQuery| call_requires(*querier, (&q,)),
        ensures
            balances_listed(*querier, kinds_of(self@), addr@, r),
    {
        let mut asset_infos: Vec<AssetInfo> = Vec::new();
        let mut i: usize = 0;
        while i < self.0.len()
            invariant
                i <= self.0.len(),
                asset_infos@.len() == i,
                forall|j: int| 0 <= j < i ==> (#[trigger] asset_infos@[j])@ == self@[j].info,
            decreases self.0.len() - i,
        {
            asset_infos.push(self.0[i].info.duplicate());
            i += 1;
        }
        assert(info_views(asset_infos@) =~= kinds_of(self@));
        AssetList::query_asset_info_balances(asset_infos, querier, addr)
    }

    /// The assets as a slice, in their order.
    pub fn as_slice(&self) -> (r: &[Asset])
        ensures
            asset_views(r@) == self@,
    {
        self.0.as_slice()
    }

    /// An iterator over the assets, in their order.
    pub fn iter(&self) -> (r: core::slice::Iter<'_, Asset>)
        ensures
            asset_views(vstd::std_specs::slice::into_iter_elts(r)) == self@,
    {
        let items = self.0.as_slice();
        let r = items.iter();
        proof {
            vstd::std_specs::slice::axiom_spec_slice_iter(items);
            assert(vstd::std_specs::slice::into_iter_elts(r) =~= self.0@);
        }
        r
    }

    /// The place of the first asset of the given kind.
    fn index_of(&self, info: &AssetInfo) -> (r: Option<usize>)
        ensures
            match r {
                Some(i) => position(self@, info@) == Some(i as int),
                None => position(self@, info@) is None,
            },
    {
        let mut i: usize = 0;
        while i < self.0.len()
            invariant
                i <= self.0.len(),
                forall|j: int| 0 <= j < i ==> self@[j].info != info@,
            decreases self.0.len() - i,
        {
            if self.0[i].info.same(info) {
                proof {
                    assert(is_first_of(self@, info@, i as int));
                    lemma_position(self@, info@);
                }
                return Some(i);
            }
            i += 1;
        }
        proof {
            lemma_position(self@, info@);
        }
        None
    }

    /// The first asset of the given kind, if the list holds one.
    pub fn find(&self, info: &AssetInfo) -> (r: Option<&Asset>)
        ensures
            match position(self@, info@) {
                Some(i) => r is Some && r->Some_0@ == self@[i],
                None => r is None,
            },
            r is Some ==> r->Some_0@.info == info@ && r->Some_0@.amount == amount_of(
                self@,
                info@,
            ),
            r is None ==> amount_of(self@, info@) == 0,
    {
        proof {
            lemma_position(self@, info@);
        }
        match self.index_of(info) {
            Some(i) => Some(&self.0[i]),
            None => None,
        }
    }

    /// Removes the assets of amount zero; the others stay in their order.
    pub fn purge(&mut self)
        ensures
            final(self)@ == purged(old(self)@),
    {
        let mut kept: Vec<Asset> = Vec::new();
        let mut i: usize = 0;
        while i < self.0.len()
            invariant
                i <= self.0.len(),
                kept@.map_values(|a: Asset| a@) == purged(self@.take(i as int)),
            decreases self.0.len() - i,
        {
            proof {
                reveal(Seq::filter);
                assert(self@.take(i + 1).drop_last() =~= self@.take(i as int));
            }
            if self.0[i].amount != 0 {
                kept.push(self.0[i].duplicate());
            }
            i += 1;
            assert(kept@.map_values(|a: Asset| a@) =~= purged(self@.take(i as int)));
        }
        assert(self@.take(i as int) =~= self@);
        self.0 = kept;
    }

    /// Adds an asset: the first asset of its kind grows by its amount, or, where
    /// the list holds none of the kind, the asset goes to the end; then the assets
    /// of amount zero are removed. Where the sum does not fit, the list stays as it
    /// is and the error holds the two amounts.
    pub fn add(&mut self, asset_to_add: &Asset) -> (r: Result<(), CwAssetError>)
        ensures
            match added(old(self)@, asset_to_add@) {
                Some(s) => r is Ok && final(self)@ == s,
                None => final(self)@ == old(self)@ && r == Err::<(), CwAssetError>(
                    CwAssetError::ArithmeticOverflow {
                        left: amount_of(old(self)@, asset_to_add@.info),
                        right: asset_to_add.amount,
                    },
                ),
            },
            distinct_kinds(old(self)@) ==> distinct_kinds(final(self)@),
    {
        proof {
            if distinct_kinds(self@) {
                lemma_added_distinct(self@, asset_to_add@);
            }
        }
        match self.index_of(&asset_to_add.info) {
            Some(i) => {
                let held = self.0[i].amount;
                match uint128_checked_add(held, asset_to_add.amount) {
                    Some(sum) => {
                        let ghost before = self@;
                        self.0[i].amount = sum;
                        assert(self@ =~= before.update(
                            i as int,
                            AssetView { info: asset_to_add@.info, amount: sum },
                        ));
                    },
                    None => {
                        return Err(
                            CwAssetError::ArithmeticOverflow {
                                left: held,
                                right: asset_to_add.amount,
                            },
                        );
                    },
                }
            },
            None => {
                let ghost before = self@;
                self.0.push(asset_to_add.duplicate());
                assert(self@ =~= before.push(asset_to_add@));
            },
        }
        self.purge();
        Ok(())
    }

    /// Adds the assets of another list, one after the other from the first. The
    /// first that overflows ends it: the list then stays as the assets before that
    /// one left it, and the error is that of that one.
    pub fn add_many(&mut self, assets_to_add: &AssetList) -> (r: Result<(), CwAssetError>)
        ensures
            final(self)@ == added_all(old(self)@, assets_to_add@).0,
            r is Ok <==> added_all(old(self)@, assets_to_add@).1 == assets_to_add@.len(),
            r is Err ==> 0 <= added_all(old(self)@, assets_to_add@).1 < assets_to_add@.len()
                && r->Err_0 == add_failure(old(self)@, assets_to_add@),
            distinct_kinds(old(self)@) ==> distinct_kinds(final(self)@),
    {
        let ghost xs = assets_to_add@;
        let ghost start = self@;
        let mut i: usize = 0;
        while i < assets_to_add.0.len()
            invariant
                i <= assets_to_add.0.len(),
                xs == assets_to_add@,
                start == old(self)@,
                folded(add_op(), start, xs.take(i as int)) == (self@, i as int),
                distinct_kinds(start) ==> distinct_kinds(self@),
            decreases assets_to_add.0.len() - i,
        {
            proof {
                lemma_folded_step(add_op(), start, xs, i as int);
                assert(xs[i as int] == assets_to_add.0@[i as int]@);
            }
            match self.add(&assets_to_add.0[i]) {
                Ok(()) => {},
                Err(e) => {
                    proof {
                        lemma_folded_stuck(add_op(), start, xs, i as int, xs.len() as int);
                        assert(xs.take(xs.len() as int) =~= xs);
                    }
                    return Err(e);
                },
            }
            i += 1;
        }
        assert(xs.take(i as int) =~= xs);
        Ok(())
    }

    /// Deducts the assets of another list, one after the other from the first.
    /// The first that the list does not hold, or holds less of, ends it: the list
    /// then stays as the assets before that one left it, and the error is that of
    /// that one.
    pub fn deduct_many(&mut self, assets_to_deduct: &AssetList) -> (r: Result<(), CwAssetError>)
        ensures
            final(self)@ == deducted_all(old(self)@, assets_to_deduct@).0,
            r is Ok <==> deducted_all(old(self)@, assets_to_deduct@).1
                == assets_to_deduct@.len(),
            r is Err ==> ({
                let n = deducted_all(old(self)@, assets_to_deduct@).1;
                let y = assets_to_deduct@[n];
                &&& 0 <= n < assets_to_deduct@.len()
                &&& position(final(self)@, y.info) is None ==> (r matches Err(
                    CwAssetError::NotFound { info },
                ) && info@ == y.info.text())
                &&& position(final(self)@, y.info) is Some ==> r == Err::<(), CwAssetError>(
                    CwAssetError::ArithmeticUnderflow {
                        left: amount_of(final(self)@, y.info),
                        right: y.amount,
                    },
                )
            }),
            distinct_kinds(old(self)@) ==> distinct_kinds(final(self)@),
    {
        let ghost xs = assets_to_deduct@;
        let ghost start = self@;
        let mut i: usize = 0;
        while i < assets_to_deduct.0.len()
            invariant
                i <= assets_to_deduct.0.len(),
                xs == assets_to_deduct@,
                start == old(self)@,
                folded(deduct_op(), start, xs.take(i as int)) == (self@, i as int),
                distinct_kinds(start) ==> distinct_kinds(self@),
            decreases assets_to_deduct.0.len() - i,
        {
            proof {
                lemma_folded_step(deduct_op(), start, xs, i as int);
                assert(xs[i as int] == assets_to_deduct.0@[i as int]@);
            }
            match self.deduct(&assets_to_deduct.0[i]) {
                Ok(()) => {},
                Err(e) => {
                    proof {
                        lemma_folded_stuck(deduct_op(), start, xs, i as int, xs.len() as int);
                        assert(xs.take(xs.len() as int) =~= xs);
                    }
                    return Err(e);
                },
            }
            i += 1;
        }
        assert(xs.take(i as int) =~= xs);
        Ok(())
    }

    /// Deducts an asset: the first asset of its kind shrinks by its amount; then
    /// the assets of amount zero are removed. Where the list holds none of the
    /// kind, or less than the amount, the list stays as it is.
    pub fn deduct(&mut self, asset_to_deduct: &Asset) -> (r: Result<(), CwAssetError>)
        ensures
            match deducted(old(self)@, asset_to_deduct@) {
                Some(s) => r is Ok && final(self)@ == s,
                None => final(self)@ == old(self)@ && r is Err,
            },
            position(old(self)@, asset_to_deduct@.info) is None ==> (r matches Err(
                CwAssetError::NotFound { info },
            ) && info@ == asset_to_deduct@.info.text()),
            position(old(self)@, asset_to_deduct@.info) is Some && amount_of(
                old(self)@,
                asset_to_deduct@.info,
            ) < asset_to_deduct.amount ==> r == Err::<(), CwAssetError>(
                CwAssetError::ArithmeticUnderflow {
                    left: amount_of(old(self)@, asset_to_deduct@.info),
                    right: asset_to_deduct.amount,
                },
            ),
            distinct_kinds(old(self)@) ==> distinct_kinds(final(self)@),
    {
        proof {
            if distinct_kinds(self@) {
                lemma_deducted_distinct(self@, asset_to_deduct@);
            }
        }
        match self.index_of(&asset_to_deduct.info) {
            Some(i) => {
                let held = self.0[i].amount;
                match uint128_checked_sub(held, asset_to_deduct.amount) {
                    Some(rest) => {
                        let ghost before = self@;
                        self.0[i].amount = rest;
                        assert(self@ =~= before.update(
                            i as int,
                            AssetView { info: asset_to_deduct@.info, amount: rest },
                        ));
                    },
                    None => {
                        return Err(
                            CwAssetError::ArithmeticUnderflow {
                                left: held,
                                right: asset_to_deduct.amount,
                            },
                        );
                    },
                }
            },
            None => {
                return Err(CwAssetError::NotFound { info: asset_to_deduct.info.to_string() });
            },
        }
        self.purge();
        Ok(())
    }
}

} // verus!
