use vstd::prelude::*;
use crate::asset::AssetView;
use crate::asset::CoinView;
use crate::asset_info::InfoView;
use crate::error::CwAssetError;
use crate::search::first_index;
use crate::search::is_first;
use crate::search::lemma_first_index;

verus! {


/// Whether an asset is of the given kind, as a value.
pub open spec fn of_kind(info: InfoView) -> spec_fn(AssetView) -> bool {
    |a: AssetView| a.info == info
}

/// Whether index `i` is the first place in `s` that holds an asset of the kind.
pub open spec fn is_first_of(s: Seq<AssetView>, info: InfoView, i: int) -> bool {
    is_first(s, of_kind(info), i)
}

/// The first place in `s` that holds an asset of the kind, if there is one.
pub open spec fn position(s: Seq<AssetView>, info: InfoView) -> Option<int> {
    first_index(s, of_kind(info))
}

/// The amount that `s` holds of the kind: that of the first asset of the kind,
/// zero where there is none.
pub open spec fn amount_of(s: Seq<AssetView>, info: InfoView) -> u128 {
    match position(s, info) {
        Some(i) => s[i].amount,
        None => 0,
    }
}

/// Whether no two places of `s` hold the same kind.
pub open spec fn distinct_kinds(s: Seq<AssetView>) -> bool {
    forall|i: int, j: int| 0 <= i < j < s.len() ==> s[i].info != s[j].info
}

/// `s` without its assets of amount zero, the others in their order.
pub open spec fn purged(s: Seq<AssetView>) -> Seq<AssetView> {
    s.filter(|a: AssetView| a.amount != 0)
}

/// `s` after an asset has been added, or `None` where the sum overflows: the
/// first asset of the kind grows by the amount, or, where there is none, the
/// asset goes to the end; then the assets of amount zero leave.
pub open spec fn added(s: Seq<AssetView>, x: AssetView) -> Option<Seq<AssetView>> {
    match position(s, x.info) {
        Some(i) => if s[i].amount + x.amount > u128::MAX {
            None
        } else {
            Some(
                purged(
                    s.update(
                        i,
                        AssetView { info: x.info, amount: (s[i].amount + x.amount) as u128 },
                    ),
                ),
            )
        },
        None => Some(purged(s.push(x))),
    }
}

/// `s` after an asset has been deducted, or `None` where `s` holds none of the
/// kind or less than the amount: the first asset of the kind shrinks by the
/// amount; then the assets of amount zero leave.
pub open spec fn deducted(s: Seq<AssetView>, x: AssetView) -> Option<Seq<AssetView>> {
    match position(s, x.info) {
        Some(i) => if s[i].amount < x.amount {
            None
        } else {
            Some(
                purged(
                    s.update(
                        i,
                        AssetView { info: x.info, amount: (s[i].amount - x.amount) as u128 },
                    ),
                ),
            )
        },
        None => None,
    }
}

/// `s` after the elements of `xs` have been folded in with `op`, one after the
/// other from the first, up to the first that `op` fails on; and how many were
/// folded in. The second is the length of `xs` exactly when none failed.
pub open spec fn folded(
    op: spec_fn(Seq<AssetView>, AssetView) -> Option<Seq<AssetView>>,
    s: Seq<AssetView>,
    xs: Seq<AssetView>,
) -> (Seq<AssetView>, int)
    decreases xs.len(),
{
    if xs.len() == 0 {
        (s, 0)
    } else {
        let (t, n) = folded(op, s, xs.drop_last());
        if n < xs.len() - 1 {
            (t, n)
        } else {
            match op(t, xs.last()) {
                Some(u) => (u, n + 1),
                None => (t, n),
            }
        }
    }
}

/// `added` as a value.
pub open spec fn add_op() -> spec_fn(Seq<AssetView>, AssetView) -> Option<Seq<AssetView>> {
    |t: Seq<AssetView>, x: AssetView| added(t, x)
}

/// `deducted` as a value.
pub open spec fn deduct_op() -> spec_fn(Seq<AssetView>, AssetView) -> Option<Seq<AssetView>> {
    |t: Seq<AssetView>, x: AssetView| deducted(t, x)
}

/// `s` after the assets of `xs` have been added, up to the first that
/// overflows.
pub open spec fn added_all(s: Seq<AssetView>, xs: Seq<AssetView>) -> (Seq<AssetView>, int) {
    folded(add_op(), s, xs)
}

/// `s` after the assets of `xs` have been deducted, up to the first that is not
/// there or is too large.
pub open spec fn deducted_all(s: Seq<AssetView>, xs: Seq<AssetView>) -> (Seq<AssetView>, int) {
    folded(deduct_op(), s, xs)
}

/// The error of adding the assets of `xs` to `s`, where one of them overflows:
/// `ArithmeticOverflow` with what the list held of that asset's kind when its
/// turn came, and the asset's amount.
pub open spec fn add_failure(s: Seq<AssetView>, xs: Seq<AssetView>) -> CwAssetError {
    let (t, n) = added_all(s, xs);
    CwAssetError::ArithmeticOverflow { left: amount_of(t, xs[n].info), right: xs[n].amount }
}

/// The kinds of the assets, in their order.
pub open spec fn kinds_of(s: Seq<AssetView>) -> Seq<InfoView> {
    s.map_values(|a: AssetView| a.info)
}

/// The assets of the given kinds and amounts, place by place.
pub open spec fn paired(infos: Seq<InfoView>, amounts: Seq<u128>) -> Seq<AssetView> {
    Seq::new(infos.len(), |i: int| AssetView { info: infos[i], amount: amounts[i] })
}

/// The ledger coins among the assets, in their order.
pub open spec fn native_coins(s: Seq<AssetView>) -> Seq<CoinView> {
    s.filter(|a: AssetView| a.info is Native).map_values(
        |a: AssetView| CoinView { denom: a.info.text(), amount: a.amount },
    )
}

/// The assets as displayed: each as it is displayed, with commas between them.
pub open spec fn list_text(s: Seq<AssetView>) -> Seq<char>
    decreases s.len(),
{
    if s.len() == 0 {
        Seq::empty()
    } else if s.len() == 1 {
        s[0].text()
    } else {
        list_text(s.drop_last()) + seq![','] + s.last().text()
    }
}

/// What `position` returns: the one first place of the kind, or `None` exactly
/// when no place holds the kind.
pub proof fn lemma_position(s: Seq<AssetView>, info: InfoView)
    ensures
        match position(s, info) {
            Some(i) => 0 <= i < s.len() && s[i].info == info && forall|j: int|
                0 <= j < i ==> s[j].info != info,
            None => forall|j: int| 0 <= j < s.len() ==> s[j].info != info,
        },
        forall|i: int| is_first_of(s, info, i) ==> position(s, info) == Some(i),
{
    lemma_first_index(s, of_kind(info));
}

/// Among distinct kinds, the amount of a kind is the amount of the one asset of
/// that kind.
pub proof fn lemma_amount_of_member(s: Seq<AssetView>, i: int)
    requires
        distinct_kinds(s),
        0 <= i < s.len(),
    ensures
        position(s, s[i].info) == Some(i),
        amount_of(s, s[i].info) == s[i].amount,
{
    assert(is_first_of(s, s[i].info, i));
    lemma_position(s, s[i].info);
}

/// Purging keeps exactly the assets of non-zero amount.
pub proof fn lemma_purged_contains(s: Seq<AssetView>, a: AssetView)
    ensures
        purged(s).contains(a) <==> (s.contains(a) && a.amount != 0),
    decreases s.len(),
{
    reveal(Seq::filter);
    if s.len() == 0 {
        assert(purged(s) =~= s);
    } else {
        let front = s.drop_last();
        let last = s.last();
        lemma_purged_contains(front, a);
        let pf = purged(front);
        let ps = purged(s);
        assert(ps == if last.amount != 0 {
            pf.push(last)
        } else {
            pf
        });
        if ps.contains(a) {
            let i = choose|i: int| 0 <= i < ps.len() && ps[i] == a;
            if i < pf.len() {
                assert(pf[i] == a);
                assert(pf.contains(a));
                assert(front.contains(a));
                let j = choose|j: int| 0 <= j < front.len() && front[j] == a;
                assert(s[j] == a);
            } else {
                assert(a == last);
                assert(s[s.len() - 1] == a);
            }
        }
        if s.contains(a) && a.amount != 0 {
            let j = choose|j: int| 0 <= j < s.len() && s[j] == a;
            if j < front.len() {
                assert(front[j] == a);
                assert(front.contains(a));
                assert(pf.contains(a));
                let i = choose|i: int| 0 <= i < pf.len() && pf[i] == a;
                assert(ps[i] == a);
            } else {
                assert(ps[pf.len() as int] == a);
            }
        }
    }
}

/// Purging leaves a list alone that holds no asset of amount zero, and so
/// purging twice is purging once.
pub proof fn law_purge_idempotent(s: Seq<AssetView>)
    ensures
        (forall|i: int| 0 <= i < s.len() ==> s[i].amount != 0) ==> purged(s) == s,
        purged(purged(s)) == purged(s),
{
    if forall|i: int| 0 <= i < s.len() ==> s[i].amount != 0 {
        lemma_purged_fixed(s);
    }
    let p = purged(s);
    assert forall|i: int| 0 <= i < p.len() implies p[i].amount != 0 by {
        assert(p.contains(p[i]));
        lemma_purged_contains(s, p[i]);
    }
    lemma_purged_fixed(p);
}

/// Purging leaves a list alone that holds no asset of amount zero.
proof fn lemma_purged_fixed(s: Seq<AssetView>)
    requires
        forall|i: int| 0 <= i < s.len() ==> s[i].amount != 0,
    ensures
        purged(s) == s,
    decreases s.len(),
{
    reveal(Seq::filter);
    if s.len() == 0 {
        assert(purged(s) =~= s);
    } else {
        let front = s.drop_last();
        assert forall|i: int| 0 <= i < front.len() implies front[i].amount != 0 by {
            assert(front[i] == s[i]);
        }
        lemma_purged_fixed(front);
        assert(purged(s) =~= s);
    }
}

/// Purging keeps kinds distinct.
pub proof fn lemma_purged_distinct(s: Seq<AssetView>)
    requires
        distinct_kinds(s),
    ensures
        distinct_kinds(purged(s)),
    decreases s.len(),
{
    reveal(Seq::filter);
    if s.len() == 0 {
        assert(purged(s) =~= s);
    } else {
        let front = s.drop_last();
        let last = s.last();
        let pf = purged(front);
        let ps = purged(s);
        assert(ps == if last.amount != 0 {
            pf.push(last)
        } else {
            pf
        });
        assert(distinct_kinds(front)) by {
            assert forall|i: int, j: int| 0 <= i < j < front.len() implies front[i].info
                != front[j].info by {
                assert(front[i] == s[i] && front[j] == s[j]);
            }
        }
        lemma_purged_distinct(front);
        assert forall|i: int, j: int| 0 <= i < j < ps.len() implies ps[i].info
            != ps[j].info by {
            if j < pf.len() {
                assert(pf[i] == ps[i] && pf[j] == ps[j]);
            } else {
                assert(ps[j] == last);
                assert(pf[i] == ps[i]);
                assert(pf.contains(pf[i]));
                lemma_purged_contains(front, pf[i]);
                let k = choose|k: int| 0 <= k < front.len() && front[k] == pf[i];
                assert(s[k] == pf[i]);
                assert(s[s.len() - 1] == last);
            }
        }
    }
}

/// Purging a list of distinct kinds changes the amount of no kind.
pub proof fn lemma_purged_amounts(s: Seq<AssetView>, info: InfoView)
    requires
        distinct_kinds(s),
    ensures
        amount_of(purged(s), info) == amount_of(s, info),
{
    lemma_purged_distinct(s);
    lemma_position(s, info);
    lemma_position(purged(s), info);
    let p = purged(s);
    match position(p, info) {
        Some(k) => {
            assert(p.contains(p[k]));
            lemma_purged_contains(s, p[k]);
            let i = choose|i: int| 0 <= i < s.len() && s[i] == p[k];
            lemma_amount_of_member(s, i);
        },
        None => {
            match position(s, info) {
                Some(i) => {
                    if s[i].amount != 0 {
                        assert(s.contains(s[i]));
                        lemma_purged_contains(s, s[i]);
                        let k = choose|k: int| 0 <= k < p.len() && p[k] == s[i];
                        assert(p[k].info == info);
                    }
                },
                None => {},
            }
        },
    }
}

/// The ledger coins of a list that is one asset longer.
pub proof fn lemma_native_coins_push(s: Seq<AssetView>, x: AssetView)
    ensures
        native_coins(s.push(x)) == if x.info is Native {
            native_coins(s).push(CoinView { denom: x.info.text(), amount: x.amount })
        } else {
            native_coins(s)
        },
{
    reveal(Seq::filter);
    let native = |a: AssetView| a.info is Native;
    assert(s.push(x).drop_last() =~= s);
    assert(s.push(x).filter(native) == if native(x) {
        s.filter(native).push(x)
    } else {
        s.filter(native)
    });
    if x.info is Native {
        assert(native_coins(s.push(x)) =~= native_coins(s).push(
            CoinView { denom: x.info.text(), amount: x.amount },
        ));
    }
}

/// One more element folded in, where none has failed so far.
pub proof fn lemma_folded_step(
    op: spec_fn(Seq<AssetView>, AssetView) -> Option<Seq<AssetView>>,
    s: Seq<AssetView>,
    xs: Seq<AssetView>,
    i: int,
)
    requires
        0 <= i < xs.len(),
        folded(op, s, xs.take(i)).1 == i,
    ensures
        folded(op, s, xs.take(i + 1)) == match op(folded(op, s, xs.take(i)).0, xs[i]) {
            Some(u) => (u, i + 1),
            None => (folded(op, s, xs.take(i)).0, i),
        },
{
    assert(xs.take(i + 1).drop_last() =~= xs.take(i));
}

/// Once an element has failed, the elements after it change nothing.
pub proof fn lemma_folded_stuck(
    op: spec_fn(Seq<AssetView>, AssetView) -> Option<Seq<AssetView>>,
    s: Seq<AssetView>,
    xs: Seq<AssetView>,
    i: int,
    k: int,
)
    requires
        0 <= i < k <= xs.len(),
        folded(op, s, xs.take(i + 1)).1 == i,
    ensures
        folded(op, s, xs.take(k)) == folded(op, s, xs.take(i + 1)),
    decreases k,
{
    if k > i + 1 {
        lemma_folded_stuck(op, s, xs, i, k - 1);
        assert(xs.take(k).drop_last() =~= xs.take(k - 1));
    }
}

/// Adding to a list of distinct kinds leaves the kinds distinct.
pub proof fn lemma_added_distinct(s: Seq<AssetView>, x: AssetView)
    requires
        distinct_kinds(s),
    ensures
        added(s, x) is Some ==> distinct_kinds(added(s, x)->Some_0),
{
    lemma_position(s, x.info);
    match position(s, x.info) {
        Some(i) => {
            let t = s.update(i, AssetView { info: x.info, amount: (s[i].amount + x.amount) as u128 });
            assert(distinct_kinds(t)) by {
                assert forall|a: int, b: int| 0 <= a < b < t.len() implies t[a].info
                    != t[b].info by {
                    assert(t[a].info == s[a].info && t[b].info == s[b].info);
                }
            }
            lemma_purged_distinct(t);
        },
        None => {
            let t = s.push(x);
            assert(distinct_kinds(t)) by {
                assert forall|a: int, b: int| 0 <= a < b < t.len() implies t[a].info
                    != t[b].info by {
                    if b < s.len() {
                        assert(t[a] == s[a] && t[b] == s[b]);
                    } else {
                        assert(t[a] == s[a]);
                    }
                }
            }
            lemma_purged_distinct(t);
        },
    }
}

/// Deducting from a list of distinct kinds leaves the kinds distinct.
pub proof fn lemma_deducted_distinct(s: Seq<AssetView>, x: AssetView)
    requires
        distinct_kinds(s),
    ensures
        deducted(s, x) is Some ==> distinct_kinds(deducted(s, x)->Some_0),
{
    lemma_position(s, x.info);
    match position(s, x.info) {
        Some(i) => {
            let t = s.update(i, AssetView { info: x.info, amount: (s[i].amount - x.amount) as u128 });
            assert(distinct_kinds(t)) by {
                assert forall|a: int, b: int| 0 <= a < b < t.len() implies t[a].info
                    != t[b].info by {
                    assert(t[a].info == s[a].info && t[b].info == s[b].info);
                }
            }
            lemma_purged_distinct(t);
        },
        None => {},
    }
}

/// Two lists that hold the same kinds at the same places hold each kind first
/// at the same place.
pub proof fn lemma_same_kinds_same_position(s: Seq<AssetView>, t: Seq<AssetView>, info: InfoView)
    requires
        s.len() == t.len(),
        forall|j: int| 0 <= j < s.len() ==> s[j].info == t[j].info,
    ensures
        position(t, info) == position(s, info),
{
    lemma_position(s, info);
    lemma_position(t, info);
    match position(s, info) {
        Some(k) => {
            assert(is_first_of(t, info, k));
        },
        None => {
            if position(t, info) is Some {
                let c = position(t, info)->Some_0;
                assert(s[c].info == t[c].info);
            }
        },
    }
}

/// Appending an asset leaves the first place of every kind that the list held,
/// and makes the new place the first of a kind that it did not hold.
pub proof fn lemma_push_position(s: Seq<AssetView>, x: AssetView, info: InfoView)
    ensures
        position(s, info) is Some ==> position(s.push(x), info) == position(s, info),
        position(s, info) is None && x.info == info ==> position(s.push(x), info) == Some(
            s.len() as int,
        ),
        position(s, info) is None && x.info != info ==> position(s.push(x), info) is None,
{
    let t = s.push(x);
    lemma_position(s, info);
    lemma_position(t, info);
    match position(s, info) {
        Some(k) => {
            assert(t[k] == s[k]);
            assert forall|j: int| 0 <= j < k implies t[j].info != info by {
                assert(t[j] == s[j]);
            }
            assert(is_first_of(t, info, k));
        },
        None => {
            assert forall|j: int| 0 <= j < s.len() implies t[j].info != info by {
                assert(t[j] == s[j]);
            }
            if x.info == info {
                assert(is_first_of(t, info, s.len() as int));
            } else {
                if position(t, info) is Some {
                    let c = position(t, info)->Some_0;
                    assert(t[c].info == info);
                }
            }
        },
    }
}

/// After an asset has been added to a list of distinct kinds, the list holds of
/// that kind what it held before and the asset's amount, exactly, and of every
/// other kind what it held before.
pub proof fn law_add_amounts(s: Seq<AssetView>, x: AssetView)
    requires
        distinct_kinds(s),
        added(s, x) is Some,
    ensures
        amount_of(added(s, x)->Some_0, x.info) == amount_of(s, x.info) + x.amount,
        forall|other: InfoView|
            other != x.info ==> amount_of(#[trigger] added(s, x)->Some_0, other) == amount_of(
                s,
                other,
            ),
        distinct_kinds(added(s, x)->Some_0),
{
    lemma_added_distinct(s, x);
    lemma_position(s, x.info);
    let after = added(s, x)->Some_0;
    match position(s, x.info) {
        Some(i) => {
            let t = s.update(
                i,
                AssetView { info: x.info, amount: (s[i].amount + x.amount) as u128 },
            );
            assert(distinct_kinds(t)) by {
                assert forall|a: int, b: int| 0 <= a < b < t.len() implies t[a].info
                    != t[b].info by {
                    assert(t[a].info == s[a].info && t[b].info == s[b].info);
                }
            }
            assert forall|other: InfoView| amount_of(after, other) == if other == x.info {
                (s[i].amount + x.amount) as u128
            } else {
                amount_of(s, other)
            } by {
                lemma_purged_amounts(t, other);
                lemma_same_kinds_same_position(s, t, other);
                lemma_position(s, other);
            }
        },
        None => {
            let t = s.push(x);
            assert(distinct_kinds(t)) by {
                assert forall|a: int, b: int| 0 <= a < b < t.len() implies t[a].info
                    != t[b].info by {
                    if b < s.len() {
                        assert(t[a] == s[a] && t[b] == s[b]);
                    } else {
                        assert(t[a] == s[a]);
                    }
                }
            }
            assert forall|other: InfoView| amount_of(after, other) == if other == x.info {
                x.amount
            } else {
                amount_of(s, other)
            } by {
                lemma_purged_amounts(t, other);
                lemma_push_position(s, x, other);
            }
        },
    }
}

/// After an asset has been deducted from a list of distinct kinds, the list
/// holds of that kind what it held before less the asset's amount, and of every
/// other kind what it held before. Where the whole amount was deducted, the list
/// holds no asset of the kind any more.
pub proof fn law_deduct_amounts(s: Seq<AssetView>, y: AssetView)
    requires
        distinct_kinds(s),
        deducted(s, y) is Some,
    ensures
        amount_of(deducted(s, y)->Some_0, y.info) == amount_of(s, y.info) - y.amount,
        forall|other: InfoView|
            other != y.info ==> amount_of(#[trigger] deducted(s, y)->Some_0, other)
                == amount_of(s, other),
        amount_of(s, y.info) == y.amount ==> position(deducted(s, y)->Some_0, y.info) is None,
        distinct_kinds(deducted(s, y)->Some_0),
{
    lemma_deducted_distinct(s, y);
    lemma_position(s, y.info);
    let after = deducted(s, y)->Some_0;
    let i = position(s, y.info)->Some_0;
    let t = s.update(i, AssetView { info: y.info, amount: (s[i].amount - y.amount) as u128 });
    assert(distinct_kinds(t)) by {
        assert forall|a: int, b: int| 0 <= a < b < t.len() implies t[a].info != t[b].info by {
            assert(t[a].info == s[a].info && t[b].info == s[b].info);
        }
    }
    assert forall|other: InfoView| amount_of(after, other) == if other == y.info {
        (s[i].amount - y.amount) as u128
    } else {
        amount_of(s, other)
    } by {
        lemma_purged_amounts(t, other);
        lemma_same_kinds_same_position(s, t, other);
        lemma_position(s, other);
    }
    if amount_of(s, y.info) == y.amount {
        lemma_position(after, y.info);
        if position(after, y.info) is Some {
            let k = position(after, y.info)->Some_0;
            assert(after.contains(after[k]));
            lemma_purged_contains(t, after[k]);
            let j = choose|j: int| 0 <= j < t.len() && t[j] == after[k];
            assert(t[j].info == t[i].info);
        }
    }
}

/// Deducting a kind that the list does not hold, or more than it holds of the
/// kind, fails.
pub proof fn law_deduct_fails(s: Seq<AssetView>, y: AssetView)
    ensures
        position(s, y.info) is None ==> deducted(s, y) is None,
        amount_of(s, y.info) < y.amount ==> deducted(s, y) is None,
{
}


} // verus!
