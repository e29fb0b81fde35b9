use crate::error::MarketError;
use crate::keys::lemma_push_fresh;
use crate::royalty::{lemma_total_points_prefix, total_points, Royalty};
use crate::table::{Entry, TextMap};
use vstd::prelude::*;

verus! {

/// All of an amount, in basis points.
pub const ALL_POINTS: u32 = 10_000;

/// Who is paid how much out of one sale.
#[derive(Debug, PartialEq, Eq)]
pub struct Payout {
    pub payout: TextMap<u128>,
}

impl View for Payout {
    type V = Seq<(Seq<char>, nat)>;

    /// The accounts paid with their amounts, in order.
    open spec fn view(&self) -> Seq<(Seq<char>, nat)> {
        self.payout.entries@.map_values(|e: Entry<u128>| (e.key@, e.value as nat))
    }
}

/// `points` basis points of `amount`, rounded down.
pub open spec fn share(points: nat, amount: nat) -> nat {
    points * amount / 10_000
}

/// The basis points of the entries that name another account than `owner`.
pub open spec fn paid_points(royalty: Seq<(Seq<char>, u32)>, owner: Seq<char>) -> nat
    decreases royalty.len(),
{
    if royalty.len() == 0 {
        0
    } else if royalty.last().0 == owner {
        paid_points(royalty.drop_last(), owner)
    } else {
        paid_points(royalty.drop_last(), owner) + royalty.last().1 as nat
    }
}

/// The share of `amount` for each entry that names another account than `owner`, in the
/// order of the entries.
pub open spec fn royalty_shares(royalty: Seq<(Seq<char>, u32)>, owner: Seq<char>, amount: nat) -> Seq<
    (Seq<char>, nat),
>
    decreases royalty.len(),
{
    if royalty.len() == 0 {
        Seq::empty()
    } else if royalty.last().0 == owner {
        royalty_shares(royalty.drop_last(), owner, amount)
    } else {
        royalty_shares(royalty.drop_last(), owner, amount).push(
            (royalty.last().0, share(royalty.last().1 as nat, amount)),
        )
    }
}

/// How `amount` is split: each account of the royalty table but `owner` gets its share,
/// rounded down, and `owner` gets the share of the basis points that are left, rounded
/// down once.
pub open spec fn payout_of(royalty: Seq<(Seq<char>, u32)>, owner: Seq<char>, amount: nat) -> Seq<
    (Seq<char>, nat),
> {
    royalty_shares(royalty, owner, amount).push(
        (owner, share((ALL_POINTS - paid_points(royalty, owner)) as nat, amount)),
    )
}

/// The amounts of a payout together.
pub open spec fn sum_amounts(payout: Seq<(Seq<char>, nat)>) -> nat
    decreases payout.len(),
{
    if payout.len() == 0 {
        0
    } else {
        sum_amounts(payout.drop_last()) + payout.last().1
    }
}

/// The accounts of a payout, in order.
pub open spec fn payees(payout: Seq<(Seq<char>, nat)>) -> Seq<Seq<char>> {
    payout.map_values(|p: (Seq<char>, nat)| p.0)
}

/// Computes `a` basis points of `b`, rounded down. No intermediate value leaves 128 bits.
pub fn royalty_to_payout(a: u32, b: u128) -> (paid: u128)
    requires
        a <= ALL_POINTS,
    ensures
        paid == share(a as nat, b as nat),
        paid <= b,
{
    let whole: u128 = b / 10_000;
    let rest: u128 = b % 10_000;
    let points: u128 = a as u128;
    proof {
        lemma_share_by_parts(a as nat, whole as nat, rest as nat);
    }
    points * whole + points * rest / 10_000
}

proof fn lemma_share_by_parts(points: nat, whole: nat, rest: nat)
    requires
        points <= 10_000,
        rest < 10_000,
    ensures
        share(points, whole * 10_000 + rest) == points * whole + points * rest / 10_000,
        points * whole <= whole * 10_000,
        points * rest <= 10_000 * 10_000,
        points * whole + points * rest / 10_000 <= whole * 10_000 + rest,
{
    assert(points * (whole * 10_000 + rest) == (points * whole) * 10_000 + points * rest)
        by (nonlinear_arith);
    let x = points * whole;
    let y = points * rest;
    assert((x * 10_000 + y) / 10_000 == x + y / 10_000) by (nonlinear_arith);
    assert(points * whole <= whole * 10_000) by (nonlinear_arith)
        requires
            points <= 10_000,
    ;
    assert(points * rest <= 10_000 * 10_000) by (nonlinear_arith)
        requires
            points <= 10_000,
            rest < 10_000,
    ;
    assert(points * rest / 10_000 <= rest) by (nonlinear_arith)
        requires
            points <= 10_000,
    ;
}

/// A share is never more than the amount, and loses less than one unit to rounding.
pub proof fn lemma_share_bounds(points: nat, amount: nat)
    ensures
        10_000 * share(points, amount) <= points * amount,
        points * amount < 10_000 * share(points, amount) + 10_000,
        points <= 10_000 ==> share(points, amount) <= amount,
{
    let product = points * amount;
    assert(10_000 * (product / 10_000) <= product && product < 10_000 * (product / 10_000) + 10_000)
        by (nonlinear_arith);
    if points <= 10_000 {
        assert(points * amount <= 10_000 * amount) by (nonlinear_arith)
            requires
                points <= 10_000,
        ;
    }
}

/// The points paid to others are at most the points of the whole table.
pub proof fn lemma_paid_points_bound(royalty: Seq<(Seq<char>, u32)>, owner: Seq<char>)
    ensures
        paid_points(royalty, owner) <= total_points(royalty),
    decreases royalty.len(),
{
    if royalty.len() > 0 {
        lemma_paid_points_bound(royalty.drop_last(), owner);
    }
}

/// The shares of the others: one for each entry at most, each account is one of the
/// table's and not `owner`, and together they are the paid points of the amount, less
/// what rounding took: under one unit for each share.
pub proof fn lemma_royalty_shares(royalty: Seq<(Seq<char>, u32)>, owner: Seq<char>, amount: nat)
    ensures
        royalty_shares(royalty, owner, amount).len() <= royalty.len(),
        forall|i: int|
            0 <= i < royalty_shares(royalty, owner, amount).len() ==> {
                let paid = #[trigger] royalty_shares(royalty, owner, amount)[i];
                paid.0 != owner && exists|j: int| 0 <= j < royalty.len() && royalty[j].0 == paid.0
            },
        10_000 * sum_amounts(royalty_shares(royalty, owner, amount)) <= paid_points(royalty, owner)
            * amount,
        paid_points(royalty, owner) * amount <= 10_000 * sum_amounts(
            royalty_shares(royalty, owner, amount),
        ) + 9_999 * royalty_shares(royalty, owner, amount).len(),
    decreases royalty.len(),
{
    if royalty.len() > 0 {
        let front = royalty.drop_last();
        let last = royalty.last();
        lemma_royalty_shares(front, owner, amount);
        let before = royalty_shares(front, owner, amount);
        let after = royalty_shares(royalty, owner, amount);
        assert forall|i: int| 0 <= i < after.len() implies {
            let paid = #[trigger] after[i];
            paid.0 != owner && exists|j: int| 0 <= j < royalty.len() && royalty[j].0 == paid.0
        } by {
            if i < before.len() {
                let paid = before[i];
                let j = choose|j: int| 0 <= j < front.len() && front[j].0 == paid.0;
                assert(royalty[j].0 == paid.0);
            } else {
                assert(royalty[royalty.len() - 1].0 == after[i].0);
            }
        }
        if last.0 != owner {
            assert(after.drop_last() =~= before);
            assert(after.last().1 == share(last.1 as nat, amount));
            assert(sum_amounts(after) == sum_amounts(before) + share(last.1 as nat, amount));
            lemma_share_bounds(last.1 as nat, amount);
            let p = paid_points(front, owner);
            let q = last.1 as nat;
            assert(paid_points(royalty, owner) == p + q);
            assert((p + q) * amount == p * amount + q * amount) by (nonlinear_arith);
        } else {
            assert(after == before);
            assert(paid_points(royalty, owner) == paid_points(front, owner));
        }
    } else {
        assert(paid_points(royalty, owner) == 0);
        assert(paid_points(royalty, owner) * amount == 0) by (nonlinear_arith)
            requires
                paid_points(royalty, owner) == 0,
        ;
        assert(sum_amounts(royalty_shares(royalty, owner, amount)) == 0);
    }
}

/// Nothing is paid twice: where no account stands twice in the royalty table, none
/// stands twice in the payout.
pub proof fn lemma_payees_distinct(royalty: Seq<(Seq<char>, u32)>, owner: Seq<char>, amount: nat)
    requires
        royalty.map_values(|r: (Seq<char>, u32)| r.0).no_duplicates(),
    ensures
        payees(royalty_shares(royalty, owner, amount)).no_duplicates(),
        !payees(royalty_shares(royalty, owner, amount)).contains(owner),
        forall|k: Seq<char>| #[trigger]
            payees(royalty_shares(royalty, owner, amount)).contains(k) ==> royalty.map_values(
                |r: (Seq<char>, u32)| r.0,
            ).contains(k),
        payees(payout_of(royalty, owner, amount)).no_duplicates(),
    decreases royalty.len(),
{
    let names = royalty.map_values(|r: (Seq<char>, u32)| r.0);
    let shares = royalty_shares(royalty, owner, amount);
    if royalty.len() > 0 {
        let front = royalty.drop_last();
        let front_names = front.map_values(|r: (Seq<char>, u32)| r.0);
        assert(front_names =~= names.drop_last());
        assert forall|i: int, j: int|
            0 <= i < front_names.len() && 0 <= j < front_names.len() && i != j implies front_names[i]
            != front_names[j] by {
            assert(names[i] != names[j]);
        }
        lemma_payees_distinct(front, owner, amount);
        let before = royalty_shares(front, owner, amount);
        assert forall|k: Seq<char>| #[trigger] payees(shares).contains(k) implies names.contains(k) by {
            let i = choose|i: int| 0 <= i < payees(shares).len() && payees(shares)[i] == k;
            if i < before.len() {
                assert(payees(before)[i] == k);
                assert(payees(before).contains(k));
                let j = choose|j: int| 0 <= j < front_names.len() && front_names[j] == k;
                assert(names[j] == k);
            } else {
                assert(names[names.len() - 1] == k);
            }
        }
        if royalty.last().0 != owner {
            assert(payees(shares) =~= payees(before).push(royalty.last().0));
            if payees(before).contains(royalty.last().0) {
                let j = choose|j: int| 0 <= j < front_names.len() && front_names[j] == royalty.last().0;
                assert(names[j] == names[names.len() - 1]);
            }
            lemma_push_fresh(payees(before), royalty.last().0);
            assert forall|i: int| 0 <= i < payees(shares).len() implies payees(shares)[i] != owner by {
                if i < before.len() {
                    assert(payees(before).contains(payees(before)[i]));
                }
            }
        }
    } else {
        assert(payees(shares) =~= Seq::<Seq<char>>::empty());
    }
    assert(payees(payout_of(royalty, owner, amount)) =~= payees(shares).push(owner));
    lemma_push_fresh(payees(shares), owner);
}

/// A payout never gives out more than the amount it splits, and what rounding keeps back
/// is less than one unit for each account paid.
pub proof fn lemma_payout_conserves(royalty: Seq<(Seq<char>, u32)>, owner: Seq<char>, amount: nat)
    requires
        total_points(royalty) <= ALL_POINTS,
    ensures
        sum_amounts(payout_of(royalty, owner, amount)) <= amount,
        amount - sum_amounts(payout_of(royalty, owner, amount)) < payout_of(royalty, owner, amount).len(),
        payout_of(royalty, owner, amount).len() <= royalty.len() + 1,
{
    lemma_royalty_shares(royalty, owner, amount);
    lemma_paid_points_bound(royalty, owner);
    let shares = royalty_shares(royalty, owner, amount);
    let paid = paid_points(royalty, owner);
    let left = (ALL_POINTS - paid) as nat;
    let whole = payout_of(royalty, owner, amount);
    assert(whole.drop_last() =~= shares);
    lemma_share_bounds(left, amount);
    assert(paid * amount + left * amount == 10_000 * amount) by (nonlinear_arith)
        requires
            paid + left == 10_000,
    ;
}

/// Splits `amount` between the accounts of a royalty table and `owner`.
pub fn split_payout(royalty: &Royalty, owner_id: &String, amount: u128) -> (payout: Payout)
    requires
        total_points(royalty@) <= ALL_POINTS,
    ensures
        payout@ == payout_of(royalty@, owner_id@, amount as nat),
        royalty.wf() ==> payout.payout.wf(),
{
    let n = royalty.entries.len();
    let mut entries: Vec<Entry<u128>> = Vec::new();
    let mut total_perpetual: u32 = 0;
    let mut at: usize = 0;
    while at < n
        invariant
            n == royalty.entries@.len(),
            at <= n,
            total_points(royalty@) <= ALL_POINTS,
            total_perpetual == paid_points(royalty@.take(at as int), owner_id@),
            total_perpetual <= total_points(royalty@.take(at as int)),
            entries@.map_values(|e: Entry<u128>| (e.key@, e.value as nat)) == royalty_shares(
                royalty@.take(at as int),
                owner_id@,
                amount as nat,
            ),
        decreases n - at,
    {
        proof {
            assert(royalty@.take(at + 1).drop_last() =~= royalty@.take(at as int));
            assert(royalty@.take(at + 1).last() == royalty@[at as int]);
            lemma_total_points_prefix(royalty@, at as int);
            lemma_total_points_prefix(royalty@, at + 1);
        }
        let entry = &royalty.entries[at];
        if entry.key != *owner_id {
            let paid = royalty_to_payout(entry.value, amount);
            let ghost before = entries@.map_values(|e: Entry<u128>| (e.key@, e.value as nat));
            entries.push(Entry { key: entry.key.clone(), value: paid });
            total_perpetual = total_perpetual + entry.value;
            assert(entries@.map_values(|e: Entry<u128>| (e.key@, e.value as nat)) =~= before.push(
                (entry.key@, paid as nat),
            ));
        }
        at = at + 1;
    }
    assert(royalty@.take(n as int) =~= royalty@);
    let ghost shares = entries@.map_values(|e: Entry<u128>| (e.key@, e.value as nat));
    let rest = royalty_to_payout(ALL_POINTS - total_perpetual, amount);
    entries.push(Entry { key: owner_id.clone(), value: rest });
    let payout = Payout { payout: TextMap { entries } };
    proof {
        assert(payout@ =~= shares.push((owner_id@, rest as nat)));
        if royalty.wf() {
            assert(royalty.keys() =~= royalty@.map_values(|r: (Seq<char>, u32)| r.0));
            lemma_payees_distinct(royalty@, owner_id@, amount as nat);
            assert(payout.payout.keys() =~= payees(payout@));
        }
    }
    payout
}

/// Refuses a payout to more accounts than the caller accepts. A caller that names no
/// limit accepts none.
pub fn check_payout_length(royalty: &Royalty, max_len_payout: Option<u32>) -> (checked: Result<
    (),
    MarketError,
>)
    ensures
        checked == payout_length_check(royalty@.len(), max_len_payout),
{
    let limit: u32 = match max_len_payout {
        Some(limit) => limit,
        None => 0,
    };
    if royalty.entries.len() > limit as usize {
        Err(MarketError::TooManyPayoutReceivers)
    } else {
        Ok(())
    }
}

/// Whether a royalty table of `entries` accounts is within the limit that the caller
/// named.
pub open spec fn payout_length_check(entries: nat, max_len_payout: Option<u32>) -> Result<
    (),
    MarketError,
> {
    let limit: nat = match max_len_payout {
        Some(limit) => limit as nat,
        None => 0,
    };
    if entries > limit {
        Err(MarketError::TooManyPayoutReceivers)
    } else {
        Ok(())
    }
}

} // verus!
