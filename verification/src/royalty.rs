use crate::account::{is_valid_account, valid_account};
use crate::error::MarketError;
use crate::table::TextMap;
use vstd::prelude::*;

verus! {

/// The share of each later sale, in basis points, that goes to each account named.
pub type Royalty = TextMap<u32>;

/// A royalty table names at most this many accounts.
pub const MAX_ROYALTY_ACCOUNTS: usize = 50;

/// A royalty table gives away at most this many basis points.
pub const MAX_ROYALTY_POINTS: u32 = 9000;

/// The basis points of all entries together.
pub open spec fn total_points(royalty: Seq<(Seq<char>, u32)>) -> nat
    decreases royalty.len(),
{
    if royalty.len() == 0 {
        0
    } else {
        total_points(royalty.drop_last()) + royalty.last().1 as nat
    }
}

/// Every account named is a well-formed account identifier.
pub open spec fn accounts_valid(royalty: Seq<(Seq<char>, u32)>) -> bool {
    forall|i: int| 0 <= i < royalty.len() ==> valid_account((#[trigger] royalty[i]).0)
}

/// Whether a royalty table is accepted for a new series, and why not: an account that is
/// not well formed is named first, then too many accounts, then too many basis points.
pub open spec fn royalty_check(royalty: Seq<(Seq<char>, u32)>) -> Result<(), MarketError> {
    if !accounts_valid(royalty) {
        Err(MarketError::InvalidRoyaltyAccount)
    } else if royalty.len() > MAX_ROYALTY_ACCOUNTS {
        Err(MarketError::TooManyRoyaltyAccounts)
    } else if total_points(royalty) > MAX_ROYALTY_POINTS {
        Err(MarketError::RoyaltyTooHigh)
    } else {
        Ok(())
    }
}

/// A table that a series may carry: at most 50 accounts and at most 9000 basis points.
pub open spec fn within_limits(royalty: Seq<(Seq<char>, u32)>) -> bool {
    royalty.len() <= MAX_ROYALTY_ACCOUNTS && total_points(royalty) <= MAX_ROYALTY_POINTS
}

/// A table that passes the check is within the limits, and names well-formed accounts
/// only.
pub proof fn lemma_checked_royalty_within_limits(royalty: Seq<(Seq<char>, u32)>)
    ensures
        royalty_check(royalty).is_ok() <==> within_limits(royalty) && accounts_valid(royalty),
{
}

/// The points of the first entries are at most the points of all, and no entry has more.
pub proof fn lemma_total_points_prefix(royalty: Seq<(Seq<char>, u32)>, n: int)
    requires
        0 <= n <= royalty.len(),
    ensures
        total_points(royalty.take(n)) <= total_points(royalty),
        n < royalty.len() ==> total_points(royalty.take(n)) + royalty[n].1 <= total_points(royalty),
    decreases royalty.len() - n,
{
    if n < royalty.len() {
        lemma_total_points_prefix(royalty, n + 1);
        assert(royalty.take(n + 1).drop_last() =~= royalty.take(n));
        assert(royalty.take(n + 1).last() == royalty[n]);
    } else {
        assert(royalty.take(n) =~= royalty);
    }
}

/// Adds up the basis points of a table of at most 50 accounts.
fn sum_points(royalty: &Royalty) -> (total: u64)
    requires
        royalty@.len() <= MAX_ROYALTY_ACCOUNTS,
    ensures
        total == total_points(royalty@),
{
    let n = royalty.entries.len();
    let mut total: u64 = 0;
    let mut at: usize = 0;
    while at < n
        invariant
            n == royalty.entries@.len(),
            n <= MAX_ROYALTY_ACCOUNTS,
            at <= n,
            total == total_points(royalty@.take(at as int)),
            total <= at * 0xffff_ffff,
        decreases n - at,
    {
        proof {
            assert(royalty@.take(at + 1).drop_last() =~= royalty@.take(at as int));
            assert(royalty@.take(at + 1).last() == royalty@[at as int]);
        }
        total = total + royalty.entries[at].value as u64;
        at = at + 1;
    }
    assert(royalty@.take(n as int) =~= royalty@);
    total
}

/// Says whether a royalty table is within the limits.
pub fn is_within_limits(royalty: &Royalty) -> (within: bool)
    ensures
        within == within_limits(royalty@),
{
    royalty.entries.len() <= MAX_ROYALTY_ACCOUNTS && sum_points(royalty) <= MAX_ROYALTY_POINTS as u64
}

/// Checks a royalty table for a new series.
pub fn check_royalty(royalty: &Royalty) -> (checked: Result<(), MarketError>)
    ensures
        checked == royalty_check(royalty@),
{
    let n = royalty.entries.len();
    let mut at: usize = 0;
    while at < n
        invariant
            n == royalty.entries@.len(),
            at <= n,
            forall|i: int| 0 <= i < at ==> valid_account((#[trigger] royalty@[i]).0),
        decreases n - at,
    {
        if !is_valid_account(&royalty.entries[at].key) {
            assert(!valid_account(royalty@[at as int].0));
            return Err(MarketError::InvalidRoyaltyAccount);
        }
        at = at + 1;
    }
    if n > MAX_ROYALTY_ACCOUNTS {
        return Err(MarketError::TooManyRoyaltyAccounts);
    }
    let total = sum_points(royalty);
    if total > MAX_ROYALTY_POINTS as u64 {
        return Err(MarketError::RoyaltyTooHigh);
    }
    Ok(())
}

} // verus!
