use crate::error::MarketError;
use crate::fee::TimestampSec;
use crate::metadata::TokenMetadata;
use crate::royalty::{within_limits, Royalty};
use crate::text::{token_id_of, token_id_text};
use vstd::prelude::*;

verus! {

/// A price is below this bound.
pub const MAX_PRICE: u128 = 1_000_000_000_000_000_000_000_000_000_000_000;

/// A series without a supply cap ends at this many items.
pub const UNCAPPED: u64 = 0xffff_ffff_ffff_ffff;

/// A batch of items that share one template and one royalty table.
#[derive(Debug, PartialEq, Eq)]
pub struct TokenSeries {
    pub metadata: TokenMetadata,
    pub creator_id: String,
    pub tokens: Vec<String>,
    pub price: Option<u128>,
    pub is_mintable: bool,
    pub royalty: Royalty,
    pub start_time: Option<TimestampSec>,
    pub end_time: Option<TimestampSec>,
}

/// What a caller is told of a series.
#[derive(Debug, PartialEq, Eq)]
pub struct TokenSeriesJson {
    pub token_series_id: String,
    pub metadata: TokenMetadata,
    pub creator_id: String,
    pub royalty: Royalty,
    pub transaction_fee: Option<u128>,
    pub start_time: Option<TimestampSec>,
    pub end_time: Option<TimestampSec>,
}

/// Whether a price is accepted.
pub open spec fn price_check(price: Option<u128>) -> Result<(), MarketError> {
    if price.is_some() && price.unwrap() >= MAX_PRICE {
        Err(MarketError::PriceTooHigh)
    } else {
        Ok(())
    }
}

impl TokenSeries {
    /// The number of items minted.
    pub open spec fn minted(self) -> nat {
        self.tokens@.len()
    }

    /// The most items that the series can ever hold.
    pub open spec fn cap(self) -> u64 {
        match self.metadata.copies {
            Some(copies) => copies,
            None => UNCAPPED,
        }
    }

    /// The sale window is in order: where both bounds are set, the start precedes the end.
    pub open spec fn window_ordered(self) -> bool {
        self.start_time.is_some() && self.end_time.is_some() ==> self.start_time.unwrap()
            < self.end_time.unwrap()
    }

    /// What holds of the series with the identifier `id` at all times: its template has a
    /// title and a media reference, its price is below the maximum, its royalty table is
    /// within the limits and names no account twice, its items are numbered from 1 in
    /// the order of their mint, there are no more of them than its supply cap allows, and
    /// its sale window is in order.
    pub open spec fn wf(self, id: Seq<char>) -> bool {
        &&& self.metadata.title.is_some()
        &&& self.metadata.media.is_some()
        &&& price_check(self.price).is_ok()
        &&& self.royalty.wf()
        &&& within_limits(self.royalty@)
        &&& forall|i: int| 0 <= i < self.tokens@.len() ==> (#[trigger] self.tokens@[i])@ == token_id_text(id, (i + 1) as nat)
        &&& self.minted() <= self.cap()
        &&& self.window_ordered()
    }

    /// Whether an item may be minted at `now`, and why not: the series is open for
    /// minting, `now` lies in its sale window, the start included and the end not, and
    /// its supply cap is not reached.
    pub open spec fn admission(self, now: TimestampSec) -> Result<(), MarketError> {
        if !self.is_mintable {
            Err(MarketError::NotMintable)
        } else if self.start_time.is_some() && now < self.start_time.unwrap() {
            Err(MarketError::SaleNotStarted)
        } else if self.end_time.is_some() && now >= self.end_time.unwrap() {
            Err(MarketError::SaleEnded)
        } else if self.minted() >= self.cap() {
            Err(MarketError::SupplyMaxed)
        } else {
            Ok(())
        }
    }

    /// The next mint is the last that a supply cap allows.
    pub open spec fn sells_out(self) -> bool {
        self.metadata.copies.is_some() && self.minted() + 1 >= self.metadata.copies.unwrap()
    }

    /// This is the series `before` after the item `token_id` was minted from it: the
    /// item is recorded behind the others, a series that has sold out is closed and has
    /// no price, and nothing else has changed.
    pub open spec fn minted_from(self, before: TokenSeries, token_id: Seq<char>) -> bool {
        &&& self.metadata == before.metadata
        &&& self.creator_id == before.creator_id
        &&& self.royalty == before.royalty
        &&& self.start_time == before.start_time
        &&& self.end_time == before.end_time
        &&& self.tokens@.len() == before.tokens@.len() + 1
        &&& self.tokens@.drop_last() == before.tokens@
        &&& self.tokens@.last()@ == token_id
        &&& self.is_mintable == (before.is_mintable && !before.sells_out())
        &&& self.price == if before.sells_out() {
            None
        } else {
            before.price
        }
    }

    /// Checks whether an item may be minted at `now`.
    pub fn check_admission(&self, now: TimestampSec) -> (admitted: Result<(), MarketError>)
        ensures
            admitted == self.admission(now),
    {
        if !self.is_mintable {
            return Err(MarketError::NotMintable);
        }
        match self.start_time {
            Some(start) => {
                if now < start {
                    return Err(MarketError::SaleNotStarted);
                }
            },
            None => {},
        }
        match self.end_time {
            Some(end) => {
                if now >= end {
                    return Err(MarketError::SaleEnded);
                }
            },
            None => {},
        }
        if self.supply_reached() {
            return Err(MarketError::SupplyMaxed);
        }
        Ok(())
    }

    /// Says whether as many items are minted as the supply cap allows.
    pub fn supply_reached(&self) -> (reached: bool)
        ensures
            reached == (self.minted() >= self.cap()),
    {
        let max_copies: u64 = match self.metadata.copies {
            Some(copies) => copies,
            None => UNCAPPED,
        };
        self.tokens.len() as u64 >= max_copies
    }

    /// Mints the next item of the series `id` at `now`, where that is admitted, and gives
    /// its identifier: the series identifier, the delimiter and the item's index, which
    /// is one more than the number of items minted before.
    pub fn mint(&mut self, id: &String, now: TimestampSec) -> (minted: Result<String, MarketError>)
        requires
            old(self).wf(id@),
        ensures
            final(self).wf(id@),
            match minted {
                Ok(token_id) => {
                    &&& old(self).admission(now).is_ok()
                    &&& token_id@ == token_id_text(id@, old(self).minted() + 1)
                    &&& final(self).minted_from(*old(self), token_id@)
                },
                Err(e) => old(self).admission(now) == Err::<(), MarketError>(e) && *final(self) == *old(self),
            },
    {
        match self.check_admission(now) {
            Err(e) => Err(e),
            Ok(()) => Ok(self.record_mint(id)),
        }
    }

    /// Records the next item of the series `id`, whose supply cap is not reached, and
    /// gives its identifier. The last item that the cap allows closes the series and
    /// takes its price away.
    pub(crate) fn record_mint(&mut self, id: &String) -> (token_id: String)
        requires
            old(self).wf(id@),
            old(self).minted() < old(self).cap(),
        ensures
            final(self).wf(id@),
            token_id@ == token_id_text(id@, old(self).minted() + 1),
            final(self).minted_from(*old(self), token_id@),
    {
        let num_tokens: u64 = self.tokens.len() as u64;
        match self.metadata.copies {
            Some(max_copies) => {
                if num_tokens + 1 >= max_copies {
                    self.is_mintable = false;
                    self.price = None;
                }
            },
            None => {},
        }
        let token_id = token_id_of(id, num_tokens as u128 + 1);
        self.tokens.push(token_id.clone());
        assert(self.tokens@.drop_last() =~= old(self).tokens@);
        token_id
    }

    /// Whether new bounds of the sale window are accepted at `now`, and why not. Two
    /// bounds given together must be in order. One bound given alone must lie after
    /// `now` and on the right side of the other bound, where that is set.
    pub open spec fn window_check(
        self,
        start_time: Option<TimestampSec>,
        end_time: Option<TimestampSec>,
        now: TimestampSec,
    ) -> Result<(), MarketError> {
        if start_time.is_some() && end_time.is_some() {
            if start_time.unwrap() < end_time.unwrap() {
                Ok(())
            } else {
                Err(MarketError::WindowStartNotBeforeEnd)
            }
        } else if start_time.is_some() {
            if start_time.unwrap() <= now {
                Err(MarketError::WindowStartNotInFuture)
            } else if self.end_time.is_some() && start_time.unwrap() >= self.end_time.unwrap() {
                Err(MarketError::WindowStartNotBeforeCurrentEnd)
            } else {
                Ok(())
            }
        } else if end_time.is_some() {
            if end_time.unwrap() <= now {
                Err(MarketError::WindowEndNotInFuture)
            } else if self.start_time.is_some() && end_time.unwrap() <= self.start_time.unwrap() {
                Err(MarketError::WindowEndNotAfterCurrentStart)
            } else {
                Ok(())
            }
        } else {
            Ok(())
        }
    }

    /// Checks new bounds of the sale window at `now`.
    pub fn check_window(
        &self,
        start_time: Option<TimestampSec>,
        end_time: Option<TimestampSec>,
        now: TimestampSec,
    ) -> (checked: Result<(), MarketError>)
        ensures
            checked == self.window_check(start_time, end_time, now),
    {
        match (start_time, end_time) {
            (Some(start), Some(end)) => {
                if start >= end {
                    return Err(MarketError::WindowStartNotBeforeEnd);
                }
            },
            (Some(start), None) => {
                if start <= now {
                    return Err(MarketError::WindowStartNotInFuture);
                }
                match self.end_time {
                    Some(current_end) => {
                        if start >= current_end {
                            return Err(MarketError::WindowStartNotBeforeCurrentEnd);
                        }
                    },
                    None => {},
                }
            },
            (None, Some(end)) => {
                if end <= now {
                    return Err(MarketError::WindowEndNotInFuture);
                }
                match self.start_time {
                    Some(current_start) => {
                        if end <= current_start {
                            return Err(MarketError::WindowEndNotAfterCurrentStart);
                        }
                    },
                    None => {},
                }
            },
            (None, None) => {},
        }
        Ok(())
    }

    /// The series with the bounds of the sale window that are given in place of its own.
    pub open spec fn with_window(self, start_time: Option<TimestampSec>, end_time: Option<TimestampSec>) -> TokenSeries {
        TokenSeries {
            start_time: if start_time.is_some() {
                start_time
            } else {
                self.start_time
            },
            end_time: if end_time.is_some() {
                end_time
            } else {
                self.end_time
            },
            ..self
        }
    }

    /// New bounds that pass the check leave a window in order as it was: in order.
    pub proof fn lemma_window_stays_ordered(
        self,
        start_time: Option<TimestampSec>,
        end_time: Option<TimestampSec>,
        now: TimestampSec,
    )
        requires
            self.window_ordered(),
            self.window_check(start_time, end_time, now).is_ok(),
        ensures
            self.with_window(start_time, end_time).window_ordered(),
    {
    }

    /// Sets the bounds of the sale window that are given, where they pass the check, and
    /// leaves the others.
    pub fn set_sale_window(
        &mut self,
        start_time: Option<TimestampSec>,
        end_time: Option<TimestampSec>,
        now: TimestampSec,
    ) -> (done: Result<(), MarketError>)
        ensures
            done == old(self).window_check(start_time, end_time, now),
            done.is_err() ==> *final(self) == *old(self),
            done.is_ok() ==> *final(self) == old(self).with_window(start_time, end_time),
            old(self).window_ordered() ==> final(self).window_ordered(),
    {
        match self.check_window(start_time, end_time, now) {
            Err(e) => Err(e),
            Ok(()) => {
                self.put_window(start_time, end_time);
                Ok(())
            },
        }
    }

    /// Puts the bounds of the sale window that are given in place of the series' own.
    pub(crate) fn put_window(&mut self, start_time: Option<TimestampSec>, end_time: Option<TimestampSec>)
        ensures
            *final(self) == old(self).with_window(start_time, end_time),
    {
        if start_time.is_some() {
            self.start_time = start_time;
        }
        if end_time.is_some() {
            self.end_time = end_time;
        }
    }

    /// Whether the supply cap can come down by `decrease_copies`, and why not: there is
    /// a cap, and it does not fall below the number of items minted.
    pub open spec fn decrease_check(self, decrease_copies: u64) -> Result<(), MarketError> {
        if self.metadata.copies.is_none() {
            Err(MarketError::NoSupplyCap)
        } else if self.metadata.copies.unwrap() - decrease_copies < self.minted() {
            Err(MarketError::SupplyBelowMinted)
        } else {
            Ok(())
        }
    }

    /// Checks whether the supply cap can come down by `decrease_copies`.
    pub fn check_decrease(&self, decrease_copies: u64) -> (checked: Result<(), MarketError>)
        ensures
            checked == self.decrease_check(decrease_copies),
    {
        let minted_copies: u64 = self.tokens.len() as u64;
        match self.metadata.copies {
            None => Err(MarketError::NoSupplyCap),
            Some(copies) => {
                if decrease_copies > copies || copies - decrease_copies < minted_copies {
                    Err(MarketError::SupplyBelowMinted)
                } else {
                    Ok(())
                }
            },
        }
    }

    /// The series with its supply cap lowered by `decrease_copies`: a cap that comes down
    /// to the number of items minted closes the series for minting.
    pub open spec fn with_lower_cap(self, decrease_copies: u64) -> TokenSeries {
        let copies = (self.metadata.copies.unwrap() - decrease_copies) as u64;
        TokenSeries {
            metadata: TokenMetadata { copies: Some(copies), ..self.metadata },
            is_mintable: self.is_mintable && copies != self.minted(),
            ..self
        }
    }

    /// Lowers the supply cap by `decrease_copies`, where that passes the check, and gives
    /// the new cap. A series whose cap comes down to the number of items minted is closed
    /// for minting.
    pub fn decrease_copies(&mut self, decrease_copies: u64) -> (left: Result<u64, MarketError>)
        ensures
            match left {
                Ok(copies) => {
                    &&& old(self).decrease_check(decrease_copies).is_ok()
                    &&& copies == old(self).metadata.copies.unwrap() - decrease_copies
                    &&& *final(self) == old(self).with_lower_cap(decrease_copies)
                },
                Err(e) => old(self).decrease_check(decrease_copies) == Err::<(), MarketError>(e)
                    && *final(self) == *old(self),
            },
    {
        match self.check_decrease(decrease_copies) {
            Err(e) => Err(e),
            Ok(()) => Ok(self.lower_cap(decrease_copies)),
        }
    }

    /// Lowers the supply cap by `decrease_copies`, which leaves it at the number of items
    /// minted or above, and gives the new cap.
    pub(crate) fn lower_cap(&mut self, decrease_copies: u64) -> (copies: u64)
        requires
            old(self).decrease_check(decrease_copies).is_ok(),
        ensures
            copies == old(self).metadata.copies.unwrap() - decrease_copies,
            *final(self) == old(self).with_lower_cap(decrease_copies),
    {
        let left: u64 = self.metadata.copies.unwrap() - decrease_copies;
        if left == self.tokens.len() as u64 {
            self.is_mintable = false;
        }
        self.metadata.copies = Some(left);
        left
    }

    /// Whether the series can be priced at `price`, and why not: it is open for minting,
    /// and the price is below the maximum.
    pub open spec fn pricing_check(self, price: Option<u128>) -> Result<(), MarketError> {
        if !self.is_mintable {
            Err(MarketError::NotMintable)
        } else {
            price_check(price)
        }
    }

    /// Checks whether the series can be priced at `price`.
    pub fn check_pricing(&self, price: Option<u128>) -> (checked: Result<(), MarketError>)
        ensures
            checked == self.pricing_check(price),
    {
        if !self.is_mintable {
            return Err(MarketError::NotMintable);
        }
        match price {
            Some(p) => {
                if p >= MAX_PRICE {
                    return Err(MarketError::PriceTooHigh);
                }
            },
            None => {},
        }
        Ok(())
    }

    /// Prices the series, or takes it off sale where no price is given.
    pub fn set_price(&mut self, price: Option<u128>) -> (done: Result<(), MarketError>)
        ensures
            done == old(self).pricing_check(price),
            done.is_err() ==> *final(self) == *old(self),
            done.is_ok() ==> *final(self) == (TokenSeries { price, ..*old(self) }),
    {
        match self.check_pricing(price) {
            Err(e) => Err(e),
            Ok(()) => {
                self.price = price;
                Ok(())
            },
        }
    }
}

/// Once the last copy of a series is minted, the series is closed and has no price, and
/// no further mint is admitted at any time.
pub proof fn lemma_sold_out_series_is_closed(
    before: TokenSeries,
    after: TokenSeries,
    token_id: Seq<char>,
    later: TimestampSec,
)
    requires
        before.metadata.copies.is_some(),
        before.minted() + 1 == before.metadata.copies.unwrap(),
        after.minted_from(before, token_id),
    ensures
        !after.is_mintable,
        after.price.is_none(),
        after.admission(later).is_err(),
{
}

/// No mint is admitted once as many items are minted as the supply cap allows, whatever
/// else holds of the series.
pub proof fn lemma_cap_is_never_passed(series: TokenSeries, now: TimestampSec)
    requires
        series.minted() >= series.cap(),
    ensures
        series.admission(now).is_err(),
{
}

} // verus!
