use crate::contract::{CallContext, Contract, ONE_YOCTO};
use crate::error::MarketError;
use crate::fee::{to_sec, TimestampSec};
use crate::keys::{lemma_position_is, lemma_position_none, position};
use crate::metadata::{compose_media, series_media, TokenMetadata};
use crate::royalty::{check_royalty, royalty_check, within_limits, Royalty};
use crate::series::{price_check, TokenSeries, TokenSeriesJson, MAX_PRICE};
use crate::table::TextMap;
use crate::text::{decimal, decimal_text, lemma_decimal_text_injective};
use vstd::prelude::*;

verus! {

impl Contract {
    /// Where the series `id` stands in the registry, if it is there.
    pub open spec fn series_at(self, id: Seq<char>) -> Option<int> {
        position(self.token_series_by_id.keys(), id)
    }

    /// The series `id`, if there is one.
    pub open spec fn series(self, id: Seq<char>) -> Option<TokenSeries> {
        self.token_series_by_id.value_of(id)
    }

    /// This state differs from `before` in the series at `at` alone, which kept its
    /// identifier.
    pub open spec fn only_series_changed(self, before: Contract, at: int) -> bool {
        &&& self == (Contract { token_series_by_id: self.token_series_by_id, ..before })
        &&& 0 <= at < before.token_series_by_id.entries@.len()
        &&& self.token_series_by_id.entries@ == before.token_series_by_id.entries@.update(
            at,
            self.token_series_by_id.entries@[at],
        )
        &&& self.token_series_by_id.entries@[at].key == before.token_series_by_id.entries@[at].key
    }

    /// A change to one series that leaves it well formed leaves the marketplace well
    /// formed, and every other series as it was.
    pub proof fn lemma_series_change(self, before: Contract, at: int)
        requires
            before.wf(),
            self.only_series_changed(before, at),
            self.token_series_by_id.entries@[at].value.wf(self.token_series_by_id.entries@[at].key@),
        ensures
            self.wf(),
            self.token_series_by_id.keys() == before.token_series_by_id.keys(),
            forall|id: Seq<char>| self.series_at(id) == before.series_at(id),
            forall|id: Seq<char>|
                before.series_at(id) != Some(at) ==> #[trigger] self.series(id) == before.series(id),
            self.series(before.token_series_by_id.entries@[at].key@) == Some(
                self.token_series_by_id.entries@[at].value,
            ),
    {
        assert(self.token_series_by_id.keys() =~= before.token_series_by_id.keys());
        assert forall|i: int| 0 <= i < self.token_series_by_id.entries@.len() implies #[trigger] self.series_wf_at(
            i,
        ) by {
            assert(before.series_wf_at(i));
        }
        assert forall|id: Seq<char>| before.series_at(id) != Some(at) implies #[trigger] self.series(id)
            == before.series(id) by {
            match before.series_at(id) {
                Some(other) => {
                    assert(self.token_series_by_id.entries@[other] == before.token_series_by_id.entries@[other]);
                },
                None => {},
            }
        }
        lemma_position_is(self.token_series_by_id.keys(), at);
    }

    /// Whether a call may edit what only the owner edits of a series, and why not: it
    /// carries a deposit of exactly one unit, the owner makes it, and the series is there.
    pub open spec fn owner_edit_check(self, ctx: CallContext, id: Seq<char>) -> Result<(), MarketError> {
        if ctx.attached_deposit != ONE_YOCTO {
            Err(MarketError::RequiresOneYocto)
        } else if ctx.predecessor_account_id@ != self.owner_id@ {
            Err(MarketError::NotAllowed)
        } else if self.series_at(id).is_none() {
            Err(MarketError::SeriesNotFound)
        } else {
            Ok(())
        }
    }

    /// Whether a call may edit what only the creator edits of a series, and why not: it
    /// carries a deposit of exactly one unit, the series is there, and its creator makes
    /// the call.
    pub open spec fn creator_edit_check(self, ctx: CallContext, id: Seq<char>) -> Result<(), MarketError> {
        if ctx.attached_deposit != ONE_YOCTO {
            Err(MarketError::RequiresOneYocto)
        } else if self.series_at(id).is_none() {
            Err(MarketError::SeriesNotFound)
        } else if ctx.predecessor_account_id@ != self.series(id).unwrap().creator_id@ {
            Err(MarketError::NotCreator)
        } else {
            Ok(())
        }
    }

    fn check_owner_edit(&self, ctx: &CallContext, token_series_id: &String) -> (found: Result<
        usize,
        MarketError,
    >)
        requires
            self.wf(),
        ensures
            match found {
                Ok(at) => self.owner_edit_check(*ctx, token_series_id@).is_ok() && self.series_at(
                    token_series_id@,
                ) == Some(at as int) && at < self.token_series_by_id.entries@.len(),
                Err(e) => self.owner_edit_check(*ctx, token_series_id@) == Err::<(), MarketError>(e),
            },
    {
        if ctx.attached_deposit != ONE_YOCTO {
            return Err(MarketError::RequiresOneYocto);
        }
        if ctx.predecessor_account_id != self.owner_id {
            return Err(MarketError::NotAllowed);
        }
        match self.token_series_by_id.find(token_series_id) {
            Some(at) => Ok(at),
            None => Err(MarketError::SeriesNotFound),
        }
    }

    fn check_creator_edit(&self, ctx: &CallContext, token_series_id: &String) -> (found: Result<
        usize,
        MarketError,
    >)
        requires
            self.wf(),
        ensures
            match found {
                Ok(at) => self.creator_edit_check(*ctx, token_series_id@).is_ok() && self.series_at(
                    token_series_id@,
                ) == Some(at as int) && at < self.token_series_by_id.entries@.len(),
                Err(e) => self.creator_edit_check(*ctx, token_series_id@) == Err::<(), MarketError>(e),
            },
    {
        if ctx.attached_deposit != ONE_YOCTO {
            return Err(MarketError::RequiresOneYocto);
        }
        match self.token_series_by_id.find(token_series_id) {
            Some(at) => {
                if ctx.predecessor_account_id != self.token_series_by_id.entries[at].value.creator_id {
                    return Err(MarketError::NotCreator);
                }
                Ok(at)
            },
            None => Err(MarketError::SeriesNotFound),
        }
    }

    /// Sets the bounds of the sale window of a series that are given, and leaves the
    /// others. Only the owner may, with a deposit of one unit.
    pub fn set_nft_series_sale_time(
        &mut self,
        ctx: &CallContext,
        token_series_id: &String,
        start_time: Option<TimestampSec>,
        end_time: Option<TimestampSec>,
    ) -> (done: Result<(), MarketError>)
        requires
            old(self).wf(),
        ensures
            final(self).wf(),
            done == old(self).sale_time_check(*ctx, token_series_id@, start_time, end_time),
            done.is_err() ==> *final(self) == *old(self),
            done.is_ok() ==> {
                let at = old(self).series_at(token_series_id@).unwrap();
                &&& final(self).only_series_changed(*old(self), at)
                &&& final(self).series(token_series_id@) == Some(
                    old(self).series(token_series_id@).unwrap().with_window(start_time, end_time),
                )
                &&& final(self).series(token_series_id@).unwrap().window_ordered()
            },
    {
        let at = match self.check_owner_edit(ctx, token_series_id) {
            Ok(at) => at,
            Err(e) => {
                return Err(e);
            },
        };
        let now = to_sec(ctx.block_timestamp);
        proof {
            assert(old(self).series_wf_at(at as int));
            old(self).token_series_by_id.lemma_value_at(at as int);
        }
        match self.token_series_by_id.entries[at].value.check_window(start_time, end_time, now) {
            Err(e) => {
                return Err(e);
            },
            Ok(()) => {},
        }
        let series = &mut self.token_series_by_id.entries[at].value;
        series.put_window(start_time, end_time);
        proof {
            old(self).token_series_by_id.entries@[at as int].value.lemma_window_stays_ordered(
                start_time,
                end_time,
                now,
            );
            assert(self.token_series_by_id.entries@ =~= old(self).token_series_by_id.entries@.update(
                at as int,
                self.token_series_by_id.entries@[at as int],
            ));
            self.lemma_series_change(*old(self), at as int);
        }
        Ok(())
    }

    /// Whether new bounds of the sale window of a series are accepted, and why not.
    pub open spec fn sale_time_check(
        self,
        ctx: CallContext,
        id: Seq<char>,
        start_time: Option<TimestampSec>,
        end_time: Option<TimestampSec>,
    ) -> Result<(), MarketError> {
        if self.owner_edit_check(ctx, id).is_err() {
            self.owner_edit_check(ctx, id)
        } else {
            self.series(id).unwrap().window_check(start_time, end_time, ctx.now())
        }
    }

    /// Opens a series for minting or closes it. Only the owner may, with a deposit of
    /// one unit.
    pub fn set_nft_series_is_mintable(&mut self, ctx: &CallContext, token_series_id: &String, is_mintable: bool) -> (done:
        Result<(), MarketError>)
        requires
            old(self).wf(),
        ensures
            final(self).wf(),
            done == old(self).owner_edit_check(*ctx, token_series_id@),
            done.is_err() ==> *final(self) == *old(self),
            done.is_ok() ==> {
                let at = old(self).series_at(token_series_id@).unwrap();
                &&& final(self).only_series_changed(*old(self), at)
                &&& final(self).series(token_series_id@) == Some(
                    TokenSeries { is_mintable, ..old(self).series(token_series_id@).unwrap() },
                )
            },
    {
        let at = match self.check_owner_edit(ctx, token_series_id) {
            Ok(at) => at,
            Err(e) => {
                return Err(e);
            },
        };
        proof {
            assert(old(self).series_wf_at(at as int));
            old(self).token_series_by_id.lemma_value_at(at as int);
        }
        let series = &mut self.token_series_by_id.entries[at].value;
        series.is_mintable = is_mintable;
        proof {
            assert(self.token_series_by_id.entries@ =~= old(self).token_series_by_id.entries@.update(
                at as int,
                self.token_series_by_id.entries@[at as int],
            ));
            self.lemma_series_change(*old(self), at as int);
        }
        Ok(())
    }

    /// Lowers the supply cap of a series by `decrease_copies` and gives the new cap. A
    /// series whose cap comes down to the number of items minted is closed for minting.
    /// Only the creator of the series may, with a deposit of one unit.
    pub fn nft_decrease_series_copies(&mut self, ctx: &CallContext, token_series_id: &String, decrease_copies: u64) -> (left:
        Result<u64, MarketError>)
        requires
            old(self).wf(),
        ensures
            final(self).wf(),
            match left {
                Ok(copies) => {
                    let at = old(self).series_at(token_series_id@).unwrap();
                    let before = old(self).series(token_series_id@).unwrap();
                    &&& old(self).decrease_copies_check(*ctx, token_series_id@, decrease_copies).is_ok()
                    &&& copies == before.metadata.copies.unwrap() - decrease_copies
                    &&& final(self).only_series_changed(*old(self), at)
                    &&& final(self).series(token_series_id@) == Some(before.with_lower_cap(decrease_copies))
                },
                Err(e) => old(self).decrease_copies_check(*ctx, token_series_id@, decrease_copies) == Err::<
                    (),
                    MarketError,
                >(e) && *final(self) == *old(self),
            },
    {
        let at = match self.check_creator_edit(ctx, token_series_id) {
            Ok(at) => at,
            Err(e) => {
                return Err(e);
            },
        };
        proof {
            assert(old(self).series_wf_at(at as int));
            old(self).token_series_by_id.lemma_value_at(at as int);
        }
        match self.token_series_by_id.entries[at].value.check_decrease(decrease_copies) {
            Err(e) => {
                return Err(e);
            },
            Ok(()) => {},
        }
        let series = &mut self.token_series_by_id.entries[at].value;
        let left = series.lower_cap(decrease_copies);
        proof {
            assert(self.token_series_by_id.entries@ =~= old(self).token_series_by_id.entries@.update(
                at as int,
                self.token_series_by_id.entries@[at as int],
            ));
            self.lemma_series_change(*old(self), at as int);
        }
        Ok(left)
    }

    /// Whether the supply cap of a series can come down, and why not.
    pub open spec fn decrease_copies_check(self, ctx: CallContext, id: Seq<char>, decrease_copies: u64) -> Result<
        (),
        MarketError,
    > {
        if self.creator_edit_check(ctx, id).is_err() {
            self.creator_edit_check(ctx, id)
        } else {
            self.series(id).unwrap().decrease_check(decrease_copies)
        }
    }

    /// Prices a series, or takes it off sale where no price is given, and gives the
    /// price back. The marketplace fee is brought up to date and recorded anew for the
    /// series. Only the creator of the series may, with a deposit of one unit.
    pub fn nft_set_series_price(&mut self, ctx: &CallContext, token_series_id: &String, price: Option<u128>) -> (priced:
        Result<Option<u128>, MarketError>)
        requires
            old(self).wf(),
        ensures
            final(self).wf(),
            match priced {
                Ok(set) => {
                    let at = old(self).series_at(token_series_id@).unwrap();
                    let fee = old(self).transaction_fee.resolved(ctx.now());
                    &&& old(self).set_price_check(*ctx, token_series_id@, price).is_ok()
                    &&& set == price
                    &&& final(self).series(token_series_id@) == Some(
                        TokenSeries { price, ..old(self).series(token_series_id@).unwrap() },
                    )
                    &&& final(self).transaction_fee == fee
                    &&& final(self).recorded_fee(token_series_id@) == Some(fee.current_fee as u128)
                    &&& forall|other: Seq<char>|
                        other != token_series_id@ ==> final(self).recorded_fee(other) == old(self).recorded_fee(
                            other,
                        )
                    &&& (Contract {
                        transaction_fee: old(self).transaction_fee,
                        market_data_transaction_fee: old(self).market_data_transaction_fee,
                        ..*final(self)
                    }).only_series_changed(*old(self), at)
                },
                Err(e) => old(self).set_price_check(*ctx, token_series_id@, price) == Err::<(), MarketError>(e)
                    && *final(self) == *old(self),
            },
    {
        let at = match self.check_creator_edit(ctx, token_series_id) {
            Ok(at) => at,
            Err(e) => {
                return Err(e);
            },
        };
        proof {
            assert(old(self).series_wf_at(at as int));
            old(self).token_series_by_id.lemma_value_at(at as int);
        }
        match self.token_series_by_id.entries[at].value.check_pricing(price) {
            Err(e) => {
                return Err(e);
            },
            Ok(()) => {},
        }
        let series = &mut self.token_series_by_id.entries[at].value;
        series.price = price;
        proof {
            assert(self.token_series_by_id.entries@ =~= old(self).token_series_by_id.entries@.update(
                at as int,
                self.token_series_by_id.entries@[at as int],
            ));
            self.lemma_series_change(*old(self), at as int);
        }
        let ghost priced = *self;
        let current_transaction_fee = self.calculate_current_transaction_fee(ctx);
        self.record_fee(token_series_id, current_transaction_fee);
        proof {
            assert((Contract {
                transaction_fee: old(self).transaction_fee,
                market_data_transaction_fee: old(self).market_data_transaction_fee,
                ..*self
            }) == priced);
        }
        Ok(price)
    }

    /// Whether a series can be priced, and why not.
    pub open spec fn set_price_check(self, ctx: CallContext, id: Seq<char>, price: Option<u128>) -> Result<
        (),
        MarketError,
    > {
        if self.creator_edit_check(ctx, id).is_err() {
            self.creator_edit_check(ctx, id)
        } else {
            self.series(id).unwrap().pricing_check(price)
        }
    }

    /// The price of a series, if it is for sale.
    pub fn nft_get_series_price(&self, token_series_id: &String) -> (price: Result<Option<u128>, MarketError>)
        requires
            self.wf(),
        ensures
            match self.series(token_series_id@) {
                Some(series) => price == Ok::<Option<u128>, MarketError>(series.price),
                None => price == Err::<Option<u128>, MarketError>(MarketError::SeriesNotFound),
            },
    {
        match self.token_series_by_id.get(token_series_id) {
            Some(series) => Ok(series.price),
            None => Err(MarketError::SeriesNotFound),
        }
    }

    /// The number of items minted from a series.
    pub fn nft_supply_for_series(&self, token_series_id: &String) -> (supply: Result<u64, MarketError>)
        requires
            self.wf(),
        ensures
            match self.series(token_series_id@) {
                Some(series) => supply == Ok::<u64, MarketError>(series.minted() as u64),
                None => supply == Err::<u64, MarketError>(MarketError::SeriesNotFound),
            },
    {
        match self.token_series_by_id.get(token_series_id) {
            Some(series) => Ok(series.tokens.len() as u64),
            None => Err(MarketError::SeriesNotFound),
        }
    }
    /// The royalty table that a new series gets: the one given, or an empty one.
    pub open spec fn royalty_given(royalty: Option<Royalty>) -> Seq<(Seq<char>, u32)> {
        match royalty {
            Some(table) => table@,
            None => Seq::empty(),
        }
    }

    /// Whether a sale window is accepted for a new series: two bounds that are given
    /// together are in order.
    pub open spec fn new_window_check(start_time: Option<TimestampSec>, end_time: Option<TimestampSec>) -> Result<
        (),
        MarketError,
    > {
        if start_time.is_some() && end_time.is_some() && start_time.unwrap() >= end_time.unwrap() {
            Err(MarketError::WindowStartNotBeforeEnd)
        } else {
            Ok(())
        }
    }

    /// Whether a series can be created, and why not: the caller is whitelisted or the
    /// owner; a creator that is named is the caller; the template has a title; the
    /// royalty table passes its check; the price is below the maximum; the template has
    /// a media reference; the start of the sale window precedes its end where both are
    /// given.
    pub open spec fn create_series_check(
        self,
        ctx: CallContext,
        creator_id: Option<String>,
        token_metadata: TokenMetadata,
        price: Option<u128>,
        royalty: Option<Royalty>,
        start_time: Option<TimestampSec>,
        end_time: Option<TimestampSec>,
    ) -> Result<(), MarketError> {
        if !self.whitelisted_creators.has(ctx.predecessor_account_id@) && ctx.predecessor_account_id@
            != self.owner_id@ {
            Err(MarketError::CreatorNotWhitelisted)
        } else if creator_id.is_some() && creator_id.unwrap()@ != ctx.predecessor_account_id@ {
            Err(MarketError::CallerIsNotCreator)
        } else if token_metadata.title.is_none() {
            Err(MarketError::TitleRequired)
        } else if royalty_check(Self::royalty_given(royalty)).is_err() {
            royalty_check(Self::royalty_given(royalty))
        } else if price_check(price).is_err() {
            price_check(price)
        } else if token_metadata.media.is_none() {
            Err(MarketError::MediaRequired)
        } else {
            Self::new_window_check(start_time, end_time)
        }
    }

    /// The identifier that the next series gets: the numeral of its place in the
    /// registry, counted from 1.
    pub open spec fn next_series_id(self) -> Seq<char> {
        decimal_text(self.token_series_by_id.entries@.len() + 1)
    }

    /// No series has the identifier that the next series gets.
    pub proof fn lemma_next_series_id_is_new(self)
        requires
            self.wf(),
        ensures
            self.series_at(self.next_series_id()).is_none(),
    {
        let keys = self.token_series_by_id.keys();
        assert forall|i: int| 0 <= i < keys.len() implies keys[i] != self.next_series_id() by {
            assert(self.series_wf_at(i));
            if keys[i] == self.next_series_id() {
                lemma_decimal_text_injective((i + 1) as nat, keys.len() + 1);
            }
        }
        lemma_position_none(keys, self.next_series_id());
    }

    /// Creates a series for the caller and says what was created. The series gets the
    /// next identifier, is open for minting and has no items yet; its media reference is
    /// the one of the template with the series identifier and `media` behind it; its
    /// sale window is the one given, which is in order. The
    /// marketplace fee is brought up to date and recorded for the series. A call that is
    /// refused changes nothing.
    pub fn nft_create_series(
        &mut self,
        ctx: &CallContext,
        creator_id: Option<String>,
        token_metadata: TokenMetadata,
        price: Option<u128>,
        royalty: Option<Royalty>,
        start_time: Option<TimestampSec>,
        end_time: Option<TimestampSec>,
    ) -> (created: Result<TokenSeriesJson, MarketError>)
        requires
            old(self).wf(),
            royalty.is_some() ==> royalty.unwrap().wf(),
        ensures
            final(self).wf(),
            match created {
                Ok(json) => {
                    let id = old(self).next_series_id();
                    let fee = old(self).transaction_fee.resolved(ctx.now());
                    let count = old(self).token_series_by_id.entries@.len() as int;
                    let entry = final(self).token_series_by_id.entries@[count];
                    &&& old(self).create_series_check(
                        *ctx,
                        creator_id,
                        token_metadata,
                        price,
                        royalty,
                        start_time,
                        end_time,
                    ).is_ok()
                    &&& json.token_series_id@ == id
                    &&& json.metadata == token_metadata
                    &&& json.creator_id == ctx.predecessor_account_id
                    &&& json.royalty@ == Self::royalty_given(royalty)
                    &&& json.transaction_fee == Some(fee.current_fee as u128)
                    &&& json.start_time == start_time
                    &&& json.end_time == end_time
                    &&& final(self).token_series_by_id.entries@ == old(self).token_series_by_id.entries@.push(entry)
                    &&& entry.key@ == id
                    &&& final(self).series(id) == Some(entry.value)
                    &&& entry.value.metadata == (TokenMetadata {
                        media: entry.value.metadata.media,
                        ..token_metadata
                    })
                    &&& entry.value.metadata.media.is_some()
                    &&& entry.value.metadata.media.unwrap()@ == series_media(token_metadata.media.unwrap()@, id)
                    &&& entry.value.creator_id == ctx.predecessor_account_id
                    &&& entry.value.tokens@.len() == 0
                    &&& entry.value.price == price
                    &&& entry.value.is_mintable
                    &&& entry.value.royalty@ == Self::royalty_given(royalty)
                    &&& entry.value.start_time == start_time
                    &&& entry.value.end_time == end_time
                    &&& final(self).transaction_fee == fee
                    &&& final(self).recorded_fee(id) == Some(fee.current_fee as u128)
                    &&& forall|other: Seq<char>|
                        other != id ==> final(self).recorded_fee(other) == old(self).recorded_fee(other)
                    &&& *final(self) == (Contract {
                        token_series_by_id: final(self).token_series_by_id,
                        transaction_fee: final(self).transaction_fee,
                        market_data_transaction_fee: final(self).market_data_transaction_fee,
                        ..*old(self)
                    })
                },
                Err(e) => old(self).create_series_check(
                        *ctx,
                        creator_id,
                        token_metadata,
                        price,
                        royalty,
                        start_time,
                        end_time,
                    ) == Err::<
                    (),
                    MarketError,
                >(e) && *final(self) == *old(self),
            },
    {
        if !self.whitelisted_creators.contains(&ctx.predecessor_account_id) && ctx.predecessor_account_id
            != self.owner_id {
            return Err(MarketError::CreatorNotWhitelisted);
        }
        match &creator_id {
            Some(creator) => {
                if *creator != ctx.predecessor_account_id {
                    return Err(MarketError::CallerIsNotCreator);
                }
            },
            None => {},
        }
        if token_metadata.title.is_none() {
            return Err(MarketError::TitleRequired);
        }
        let royalty_res: Royalty = match royalty {
            Some(table) => {
                match check_royalty(&table) {
                    Err(e) => {
                        return Err(e);
                    },
                    Ok(()) => {},
                }
                table
            },
            None => TextMap::new(),
        };
        assert(royalty_res@ =~= Self::royalty_given(royalty));
        match price {
            Some(p) => {
                if p >= MAX_PRICE {
                    return Err(MarketError::PriceTooHigh);
                }
            },
            None => {},
        }
        let count: usize = self.token_series_by_id.len();
        let token_series_id = decimal(count as u128 + 1);
        let media = match &token_metadata.media {
            Some(root) => compose_media(root, &token_series_id),
            None => {
                return Err(MarketError::MediaRequired);
            },
        };
        match (start_time, end_time) {
            (Some(start), Some(end)) => {
                if start >= end {
                    return Err(MarketError::WindowStartNotBeforeEnd);
                }
            },
            _ => {},
        }
        let mut update_metadata = token_metadata.clone();
        update_metadata.media = Some(media);

        let current_transaction_fee = self.calculate_current_transaction_fee(ctx);
        let ghost resolved = *self;
        self.record_fee(&token_series_id, current_transaction_fee);
        let ghost recorded = *self;
        proof {
            old(self).lemma_next_series_id_is_new();
            assert(recorded.token_series_by_id == old(self).token_series_by_id);
            assert forall|other: Seq<char>| other != token_series_id@ implies recorded.recorded_fee(other) == old(
                self,
            ).recorded_fee(other) by {
                assert(recorded.recorded_fee(other) == resolved.recorded_fee(other));
            }
        }
        let series = TokenSeries {
            metadata: update_metadata,
            creator_id: ctx.predecessor_account_id.clone(),
            tokens: Vec::new(),
            price,
            is_mintable: true,
            royalty: royalty_res.clone(),
            start_time,
            end_time,
        };
        self.token_series_by_id.insert(token_series_id.clone(), series);
        proof {
            let id = old(self).next_series_id();
            let entries = self.token_series_by_id.entries@;
            assert(entries.len() == count + 1);
            self.token_series_by_id.lemma_value_at(count as int);
            assert forall|i: int| 0 <= i < entries.len() implies #[trigger] self.series_wf_at(i) by {
                if i < count {
                    assert(recorded.series_wf_at(i));
                    assert(entries[i] == recorded.token_series_by_id.entries@[i]);
                }
            }
            assert(self.market_data_transaction_fee == recorded.market_data_transaction_fee);
            assert forall|other: Seq<char>| other != id implies self.recorded_fee(other) == old(
                self,
            ).recorded_fee(other) by {
                assert(self.recorded_fee(other) == recorded.recorded_fee(other));
            }
        }
        Ok(
            TokenSeriesJson {
                token_series_id,
                metadata: token_metadata,
                creator_id: ctx.predecessor_account_id.clone(),
                royalty: royalty_res,
                transaction_fee: Some(current_transaction_fee),
                start_time,
                end_time,
            },
        )
    }

    /// What a caller is told of a series: its template, creator, royalty table and sale
    /// window, and the fee that a sale from it pays as things stand.
    pub fn nft_get_series_single(&self, token_series_id: &String) -> (told: Result<TokenSeriesJson, MarketError>)
        requires
            self.wf(),
        ensures
            match told {
                Ok(json) => {
                    &&& self.series(token_series_id@).is_some()
                    &&& json.token_series_id == *token_series_id
                    &&& json.metadata == self.series(token_series_id@).unwrap().metadata
                    &&& json.creator_id == self.series(token_series_id@).unwrap().creator_id
                    &&& json.royalty@ == self.series(token_series_id@).unwrap().royalty@
                    &&& json.transaction_fee == Some(self.series_fee(token_series_id@))
                    &&& json.start_time == self.series(token_series_id@).unwrap().start_time
                    &&& json.end_time == self.series(token_series_id@).unwrap().end_time
                },
                Err(e) => e == MarketError::SeriesNotFound && self.series(token_series_id@).is_none(),
            },
    {
        let current_transaction_fee = self.get_market_data_transaction_fee(token_series_id);
        match self.token_series_by_id.get(token_series_id) {
            Some(token_series) => Ok(
                TokenSeriesJson {
                    token_series_id: token_series_id.clone(),
                    metadata: token_series.metadata.clone(),
                    creator_id: token_series.creator_id.clone(),
                    royalty: token_series.royalty.clone(),
                    transaction_fee: Some(current_transaction_fee),
                    start_time: token_series.start_time,
                    end_time: token_series.end_time,
                },
            ),
            None => Err(MarketError::SeriesNotFound),
        }
    }
}

/// Every series of a marketplace keeps to the limits: its royalty table names at most 50
/// accounts and gives away at most 9000 basis points, its price is below the maximum, and
/// no more items are minted from it than its supply cap allows.
pub proof fn lemma_series_within_limits(market: Contract, id: Seq<char>)
    requires
        market.wf(),
        market.series(id).is_some(),
    ensures
        within_limits(market.series(id).unwrap().royalty@),
        price_check(market.series(id).unwrap().price).is_ok(),
        market.series(id).unwrap().minted() <= market.series(id).unwrap().cap(),
{
    let at = market.series_at(id).unwrap();
    assert(market.series_wf_at(at));
}

/// No two items of a marketplace share an identifier, and no two series do.
pub proof fn lemma_identifiers_are_unique(market: Contract, i: int, a: int, j: int, b: int)
    requires
        market.wf(),
        0 <= i < market.token_series_by_id.entries@.len(),
        0 <= j < market.token_series_by_id.entries@.len(),
        0 <= a < market.token_series_by_id.entries@[i].value.tokens@.len(),
        0 <= b < market.token_series_by_id.entries@[j].value.tokens@.len(),
    ensures
        market.token_series_by_id.entries@[i].key@ == market.token_series_by_id.entries@[j].key@ ==> i == j,
        market.token_series_by_id.entries@[i].value.tokens@[a]@ == market.token_series_by_id.entries@[j].value.tokens@[b]@
            ==> i == j && a == b,
{
    assert(market.series_wf_at(i));
    assert(market.series_wf_at(j));
    if market.token_series_by_id.entries@[i].key@ == market.token_series_by_id.entries@[j].key@ {
        lemma_decimal_text_injective((i + 1) as nat, (j + 1) as nat);
    }
    if market.token_series_by_id.entries@[i].value.tokens@[a]@ == market.token_series_by_id.entries@[j].value.tokens@[b]@ {
        crate::text::lemma_token_id_injective((i + 1) as nat, (a + 1) as nat, (j + 1) as nat, (b + 1) as nat);
    }
}

} // verus!
