use crate::contract::{CallContext, Contract};
use crate::fee::FEE_DENOMINATOR;
use crate::error::MarketError;
use crate::fee::to_sec;
use crate::metadata::{clone_text, compose_title, item_title, minted_metadata, shown_metadata, Token, TokenMetadata};
use crate::payout::{lemma_payout_conserves, payout_of, split_payout, sum_amounts, Payout, ALL_POINTS};
use crate::royalty::total_points;
use crate::series::{TokenSeries, MAX_PRICE};
use crate::storage::{refund_deposit, required_cost, settlement};
use crate::table::TextMap;
use crate::text::{decimal, decimal_text, index_part, series_part, split_token_id, token_id_text};
use vstd::prelude::*;

verus! {

/// An amount to send to an account once the call that asked for it has gone through.
#[derive(Clone, Debug, PartialEq, Eq)]
pub struct Transfer {
    pub receiver_id: String,
    pub amount: u128,
}

/// A new item: as the caller is told of it, and the metadata to keep with it.
#[derive(Clone, Debug, PartialEq, Eq)]
pub struct Minted {
    pub token: Token,
    pub stored_metadata: TokenMetadata,
}

/// A sale: the item minted for the buyer, the price that the buyer's deposit pays, and
/// the transfers that hand the price out.
#[derive(Debug, PartialEq, Eq)]
pub struct Purchase {
    pub minted: Minted,
    pub price: u128,
    pub transfers: Vec<Transfer>,
}

/// The receivers with their amounts, in order.
pub open spec fn transfers_view(transfers: Seq<Transfer>) -> Seq<(Seq<char>, nat)> {
    transfers.map_values(|t: Transfer| (t.receiver_id@, t.amount as nat))
}

/// The part of a price that the marketplace keeps at a fee in basis points, rounded down.
pub open spec fn treasury_cut(price: nat, fee: nat) -> nat {
    price * fee / 10_000
}

/// Who gets what is left of a price once the marketplace fee is taken: with royalties
/// paid on a first sale and a royalty table that is not empty, the accounts of the table
/// and the creator, as a payout splits it; else the creator alone.
pub open spec fn sale_payout(
    creator: Seq<char>,
    royalty: Seq<(Seq<char>, u32)>,
    royalty_paid_on_buy: bool,
    left: nat,
) -> Seq<(Seq<char>, nat)> {
    if royalty_paid_on_buy && royalty.len() > 0 {
        payout_of(royalty, creator, left)
    } else {
        seq![(creator, left)]
    }
}

/// The transfers of a sale at `price` with a fee of `fee` basis points: the fee to the
/// treasury, unless it is nothing, and then what is left to those who share it.
pub open spec fn sale_transfers(
    treasury: Seq<char>,
    creator: Seq<char>,
    royalty: Seq<(Seq<char>, u32)>,
    royalty_paid_on_buy: bool,
    price: nat,
    fee: nat,
) -> Seq<(Seq<char>, nat)> {
    let cut = treasury_cut(price, fee);
    let to_treasury = if cut != 0 {
        seq![(treasury, cut)]
    } else {
        Seq::empty()
    };
    to_treasury + sale_payout(creator, royalty, royalty_paid_on_buy, (price - cut) as nat)
}

/// The amounts of two lists of transfers together are the amounts of the one list made
/// of both.
pub proof fn lemma_sum_amounts_concat(a: Seq<(Seq<char>, nat)>, b: Seq<(Seq<char>, nat)>)
    ensures
        sum_amounts(a + b) == sum_amounts(a) + sum_amounts(b),
    decreases b.len(),
{
    if b.len() == 0 {
        assert(a + b =~= a);
    } else {
        lemma_sum_amounts_concat(a, b.drop_last());
        assert((a + b).drop_last() =~= a + b.drop_last());
        assert((a + b).last() == b.last());
    }
}

/// One transfer alone amounts to what it sends.
pub proof fn lemma_sum_amounts_one(to: Seq<char>, amount: nat)
    ensures
        sum_amounts(seq![(to, amount)]) == amount,
{
    let one = seq![(to, amount)];
    assert(one.drop_last() =~= Seq::<(Seq<char>, nat)>::empty());
    assert(sum_amounts(one.drop_last()) == 0);
    assert(one.last() == (to, amount));
}

/// The transfers of a sale that pays no royalties: the fee, rounded down, to the treasury,
/// unless it is nothing, and all the rest of the price to the creator.
pub open spec fn direct_transfers(treasury: Seq<char>, creator: Seq<char>, price: nat, fee: nat) -> Seq<
    (Seq<char>, nat),
> {
    let cut = treasury_cut(price, fee);
    if cut != 0 {
        seq![(treasury, cut), (creator, (price - cut) as nat)]
    } else {
        seq![(creator, price)]
    }
}

/// A fee of at most 100% leaves the treasury with no more than the price.
pub proof fn lemma_fee_within_price(price: nat, fee: nat)
    requires
        fee <= 10_000,
    ensures
        treasury_cut(price, fee) <= price,
{
    crate::payout::lemma_share_bounds(fee, price);
    assert(treasury_cut(price, fee) == crate::payout::share(fee, price)) by (nonlinear_arith);
}

/// A sale from a series without a royalty table, or with royalties not paid on a first
/// sale, pays the fee, rounded down, to the treasury and all the rest of the price to the
/// creator: nothing is lost.
pub proof fn lemma_sale_without_royalty(
    treasury: Seq<char>,
    creator: Seq<char>,
    royalty: Seq<(Seq<char>, u32)>,
    royalty_paid_on_buy: bool,
    price: nat,
    fee: nat,
)
    requires
        royalty.len() == 0 || !royalty_paid_on_buy,
        fee <= 10_000,
    ensures
        treasury_cut(price, fee) <= price,
        sale_transfers(treasury, creator, royalty, royalty_paid_on_buy, price, fee) == direct_transfers(
            treasury,
            creator,
            price,
            fee,
        ),
        sum_amounts(sale_transfers(treasury, creator, royalty, royalty_paid_on_buy, price, fee)) == price,
{
    lemma_fee_within_price(price, fee);
    let cut = treasury_cut(price, fee);
    let out = sale_transfers(treasury, creator, royalty, royalty_paid_on_buy, price, fee);
    let rest = seq![(creator, (price - cut) as nat)];
    lemma_sum_amounts_one(creator, (price - cut) as nat);
    if cut != 0 {
        let first = seq![(treasury, cut)];
        lemma_sum_amounts_one(treasury, cut);
        lemma_sum_amounts_concat(first, rest);
        assert(out =~= seq![(treasury, cut), (creator, (price - cut) as nat)]);
    } else {
        assert(out =~= rest);
    }
}

/// Every sale from a series without a royalty table, or with royalties not paid on a
/// first sale, pays the fee recorded for the series, rounded down, to the treasury and
/// all the rest of the price to the creator.
pub proof fn lemma_buy_without_royalty(market: Contract, id: Seq<char>)
    requires
        market.wf(),
        market.series(id).is_some(),
        market.series(id).unwrap().price.is_some(),
        market.series(id).unwrap().royalty@.len() == 0 || !market.royalty_paid_on_buy,
    ensures
        sale_transfers(
            market.treasury_id@,
            market.series(id).unwrap().creator_id@,
            market.series(id).unwrap().royalty@,
            market.royalty_paid_on_buy,
            market.series(id).unwrap().price.unwrap() as nat,
            market.series_fee(id) as nat,
        ) == direct_transfers(
            market.treasury_id@,
            market.series(id).unwrap().creator_id@,
            market.series(id).unwrap().price.unwrap() as nat,
            market.series_fee(id) as nat,
        ),
        treasury_cut(market.series(id).unwrap().price.unwrap() as nat, market.series_fee(id) as nat)
            <= market.series(id).unwrap().price.unwrap(),
{
    market.lemma_recorded_fee_bound(id);
    lemma_sale_without_royalty(
        market.treasury_id@,
        market.series(id).unwrap().creator_id@,
        market.series(id).unwrap().royalty@,
        market.royalty_paid_on_buy,
        market.series(id).unwrap().price.unwrap() as nat,
        market.series_fee(id) as nat,
    );
}

/// No sale hands out more than its price, and what rounding keeps back is less than one
/// unit for each transfer.
pub proof fn lemma_sale_conserves(
    treasury: Seq<char>,
    creator: Seq<char>,
    royalty: Seq<(Seq<char>, u32)>,
    royalty_paid_on_buy: bool,
    price: nat,
    fee: nat,
)
    requires
        total_points(royalty) <= ALL_POINTS,
        fee <= 10_000,
    ensures
        sum_amounts(sale_transfers(treasury, creator, royalty, royalty_paid_on_buy, price, fee)) <= price,
        price - sum_amounts(sale_transfers(treasury, creator, royalty, royalty_paid_on_buy, price, fee))
            < sale_transfers(treasury, creator, royalty, royalty_paid_on_buy, price, fee).len(),
{
    lemma_fee_within_price(price, fee);
    let cut = treasury_cut(price, fee);
    let left = (price - cut) as nat;
    let shared = sale_payout(creator, royalty, royalty_paid_on_buy, left);
    if royalty_paid_on_buy && royalty.len() > 0 {
        lemma_payout_conserves(royalty, creator, left);
    } else {
        lemma_sum_amounts_one(creator, left);
    }
    if cut != 0 {
        let first = seq![(treasury, cut)];
        lemma_sum_amounts_one(treasury, cut);
        lemma_sum_amounts_concat(first, shared);
    } else {
        assert(Seq::<(Seq<char>, nat)>::empty() + shared =~= shared);
    }
}

/// The refund of a call that used `storage_used` bytes and spends `extra_spend` of its
/// deposit on something else: what is left of the deposit goes back to the caller where
/// it is more than dust, and a deposit that does not cover the storage fails the call.
pub open spec fn refund_of(ctx: CallContext, storage_used: u64, extra_spend: u128) -> Result<
    Seq<(Seq<char>, nat)>,
    MarketError,
> {
    match settlement(storage_used, extra_spend, ctx.attached_deposit) {
        Ok(Some(refund)) => Ok(seq![(ctx.predecessor_account_id@, refund as nat)]),
        Ok(None) => Ok(Seq::empty()),
        Err(e) => Err(e),
    }
}

/// Settles the storage that a call used, and gives the transfer that sends the rest of
/// the deposit back to the caller, if there is one to make.
pub fn settle(ctx: &CallContext, storage_used: u64, extra_spend: u128) -> (refund: Result<Option<Transfer>, MarketError>)
    ensures
        match refund {
            Ok(Some(transfer)) => refund_of(*ctx, storage_used, extra_spend) == Ok::<
                Seq<(Seq<char>, nat)>,
                MarketError,
            >(seq![(transfer.receiver_id@, transfer.amount as nat)]) && transfer.receiver_id
                == ctx.predecessor_account_id,
            Ok(None) => refund_of(*ctx, storage_used, extra_spend) == Ok::<Seq<(Seq<char>, nat)>, MarketError>(
                Seq::empty(),
            ),
            Err(e) => refund_of(*ctx, storage_used, extra_spend) == Err::<Seq<(Seq<char>, nat)>, MarketError>(e),
        },
{
    match refund_deposit(storage_used, extra_spend, ctx.attached_deposit) {
        Ok(Some(amount)) => Ok(Some(Transfer { receiver_id: ctx.predecessor_account_id.clone(), amount })),
        Ok(None) => Ok(None),
        Err(e) => Err(e),
    }
}

impl Purchase {
    /// Settles the storage that the sale used, before anything is handed out: the
    /// deposit pays the price first and the storage next, and what is left goes back to
    /// the buyer behind the transfers of the sale. A deposit that does not cover both
    /// fails the call, and nothing is to be handed out.
    pub fn settle(&mut self, ctx: &CallContext, storage_used: u64) -> (done: Result<(), MarketError>)
        ensures
            match done {
                Ok(()) => {
                    &&& refund_of(*ctx, storage_used, old(self).price).is_ok()
                    &&& transfers_view(final(self).transfers@) == transfers_view(old(self).transfers@) + refund_of(
                        *ctx,
                        storage_used,
                        old(self).price,
                    ).unwrap()
                    &&& final(self).minted == old(self).minted
                    &&& final(self).price == old(self).price
                },
                Err(e) => refund_of(*ctx, storage_used, old(self).price) == Err::<
                    Seq<(Seq<char>, nat)>,
                    MarketError,
                >(e) && *final(self) == *old(self),
            },
    {
        match settle(ctx, storage_used, self.price) {
            Ok(Some(refund)) => {
                let ghost before = transfers_view(self.transfers@);
                self.transfers.push(refund);
                assert(transfers_view(self.transfers@) =~= before + seq![
                    (ctx.predecessor_account_id@, refund.amount as nat),
                ]);
                Ok(())
            },
            Ok(None) => {
                assert(transfers_view(self.transfers@) + Seq::<(Seq<char>, nat)>::empty() =~= transfers_view(
                    self.transfers@,
                ));
                Ok(())
            },
            Err(e) => Err(e),
        }
    }
}

/// A sale never hands out more than the buyer's deposit: the transfers of the sale, the
/// refund and the cost of the storage are together at most the deposit.
pub proof fn lemma_purchase_is_covered(
    ctx: CallContext,
    storage_used: u64,
    treasury: Seq<char>,
    creator: Seq<char>,
    royalty: Seq<(Seq<char>, u32)>,
    royalty_paid_on_buy: bool,
    price: u128,
    fee: nat,
)
    requires
        total_points(royalty) <= ALL_POINTS,
        fee <= 10_000,
        refund_of(ctx, storage_used, price).is_ok(),
    ensures
        sum_amounts(
            sale_transfers(treasury, creator, royalty, royalty_paid_on_buy, price as nat, fee) + refund_of(
                ctx,
                storage_used,
                price,
            ).unwrap(),
        ) + required_cost(storage_used) <= ctx.attached_deposit,
{
    let sale = sale_transfers(treasury, creator, royalty, royalty_paid_on_buy, price as nat, fee);
    let refund = refund_of(ctx, storage_used, price).unwrap();
    lemma_sale_conserves(treasury, creator, royalty, royalty_paid_on_buy, price as nat, fee);
    lemma_sum_amounts_concat(sale, refund);
    match settlement(storage_used, price, ctx.attached_deposit) {
        Ok(Some(amount)) => {
            lemma_sum_amounts_one(ctx.predecessor_account_id@, amount as nat);
        },
        _ => {},
    }
}

/// `minted` is the item that comes next in the series `id`, which was `series` before the
/// mint, for `receiver` at the time `timestamp`. Its identifier is the series identifier,
/// the delimiter and its index. The metadata kept with it is the template of the series
/// with the time of the mint, in nanoseconds, as its time of issue. The caller is told of
/// it as of any item of the series. Nobody is approved for it.
pub open spec fn minted_as(minted: Minted, series: TokenSeries, id: Seq<char>, receiver: String, timestamp: u64) -> bool {
    let index = series.minted() + 1;
    &&& minted.token.token_id@ == token_id_text(id, index)
    &&& minted.token.owner_id == receiver
    &&& minted.stored_metadata.issued_at.is_some()
    &&& minted.stored_metadata.issued_at.unwrap()@ == decimal_text(timestamp as nat)
    &&& minted.stored_metadata == minted_metadata(series.metadata, minted.stored_metadata.issued_at.unwrap())
    &&& shown_as(minted.token.metadata, series.metadata, minted.stored_metadata, decimal_text(index))
    &&& minted.token.approved_account_ids.is_some()
    &&& minted.token.approved_account_ids.unwrap().entries@.len() == 0
}

/// `shown` is what a caller is told of an item with the index `index`, of a series with
/// the template `series`, that was stored with `stored`.
pub open spec fn shown_as(shown: Option<TokenMetadata>, series: TokenMetadata, stored: TokenMetadata, index: Seq<char>) -> bool {
    &&& shown.is_some()
    &&& shown.unwrap().title.is_some()
    &&& series.title.is_some()
    &&& shown.unwrap().title.unwrap()@ == item_title(series.title.unwrap()@, index)
    &&& shown.unwrap() == shown_metadata(series, stored, shown.unwrap().title.unwrap())
}

fn show_metadata(series: &TokenMetadata, stored: TokenMetadata, index: &String) -> (shown: TokenMetadata)
    requires
        series.title.is_some(),
    ensures
        shown_as(Some(shown), *series, stored, index@),
{
    let title = compose_title(series.title.as_ref().unwrap(), index);
    TokenMetadata {
        title: Some(title),
        description: stored.description,
        media: clone_text(&series.media),
        media_hash: stored.media_hash,
        copies: series.copies,
        issued_at: stored.issued_at,
        expires_at: stored.expires_at,
        starts_at: stored.starts_at,
        updated_at: stored.updated_at,
        extra: clone_text(&series.extra),
        reference: clone_text(&series.reference),
        reference_hash: stored.reference_hash,
    }
}

fn push_payout(transfers: &mut Vec<Transfer>, payout: &Payout)
    ensures
        transfers_view(final(transfers)@) == transfers_view(old(transfers)@) + payout@,
{
    let n = payout.payout.entries.len();
    let mut at: usize = 0;
    while at < n
        invariant
            n == payout.payout.entries@.len(),
            at <= n,
            transfers_view(transfers@) == transfers_view(old(transfers)@) + payout@.take(at as int),
        decreases n - at,
    {
        let entry = &payout.payout.entries[at];
        let ghost before = transfers_view(transfers@);
        transfers.push(Transfer { receiver_id: entry.key.clone(), amount: entry.value });
        assert(transfers_view(transfers@) =~= before.push((entry.key@, entry.value as nat)));
        assert(payout@.take(at + 1) =~= payout@.take(at as int).push(payout@[at as int]));
        assert(transfers_view(transfers@) =~= transfers_view(old(transfers)@) + payout@.take(at + 1));
        at = at + 1;
    }
    assert(payout@.take(n as int) =~= payout@);
}

impl Contract {
    /// Whether the next item of a series may be minted, and why not.
    pub open spec fn mint_series_check(self, ctx: CallContext, id: Seq<char>) -> Result<(), MarketError> {
        if self.series_at(id).is_none() {
            Err(MarketError::SeriesNotFound)
        } else {
            self.series(id).unwrap().admission(ctx.now())
        }
    }

    /// The state `self` after a mint for `receiver` from the series `id` of the state
    /// `before`, with `minted` as the new item.
    pub open spec fn minted_from(self, before: Contract, ctx: CallContext, id: Seq<char>, receiver: String, minted: Minted) -> bool {
        let at = before.series_at(id).unwrap();
        let series = before.series(id).unwrap();
        &&& before.series_at(id).is_some()
        &&& self.only_series_changed(before, at)
        &&& self.series(id).is_some()
        &&& self.series(id).unwrap().minted_from(series, minted.token.token_id@)
        &&& minted_as(minted, series, id, receiver, ctx.block_timestamp)
    }

    fn _nft_mint_series(&mut self, ctx: &CallContext, token_series_id: &String, receiver_id: String) -> (minted:
        Result<Minted, MarketError>)
        requires
            old(self).wf(),
        ensures
            final(self).wf(),
            match minted {
                Ok(m) => old(self).mint_series_check(*ctx, token_series_id@).is_ok() && final(self).minted_from(
                    *old(self),
                    *ctx,
                    token_series_id@,
                    receiver_id,
                    m,
                ),
                Err(e) => old(self).mint_series_check(*ctx, token_series_id@) == Err::<(), MarketError>(e)
                    && *final(self) == *old(self),
            },
    {
        let at = match self.token_series_by_id.find(token_series_id) {
            Some(at) => at,
            None => {
                return Err(MarketError::SeriesNotFound);
            },
        };
        proof {
            old(self).token_series_by_id.lemma_value_at(at as int);
        }
        match self.token_series_by_id.entries[at].value.check_admission(to_sec(ctx.block_timestamp)) {
            Err(e) => Err(e),
            Ok(()) => Ok(self.mint_at(ctx, at, receiver_id)),
        }
    }

    /// Mints the next item of the series at `at`, whose supply cap is not reached, for
    /// `receiver_id`.
    fn mint_at(&mut self, ctx: &CallContext, at: usize, receiver_id: String) -> (minted: Minted)
        requires
            old(self).wf(),
            at < old(self).token_series_by_id.entries@.len(),
            old(self).token_series_by_id.entries@[at as int].value.minted() < old(
                self,
            ).token_series_by_id.entries@[at as int].value.cap(),
        ensures
            final(self).wf(),
            final(self).minted_from(
                *old(self),
                *ctx,
                old(self).token_series_by_id.entries@[at as int].key@,
                receiver_id,
                minted,
            ),
    {
        proof {
            assert(old(self).series_wf_at(at as int));
            old(self).token_series_by_id.lemma_value_at(at as int);
        }
        let token_series_id = self.token_series_by_id.entries[at].key.clone();
        let series = &mut self.token_series_by_id.entries[at].value;
        let token_id = series.record_mint(&token_series_id);
        proof {
            assert(self.token_series_by_id.entries@ =~= old(self).token_series_by_id.entries@.update(
                at as int,
                self.token_series_by_id.entries@[at as int],
            ));
            self.lemma_series_change(*old(self), at as int);
        }
        let token_series = &self.token_series_by_id.entries[at].value;
        let index = decimal(token_series.tokens.len() as u128);
        let stored_metadata = TokenMetadata {
            title: clone_text(&token_series.metadata.title),
            description: clone_text(&token_series.metadata.description),
            media: clone_text(&token_series.metadata.media),
            media_hash: clone_text(&token_series.metadata.media_hash),
            copies: token_series.metadata.copies,
            issued_at: Some(decimal(ctx.block_timestamp as u128)),
            expires_at: clone_text(&token_series.metadata.expires_at),
            starts_at: clone_text(&token_series.metadata.starts_at),
            updated_at: clone_text(&token_series.metadata.updated_at),
            extra: clone_text(&token_series.metadata.extra),
            reference: clone_text(&token_series.metadata.reference),
            reference_hash: clone_text(&token_series.metadata.reference_hash),
        };
        let shown = show_metadata(&token_series.metadata, stored_metadata.clone(), &index);
        Minted {
            token: Token {
                token_id,
                owner_id: receiver_id,
                metadata: Some(shown),
                approved_account_ids: Some(TextMap::new()),
            },
            stored_metadata,
        }
    }

    /// Whether the creator of a series may mint its next item, and why not: the series
    /// is there, its creator makes the call, and the mint is admitted.
    pub open spec fn mint_check(self, ctx: CallContext, id: Seq<char>) -> Result<(), MarketError> {
        if self.series_at(id).is_none() {
            Err(MarketError::SeriesNotFound)
        } else if ctx.predecessor_account_id@ != self.series(id).unwrap().creator_id@ {
            Err(MarketError::NotCreator)
        } else {
            self.series(id).unwrap().admission(ctx.now())
        }
    }

    /// Mints the next item of a series for `receiver_id`. Only the creator of the series
    /// may. Nothing is paid and nothing is handed out.
    pub fn nft_mint(&mut self, ctx: &CallContext, token_series_id: &String, receiver_id: String) -> (minted: Result<
        Minted,
        MarketError,
    >)
        requires
            old(self).wf(),
        ensures
            final(self).wf(),
            match minted {
                Ok(m) => old(self).mint_check(*ctx, token_series_id@).is_ok() && final(self).minted_from(
                    *old(self),
                    *ctx,
                    token_series_id@,
                    receiver_id,
                    m,
                ),
                Err(e) => old(self).mint_check(*ctx, token_series_id@) == Err::<(), MarketError>(e) && *final(self)
                    == *old(self),
            },
    {
        match self.token_series_by_id.get(token_series_id) {
            Some(token_series) => {
                if ctx.predecessor_account_id != token_series.creator_id {
                    return Err(MarketError::NotCreator);
                }
            },
            None => {
                return Err(MarketError::SeriesNotFound);
            },
        }
        self._nft_mint_series(ctx, token_series_id, receiver_id)
    }

    /// Whether the caller may buy the next item of a series, and why not: the series is
    /// there and has a price, the deposit is at least the price, and the mint is admitted.
    pub open spec fn buy_check(self, ctx: CallContext, id: Seq<char>) -> Result<(), MarketError> {
        if self.series_at(id).is_none() {
            Err(MarketError::SeriesNotFound)
        } else if self.series(id).unwrap().price.is_none() {
            Err(MarketError::NotForSale)
        } else if ctx.attached_deposit < self.series(id).unwrap().price.unwrap() {
            Err(MarketError::DepositBelowPrice)
        } else {
            self.series(id).unwrap().admission(ctx.now())
        }
    }

    /// Sells the next item of a series to the caller at the price of the series. The fee
    /// recorded for the series goes to the treasury; the rest of the price goes to the
    /// creator, or is split by the royalty table where royalties are paid on a first
    /// sale. The amounts are taken from the price, whatever the deposit is. The transfers
    /// are for the host to make once the call has gone through.
    pub fn nft_buy(&mut self, ctx: &CallContext, token_series_id: &String) -> (bought: Result<Purchase, MarketError>)
        requires
            old(self).wf(),
        ensures
            final(self).wf(),
            match bought {
                Ok(purchase) => {
                    let series = old(self).series(token_series_id@).unwrap();
                    &&& old(self).buy_check(*ctx, token_series_id@).is_ok()
                    &&& final(self).minted_from(
                        *old(self),
                        *ctx,
                        token_series_id@,
                        ctx.predecessor_account_id,
                        purchase.minted,
                    )
                    &&& purchase.price == series.price.unwrap()
                    &&& transfers_view(purchase.transfers@) == sale_transfers(
                        old(self).treasury_id@,
                        series.creator_id@,
                        series.royalty@,
                        old(self).royalty_paid_on_buy,
                        series.price.unwrap() as nat,
                        old(self).series_fee(token_series_id@) as nat,
                    )
                    &&& series.royalty@.len() == 0 || !old(self).royalty_paid_on_buy ==> transfers_view(
                        purchase.transfers@,
                    ) == direct_transfers(
                        old(self).treasury_id@,
                        series.creator_id@,
                        series.price.unwrap() as nat,
                        old(self).series_fee(token_series_id@) as nat,
                    )
                },
                Err(e) => old(self).buy_check(*ctx, token_series_id@) == Err::<(), MarketError>(e) && *final(self)
                    == *old(self),
            },
    {
        let at = match self.token_series_by_id.find(token_series_id) {
            Some(at) => at,
            None => {
                return Err(MarketError::SeriesNotFound);
            },
        };
        proof {
            assert(old(self).series_wf_at(at as int));
            old(self).token_series_by_id.lemma_value_at(at as int);
        }
        let price: u128 = match self.token_series_by_id.entries[at].value.price {
            Some(price) => price,
            None => {
                return Err(MarketError::NotForSale);
            },
        };
        if ctx.attached_deposit < price {
            return Err(MarketError::DepositBelowPrice);
        }
        match self.token_series_by_id.entries[at].value.check_admission(to_sec(ctx.block_timestamp)) {
            Err(e) => {
                return Err(e);
            },
            Ok(()) => {},
        }
        let fee: u128 = self.calculate_market_data_transaction_fee(ctx, token_series_id);
        proof {
            old(self).lemma_recorded_fee_bound(token_series_id@);
            assert(price * fee <= MAX_PRICE * FEE_DENOMINATOR) by (nonlinear_arith)
                requires
                    price < MAX_PRICE,
                    fee < FEE_DENOMINATOR,
            ;
            lemma_fee_within_price(price as nat, fee as nat);
        }
        let for_treasury: u128 = price * fee / 10_000u128;
        let price_deducted: u128 = price - for_treasury;

        let minted = self.mint_at(ctx, at, ctx.predecessor_account_id.clone());

        let mut transfers: Vec<Transfer> = Vec::new();
        if for_treasury != 0 {
            transfers.push(Transfer { receiver_id: self.treasury_id.clone(), amount: for_treasury });
        }
        let ghost to_treasury = transfers_view(transfers@);
        proof {
            if for_treasury != 0 {
                assert(to_treasury =~= seq![(self.treasury_id@, for_treasury as nat)]);
            } else {
                assert(to_treasury =~= Seq::<(Seq<char>, nat)>::empty());
            }
            self.token_series_by_id.lemma_value_at(at as int);
        }
        let token_series = &self.token_series_by_id.entries[at].value;
        if self.royalty_paid_on_buy && token_series.royalty.len() > 0 {
            let payout = split_payout(&token_series.royalty, &token_series.creator_id, price_deducted);
            push_payout(&mut transfers, &payout);
        } else {
            transfers.push(Transfer { receiver_id: token_series.creator_id.clone(), amount: price_deducted });
            proof {
                assert(transfers_view(transfers@) =~= to_treasury + seq![
                    (token_series.creator_id@, price_deducted as nat),
                ]);
                lemma_sale_without_royalty(
                    self.treasury_id@,
                    token_series.creator_id@,
                    token_series.royalty@,
                    self.royalty_paid_on_buy,
                    price as nat,
                    fee as nat,
                );
            }
        }
        Ok(Purchase { minted, price, transfers })
    }

    /// Every fee that a sale can pay is below 100%.
    pub proof fn lemma_recorded_fee_bound(self, id: Seq<char>)
        requires
            self.wf(),
        ensures
            self.recorded_fee(id).is_some() ==> self.recorded_fee(id).unwrap() < FEE_DENOMINATOR,
            self.series_fee(id) < FEE_DENOMINATOR,
    {
    }

    /// Whether an item can be shown, and why not: its series is there, metadata was
    /// stored with it, and its identifier has an index behind the series identifier.
    pub open spec fn token_check(self, stored: Token) -> Result<(), MarketError> {
        if self.series_at(series_part(stored.token_id@)).is_none() {
            Err(MarketError::SeriesNotFound)
        } else if stored.metadata.is_none() {
            Err(MarketError::TokenMetadataMissing)
        } else if index_part(stored.token_id@).is_none() {
            Err(MarketError::MalformedTokenId)
        } else {
            Ok(())
        }
    }

    /// Says what a caller is told of an item, given the item as the ledger holds it, if
    /// it holds it: the title of its series with the item's index behind it; reference,
    /// media, copies and extra data as the series has them now; everything else as it was
    /// stored. An item that the ledger does not hold is not shown.
    pub fn nft_token(&self, stored: Option<Token>) -> (shown: Result<Option<Token>, MarketError>)
        requires
            self.wf(),
        ensures
            match stored {
                None => shown == Ok::<Option<Token>, MarketError>(None),
                Some(held) => match shown {
                    Ok(answer) => {
                        &&& self.token_check(held).is_ok()
                        &&& answer.is_some()
                        &&& answer.unwrap().token_id == held.token_id
                        &&& answer.unwrap().owner_id == held.owner_id
                        &&& shown_as(
                            answer.unwrap().metadata,
                            self.series(series_part(held.token_id@)).unwrap().metadata,
                            held.metadata.unwrap(),
                            index_part(held.token_id@).unwrap(),
                        )
                        &&& answer.unwrap().approved_account_ids.is_some()
                        &&& match held.approved_account_ids {
                            Some(approved) => answer.unwrap().approved_account_ids == Some(approved),
                            None => answer.unwrap().approved_account_ids.unwrap().entries@.len() == 0,
                        }
                    },
                    Err(e) => self.token_check(held) == Err::<(), MarketError>(e),
                },
            },
    {
        let held = match stored {
            Some(held) => held,
            None => {
                return Ok(None);
            },
        };
        let (token_series_id, index) = split_token_id(&held.token_id);
        let at = match self.token_series_by_id.find(&token_series_id) {
            Some(at) => at,
            None => {
                return Err(MarketError::SeriesNotFound);
            },
        };
        proof {
            assert(self.series_wf_at(at as int));
            self.token_series_by_id.lemma_value_at(at as int);
        }
        let series_metadata = &self.token_series_by_id.entries[at].value.metadata;
        let token_metadata = match held.metadata {
            Some(token_metadata) => token_metadata,
            None => {
                return Err(MarketError::TokenMetadataMissing);
            },
        };
        let index = match index {
            Some(index) => index,
            None => {
                return Err(MarketError::MalformedTokenId);
            },
        };
        let approved_account_ids = match held.approved_account_ids {
            Some(approved) => Some(approved),
            None => Some(TextMap::new()),
        };
        Ok(
            Some(
                Token {
                    token_id: held.token_id,
                    owner_id: held.owner_id,
                    metadata: Some(show_metadata(series_metadata, token_metadata, &index)),
                    approved_account_ids,
                },
            ),
        )
    }
}

} // verus!
