use crate::contract::{CallContext, Contract, ONE_YOCTO};
use crate::error::MarketError;
use crate::payout::{check_payout_length, payout_length_check, payout_of, split_payout, Payout};
use crate::text::{series_part, split_token_id};
use vstd::prelude::*;

verus! {

/// An item that is to change hands: for the ledger to carry out.
#[derive(Debug, PartialEq, Eq)]
pub struct TokenTransfer {
    pub receiver_id: String,
    pub token_id: String,
    pub approval_id: Option<u64>,
    pub memo: Option<String>,
}

/// What a marketplace answers when another market asks how the price of a resale is
/// to be split.
pub trait Payouts {
    /// What must hold of the marketplace that is asked.
    spec fn payouts_ready(&self) -> bool;

    /// How `balance` is split for the item `token_id` that `owner` holds, or why it is
    /// not split.
    spec fn payout_answer(
        &self,
        token_id: Seq<char>,
        owner: Seq<char>,
        balance: u128,
        max_len_payout: Option<u32>,
    ) -> Result<Seq<(Seq<char>, nat)>, MarketError>;

    /// Says how `balance` is split for an item, given the account that holds it.
    fn nft_payout(&self, token_id: &String, owner_id: &String, balance: u128, max_len_payout: Option<u32>) -> (paid:
        Result<Payout, MarketError>)
        requires
            self.payouts_ready(),
        ensures
            match paid {
                Ok(payout) => self.payout_answer(token_id@, owner_id@, balance, max_len_payout) == Ok::<
                    Seq<(Seq<char>, nat)>,
                    MarketError,
                >(payout@),
                Err(e) => self.payout_answer(token_id@, owner_id@, balance, max_len_payout) == Err::<
                    Seq<(Seq<char>, nat)>,
                    MarketError,
                >(e),
            },
    ;

    /// Says how `balance` is split for an item that is about to change hands, and hands
    /// the transfer on to the ledger as it was asked for. The call carries a deposit of
    /// exactly one unit.
    fn nft_transfer_payout(
        &self,
        ctx: &CallContext,
        receiver_id: String,
        token_id: String,
        approval_id: Option<u64>,
        memo: Option<String>,
        balance: u128,
        max_len_payout: Option<u32>,
        owner_id: &String,
    ) -> (paid: Result<(Payout, TokenTransfer), MarketError>)
        requires
            self.payouts_ready(),
        ensures
            match paid {
                Ok((payout, transfer)) => {
                    &&& ctx.attached_deposit == ONE_YOCTO
                    &&& self.payout_answer(token_id@, owner_id@, balance, max_len_payout) == Ok::<
                        Seq<(Seq<char>, nat)>,
                        MarketError,
                    >(payout@)
                    &&& transfer == (TokenTransfer { receiver_id, token_id, approval_id, memo })
                },
                Err(e) => if ctx.attached_deposit != ONE_YOCTO {
                    e == MarketError::RequiresOneYocto
                } else {
                    self.payout_answer(token_id@, owner_id@, balance, max_len_payout) == Err::<
                        Seq<(Seq<char>, nat)>,
                        MarketError,
                    >(e)
                },
            },
    ;
}

impl Payouts for Contract {
    open spec fn payouts_ready(&self) -> bool {
        self.wf()
    }

    /// The series of the item is the one named before the first delimiter of its
    /// identifier. Its royalty table must not name more accounts than the caller accepts.
    /// Each account of the table but the owner gets its share of the balance, and the
    /// owner gets the share of the basis points that are left.
    open spec fn payout_answer(
        &self,
        token_id: Seq<char>,
        owner: Seq<char>,
        balance: u128,
        max_len_payout: Option<u32>,
    ) -> Result<Seq<(Seq<char>, nat)>, MarketError> {
        match self.series(series_part(token_id)) {
            None => Err(MarketError::SeriesNotFound),
            Some(series) => match payout_length_check(series.royalty@.len(), max_len_payout) {
                Err(e) => Err(e),
                Ok(()) => Ok(payout_of(series.royalty@, owner, balance as nat)),
            },
        }
    }

    fn nft_payout(&self, token_id: &String, owner_id: &String, balance: u128, max_len_payout: Option<u32>) -> (paid:
        Result<Payout, MarketError>)
    {
        let (token_series_id, _) = split_token_id(token_id);
        let at = match self.token_series_by_id.find(&token_series_id) {
            Some(at) => at,
            None => {
                return Err(MarketError::SeriesNotFound);
            },
        };
        proof {
            assert(self.series_wf_at(at as int));
            self.token_series_by_id.lemma_value_at(at as int);
        }
        let royalty = &self.token_series_by_id.entries[at].value.royalty;
        match check_payout_length(royalty, max_len_payout) {
            Err(e) => {
                return Err(e);
            },
            Ok(()) => {},
        }
        Ok(split_payout(royalty, owner_id, balance))
    }

    fn nft_transfer_payout(
        &self,
        ctx: &CallContext,
        receiver_id: String,
        token_id: String,
        approval_id: Option<u64>,
        memo: Option<String>,
        balance: u128,
        max_len_payout: Option<u32>,
        owner_id: &String,
    ) -> (paid: Result<(Payout, TokenTransfer), MarketError>)
    {
        if ctx.attached_deposit != ONE_YOCTO {
            return Err(MarketError::RequiresOneYocto);
        }
        match self.nft_payout(&token_id, owner_id, balance, max_len_payout) {
            Ok(payout) => Ok((payout, TokenTransfer { receiver_id, token_id, approval_id, memo })),
            Err(e) => Err(e),
        }
    }
}

} // verus!
