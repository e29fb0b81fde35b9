use crate::error::MarketError;
use crate::fee::{spec_to_sec, to_sec, TimestampSec, TransactionFee, FEE_DENOMINATOR};
use crate::metadata::{NFTContractMetadata, NFT_METADATA_SPEC};
use crate::series::TokenSeries;
use crate::table::TextMap;
use crate::text::decimal_text;
use crate::whitelist::AccountSet;
use vstd::prelude::*;

verus! {

/// The fee that a new marketplace takes where none is named, in basis points.
pub const DEFAULT_FEE: u16 = 500;

/// The deposit that an administrative call must carry.
pub const ONE_YOCTO: u128 = 1;

/// What the host says of one call: who makes it, what deposit comes with it, and the
/// time in nanoseconds.
#[derive(Debug, PartialEq, Eq)]
pub struct CallContext {
    pub predecessor_account_id: String,
    pub attached_deposit: u128,
    pub block_timestamp: u64,
}

impl CallContext {
    /// The time of the call in whole seconds.
    pub open spec fn now(self) -> TimestampSec {
        spec_to_sec(self.block_timestamp)
    }
}

/// The fee recorded for each series when it was created or last priced. A later change of
/// the marketplace fee does not reach a series that is recorded here.
#[derive(Debug, PartialEq, Eq)]
pub struct MarketDataTransactionFee {
    pub transaction_fee: TextMap<u128>,
}

/// The state of the marketplace.
#[derive(Debug, PartialEq, Eq)]
pub struct Contract {
    pub owner_id: String,
    pub metadata: NFTContractMetadata,
    pub token_series_by_id: TextMap<TokenSeries>,
    pub treasury_id: String,
    pub transaction_fee: TransactionFee,
    pub market_data_transaction_fee: MarketDataTransactionFee,
    pub whitelisted_creators: AccountSet,
    pub royalty_paid_on_buy: bool,
}

impl Contract {
    /// The fee recorded for the series `id`, if one is.
    pub open spec fn recorded_fee(self, id: Seq<char>) -> Option<u128> {
        self.market_data_transaction_fee.transaction_fee.value_of(id)
    }

    /// The fee that a sale from the series `id` pays: the fee recorded for it, and the
    /// marketplace fee in force where none is recorded.
    pub open spec fn series_fee(self, id: Seq<char>) -> u128 {
        match self.recorded_fee(id) {
            Some(fee) => fee,
            None => self.transaction_fee.current_fee as u128,
        }
    }

    /// What holds of the series at `at`: its identifier is the numeral of its place,
    /// counted from 1, the series is well formed, and a fee is recorded for it.
    pub open spec fn series_wf_at(self, at: int) -> bool {
        let entry = self.token_series_by_id.entries@[at];
        &&& entry.key@ == decimal_text((at + 1) as nat)
        &&& entry.value.wf(entry.key@)
        &&& self.recorded_fee(entry.key@).is_some()
    }

    /// What holds of the marketplace between calls: the fee state is well formed, no fee
    /// recorded for a series is 100% or more, no series is recorded twice, every series is
    /// well formed under the numeral of its place, and no creator is whitelisted twice.
    pub open spec fn wf(self) -> bool {
        &&& self.transaction_fee.wf()
        &&& self.market_data_transaction_fee.transaction_fee.wf()
        &&& forall|i: int|
            0 <= i < self.market_data_transaction_fee.transaction_fee.entries@.len() ==> (
            #[trigger] self.market_data_transaction_fee.transaction_fee.entries@[i]).value
                < FEE_DENOMINATOR
        &&& self.token_series_by_id.wf()
        &&& forall|i: int| 0 <= i < self.token_series_by_id.entries@.len() ==> #[trigger] self.series_wf_at(i)
        &&& self.whitelisted_creators.wf()
    }

    /// Series that were well formed are so still where the registry is as it was and no
    /// recorded fee was taken away.
    pub proof fn lemma_series_kept(self, before: Contract)
        requires
            before.wf(),
            self.token_series_by_id == before.token_series_by_id,
            forall|id: Seq<char>| before.recorded_fee(id).is_some() ==> self.recorded_fee(id).is_some(),
        ensures
            forall|i: int| 0 <= i < self.token_series_by_id.entries@.len() ==> #[trigger] self.series_wf_at(i),
    {
        assert forall|i: int| 0 <= i < self.token_series_by_id.entries@.len() implies #[trigger] self.series_wf_at(
            i,
        ) by {
            assert(before.series_wf_at(i));
        }
    }

    /// Whether an administrative call is accepted, and why not: it carries a deposit of
    /// exactly one unit, and the owner makes it.
    pub open spec fn admin_check(self, ctx: CallContext) -> Result<(), MarketError> {
        if ctx.attached_deposit != ONE_YOCTO {
            Err(MarketError::RequiresOneYocto)
        } else if ctx.predecessor_account_id@ != self.owner_id@ {
            Err(MarketError::OwnerOnly)
        } else {
            Ok(())
        }
    }

    fn check_admin(&self, ctx: &CallContext) -> (checked: Result<(), MarketError>)
        ensures
            checked == self.admin_check(*ctx),
    {
        if ctx.attached_deposit != ONE_YOCTO {
            return Err(MarketError::RequiresOneYocto);
        }
        if ctx.predecessor_account_id != self.owner_id {
            return Err(MarketError::OwnerOnly);
        }
        Ok(())
    }

    /// Opens a marketplace with the collection metadata that it usually has and a fee
    /// of 500 basis points.
    pub fn new_default_meta(owner_id: String, treasury_id: String, royalty_paid_on_buy: bool) -> (contract:
        Contract)
        ensures
            contract.wf(),
            contract.owner_id == owner_id,
            contract.treasury_id == treasury_id,
            contract.royalty_paid_on_buy == royalty_paid_on_buy,
            contract.transaction_fee == (TransactionFee {
                next_fee: None,
                start_time: None,
                current_fee: DEFAULT_FEE,
            }),
            contract.token_series_by_id.entries@.len() == 0,
            contract.market_data_transaction_fee.transaction_fee.entries@.len() == 0,
            contract.whitelisted_creators.accounts@.len() == 0,
            contract.metadata.spec@ == NFT_METADATA_SPEC@,
            contract.metadata.name@ == "The Round Collectibles"@,
            contract.metadata.symbol@ == "TRND"@,
            contract.metadata.icon.is_some() && contract.metadata.icon.unwrap()@ == ""@,
            contract.metadata.base_uri.is_none(),
            contract.metadata.reference.is_none(),
            contract.metadata.reference_hash.is_none(),
    {
        let metadata = NFTContractMetadata {
            spec: String::from_str(NFT_METADATA_SPEC),
            name: String::from_str("The Round Collectibles"),
            symbol: String::from_str("TRND"),
            icon: Some(String::from_str("")),
            base_uri: None,
            reference: None,
            reference_hash: None,
        };
        let opened = Contract::new(owner_id, treasury_id, metadata, DEFAULT_FEE, royalty_paid_on_buy);
        opened.unwrap()
    }

    /// Whether a marketplace can be opened, and why not: the collection metadata is valid,
    /// and the fee is below 100%.
    pub open spec fn new_check(metadata: NFTContractMetadata, current_fee: u16) -> Result<(), MarketError> {
        if metadata.validity().is_err() {
            metadata.validity()
        } else if current_fee >= FEE_DENOMINATOR {
            Err(MarketError::FeeTooHigh)
        } else {
            Ok(())
        }
    }

    /// Opens a marketplace without series, recorded fees or whitelisted creators.
    /// Collection metadata that is not valid is refused, and so is a fee of 100% or more.
    pub fn new(
        owner_id: String,
        treasury_id: String,
        metadata: NFTContractMetadata,
        current_fee: u16,
        royalty_paid_on_buy: bool,
    ) -> (opened: Result<Contract, MarketError>)
        ensures
            match opened {
                Ok(contract) => {
                    &&& Self::new_check(metadata, current_fee).is_ok()
                    &&& contract.wf()
                    &&& contract.owner_id == owner_id
                    &&& contract.treasury_id == treasury_id
                    &&& contract.metadata == metadata
                    &&& contract.royalty_paid_on_buy == royalty_paid_on_buy
                    &&& contract.transaction_fee == (TransactionFee {
                        next_fee: None,
                        start_time: None,
                        current_fee,
                    })
                    &&& contract.token_series_by_id.entries@.len() == 0
                    &&& contract.market_data_transaction_fee.transaction_fee.entries@.len() == 0
                    &&& contract.whitelisted_creators.accounts@.len() == 0
                },
                Err(e) => Self::new_check(metadata, current_fee) == Err::<(), MarketError>(e),
            },
    {
        match metadata.check_valid() {
            Err(e) => {
                return Err(e);
            },
            Ok(()) => {},
        }
        let transaction_fee = match TransactionFee::new(current_fee) {
            Ok(fee) => fee,
            Err(e) => {
                return Err(e);
            },
        };
        Ok(
            Contract {
                owner_id,
                metadata,
                token_series_by_id: TextMap::new(),
                treasury_id,
                transaction_fee,
                market_data_transaction_fee: MarketDataTransactionFee { transaction_fee: TextMap::new() },
                whitelisted_creators: AccountSet::new(),
                royalty_paid_on_buy,
            },
        )
    }

    /// Changes the marketplace fee, at once or from `start_time` on. Only the owner may,
    /// with a deposit of one unit. The fee recorded for a series stays as it is.
    pub fn set_transaction_fee(&mut self, ctx: &CallContext, next_fee: u16, start_time: Option<TimestampSec>) -> (done:
        Result<(), MarketError>)
        requires
            old(self).wf(),
        ensures
            final(self).wf(),
            done == old(self).set_transaction_fee_check(*ctx, next_fee, start_time),
            done.is_err() ==> *final(self) == *old(self),
            done.is_ok() ==> *final(self) == (Contract {
                transaction_fee: old(self).transaction_fee.staged(next_fee, start_time),
                ..*old(self)
            }),
            forall|id: Seq<char>|
                old(self).recorded_fee(id).is_some() ==> #[trigger] final(self).series_fee(id) == old(
                    self,
                ).series_fee(id),
    {
        match self.check_admin(ctx) {
            Err(e) => {
                return Err(e);
            },
            Ok(()) => {},
        }
        let done = self.transaction_fee.stage(next_fee, start_time, to_sec(ctx.block_timestamp));
        proof {
            self.lemma_series_kept(*old(self));
        }
        done
    }

    /// Whether a change of the marketplace fee is accepted, and why not.
    pub open spec fn set_transaction_fee_check(
        self,
        ctx: CallContext,
        next_fee: u16,
        start_time: Option<TimestampSec>,
    ) -> Result<(), MarketError> {
        if self.admin_check(ctx).is_err() {
            self.admin_check(ctx)
        } else {
            TransactionFee::stage_check(next_fee, start_time, ctx.now())
        }
    }

    /// Gives the fee that a sale from the series pays. Where none is recorded for it, a
    /// marketplace fee that is due is put in force first.
    pub fn calculate_market_data_transaction_fee(&mut self, ctx: &CallContext, token_series_id: &String) -> (fee:
        u128)
        requires
            old(self).wf(),
        ensures
            final(self).wf(),
            match old(self).recorded_fee(token_series_id@) {
                Some(recorded) => fee == recorded && *final(self) == *old(self),
                None => fee == old(self).transaction_fee.resolved(ctx.now()).current_fee && *final(self) == (
                Contract { transaction_fee: old(self).transaction_fee.resolved(ctx.now()), ..*old(self) }),
            },
    {
        match self.market_data_transaction_fee.transaction_fee.get(token_series_id) {
            Some(fee) => {
                return *fee;
            },
            None => {},
        }
        self.calculate_current_transaction_fee(ctx)
    }

    /// Puts a marketplace fee that is due in force, and gives the fee then in force.
    pub fn calculate_current_transaction_fee(&mut self, ctx: &CallContext) -> (fee: u128)
        requires
            old(self).wf(),
        ensures
            final(self).wf(),
            fee == old(self).transaction_fee.resolved(ctx.now()).current_fee,
            fee < FEE_DENOMINATOR,
            *final(self) == (Contract {
                transaction_fee: old(self).transaction_fee.resolved(ctx.now()),
                ..*old(self)
            }),
            forall|id: Seq<char>|
                old(self).recorded_fee(id).is_some() ==> #[trigger] final(self).series_fee(id) == old(
                    self,
                ).series_fee(id),
    {
        let fee = self.transaction_fee.resolve(to_sec(ctx.block_timestamp));
        proof {
            self.lemma_series_kept(*old(self));
        }
        fee
    }

    /// The marketplace fee as it stands, with what waits.
    pub fn get_transaction_fee(&self) -> (fee: &TransactionFee)
        ensures
            *fee == self.transaction_fee,
    {
        &self.transaction_fee
    }

    /// The fee that a sale from the series pays as things stand: nothing that is due is
    /// put in force.
    pub fn get_market_data_transaction_fee(&self, token_series_id: &String) -> (fee: u128)
        requires
            self.wf(),
        ensures
            fee == self.series_fee(token_series_id@),
    {
        match self.market_data_transaction_fee.transaction_fee.get(token_series_id) {
            Some(fee) => *fee,
            None => self.transaction_fee.current_fee as u128,
        }
    }

    /// Records a fee for a series in place of the one recorded for it. Only the owner
    /// may, with a deposit of one unit, and the fee is below 100%.
    pub fn set_market_data_transaction_fee(&mut self, ctx: &CallContext, token_series_id: &String, fee: u128) -> (done:
        Result<(), MarketError>)
        requires
            old(self).wf(),
        ensures
            final(self).wf(),
            done == old(self).set_series_fee_check(*ctx, fee),
            done.is_err() ==> *final(self) == *old(self),
            done.is_ok() ==> {
                &&& final(self).recorded_fee(token_series_id@) == Some(fee)
                &&& forall|other: Seq<char>|
                    other != token_series_id@ ==> final(self).recorded_fee(other) == old(self).recorded_fee(
                        other,
                    )
                &&& *final(self) == (Contract {
                    market_data_transaction_fee: final(self).market_data_transaction_fee,
                    ..*old(self)
                })
            },
    {
        match self.check_admin(ctx) {
            Err(e) => {
                return Err(e);
            },
            Ok(()) => {},
        }
        if fee >= FEE_DENOMINATOR as u128 {
            return Err(MarketError::FeeTooHigh);
        }
        self.record_fee(token_series_id, fee);
        Ok(())
    }

    /// Whether a fee is recorded for a series on the owner's word, and why not.
    pub open spec fn set_series_fee_check(self, ctx: CallContext, fee: u128) -> Result<(), MarketError> {
        if self.admin_check(ctx).is_err() {
            self.admin_check(ctx)
        } else if fee >= FEE_DENOMINATOR {
            Err(MarketError::FeeTooHigh)
        } else {
            Ok(())
        }
    }

    pub(crate) fn record_fee(&mut self, token_series_id: &String, fee: u128)
        requires
            old(self).wf(),
            fee < FEE_DENOMINATOR,
        ensures
            final(self).wf(),
            final(self).recorded_fee(token_series_id@) == Some(fee),
            forall|other: Seq<char>|
                other != token_series_id@ ==> final(self).recorded_fee(other) == old(self).recorded_fee(other),
            *final(self) == (Contract {
                market_data_transaction_fee: final(self).market_data_transaction_fee,
                ..*old(self)
            }),
    {
        let ghost before = self.market_data_transaction_fee.transaction_fee;
        self.market_data_transaction_fee.transaction_fee.insert(token_series_id.clone(), fee);
        proof {
            let after = self.market_data_transaction_fee.transaction_fee;
            assert forall|i: int| 0 <= i < after.entries@.len() implies (#[trigger] after.entries@[i]).value
                < FEE_DENOMINATOR by {
                match crate::keys::position(before.keys(), token_series_id@) {
                    Some(at) => {
                        if i != at {
                            assert(after.entries@[i] == before.entries@[i]);
                        } else {
                            after.lemma_value_at(at);
                        }
                    },
                    None => {
                        if i < before.entries@.len() {
                            assert(after.entries@[i] == before.entries@[i]);
                        }
                    },
                }
            }
            self.lemma_series_kept(*old(self));
        }
    }

    /// Lets an account create series. Only the owner may, with a deposit of one unit.
    pub fn add_whitelisted_creator(&mut self, ctx: &CallContext, creator: String) -> (done: Result<
        (),
        MarketError,
    >)
        requires
            old(self).wf(),
        ensures
            final(self).wf(),
            done == old(self).admin_check(*ctx),
            done.is_err() ==> *final(self) == *old(self),
            done.is_ok() ==> {
                &&& final(self).whitelisted_creators.has(creator@)
                &&& forall|other: Seq<char>|
                    other != creator@ ==> final(self).whitelisted_creators.has(other) == old(
                        self,
                    ).whitelisted_creators.has(other)
                &&& final(self).whitelisted_creators.accounts@ == if old(self).whitelisted_creators.has(creator@) {
                    old(self).whitelisted_creators.accounts@
                } else {
                    old(self).whitelisted_creators.accounts@.push(creator)
                }
                &&& *final(self) == (Contract {
                    whitelisted_creators: final(self).whitelisted_creators,
                    ..*old(self)
                })
            },
    {
        match self.check_admin(ctx) {
            Err(e) => {
                return Err(e);
            },
            Ok(()) => {},
        }
        let _ = self.whitelisted_creators.insert(creator);
        proof {
            self.lemma_series_kept(*old(self));
        }
        Ok(())
    }

    /// Stops an account from creating series. Only the owner may, with a deposit of one
    /// unit.
    pub fn remove_whitelisted_creator(&mut self, ctx: &CallContext, creator: String) -> (done: Result<
        (),
        MarketError,
    >)
        requires
            old(self).wf(),
        ensures
            final(self).wf(),
            done == old(self).admin_check(*ctx),
            done.is_err() ==> *final(self) == *old(self),
            done.is_ok() ==> {
                &&& !final(self).whitelisted_creators.has(creator@)
                &&& forall|other: Seq<char>|
                    other != creator@ ==> final(self).whitelisted_creators.has(other) == old(
                        self,
                    ).whitelisted_creators.has(other)
                &&& final(self).whitelisted_creators.accounts@ == if old(self).whitelisted_creators.has(creator@) {
                    old(self).whitelisted_creators.accounts@.update(
                        old(self).whitelisted_creators.names().index_of(creator@),
                        old(self).whitelisted_creators.accounts@.last(),
                    ).drop_last()
                } else {
                    old(self).whitelisted_creators.accounts@
                }
                &&& *final(self) == (Contract {
                    whitelisted_creators: final(self).whitelisted_creators,
                    ..*old(self)
                })
            },
    {
        match self.check_admin(ctx) {
            Err(e) => {
                return Err(e);
            },
            Ok(()) => {},
        }
        let _ = self.whitelisted_creators.remove(&creator);
        proof {
            self.lemma_series_kept(*old(self));
        }
        Ok(())
    }

    /// The accounts that may create series.
    pub fn get_whitelist(&self) -> (list: Vec<String>)
        ensures
            list@ == self.whitelisted_creators.accounts@,
    {
        self.whitelisted_creators.to_vec()
    }

    /// Whether the royalty table of a series is paid out when an item is bought from it.
    pub fn get_royalty_paid_on_buy(&self) -> (paid: bool)
        ensures
            paid == self.royalty_paid_on_buy,
    {
        self.royalty_paid_on_buy
    }

    /// Says whether royalties are paid out on a first sale. Only the owner may, with a
    /// deposit of one unit.
    pub fn set_royalty_paid_on_buy(&mut self, ctx: &CallContext, royalty_paid_on_buy: bool) -> (done: Result<
        (),
        MarketError,
    >)
        requires
            old(self).wf(),
        ensures
            final(self).wf(),
            done == old(self).admin_check(*ctx),
            done.is_err() ==> *final(self) == *old(self),
            done.is_ok() ==> *final(self) == (Contract { royalty_paid_on_buy, ..*old(self) }),
    {
        match self.check_admin(ctx) {
            Err(e) => {
                return Err(e);
            },
            Ok(()) => {},
        }
        self.royalty_paid_on_buy = royalty_paid_on_buy;
        proof {
            self.lemma_series_kept(*old(self));
        }
        Ok(())
    }

    /// Names the account that receives the marketplace fee. Only the owner may, with a
    /// deposit of one unit.
    pub fn set_treasury(&mut self, ctx: &CallContext, treasury_id: String) -> (done: Result<(), MarketError>)
        requires
            old(self).wf(),
        ensures
            final(self).wf(),
            done == old(self).admin_check(*ctx),
            done.is_err() ==> *final(self) == *old(self),
            done.is_ok() ==> *final(self) == (Contract { treasury_id, ..*old(self) }),
    {
        match self.check_admin(ctx) {
            Err(e) => {
                return Err(e);
            },
            Ok(()) => {},
        }
        self.treasury_id = treasury_id;
        proof {
            self.lemma_series_kept(*old(self));
        }
        Ok(())
    }

    /// The time of a call in whole seconds.
    pub fn get_current_time_seconds(&self, ctx: &CallContext) -> (now: TimestampSec)
        ensures
            now == ctx.now(),
    {
        to_sec(ctx.block_timestamp)
    }

    /// What the collection says of itself.
    pub fn nft_metadata(&self) -> (metadata: &NFTContractMetadata)
        ensures
            *metadata == self.metadata,
    {
        &self.metadata
    }
}

/// What a sale from a series pays to the marketplace is the fee recorded for the series:
/// whatever becomes of the marketplace fee, it stays the same until a fee is recorded for
/// the series anew.
pub proof fn lemma_recorded_fee_is_locked(before: Contract, after: Contract, id: Seq<char>)
    requires
        before.recorded_fee(id).is_some(),
        after.market_data_transaction_fee == before.market_data_transaction_fee,
    ensures
        after.series_fee(id) == before.series_fee(id),
        after.series_fee(id) == before.recorded_fee(id).unwrap(),
{
}

} // verus!
