use crate::error::MarketError;
use vstd::prelude::*;

verus! {

/// A point in time, in whole seconds.
pub type TimestampSec = u32;

/// A fee of 10000 basis points would be the whole price.
pub const FEE_DENOMINATOR: u16 = 10_000;

/// The whole seconds in a time given in nanoseconds, as far as they fit in 32 bits.
pub open spec fn spec_to_sec(timestamp: u64) -> TimestampSec {
    ((timestamp / 1_000_000_000) % 0x1_0000_0000) as u32
}

/// Turns a time in nanoseconds into whole seconds, keeping the low 32 bits.
pub fn to_sec(timestamp: u64) -> (sec: TimestampSec)
    ensures
        sec == spec_to_sec(timestamp),
{
    ((timestamp / 1_000_000_000) % 0x1_0000_0000) as u32
}

/// The marketplace fee in basis points: the rate in force, and a rate that waits for its
/// activation time.
#[derive(Clone, Copy, Debug, PartialEq, Eq)]
pub struct TransactionFee {
    pub next_fee: Option<u16>,
    pub start_time: Option<TimestampSec>,
    pub current_fee: u16,
}

impl TransactionFee {
    /// A rate waits exactly where an activation time is set, and no rate, in force or
    /// waiting, is 100% or more.
    pub open spec fn wf(self) -> bool {
        &&& self.next_fee.is_some() == self.start_time.is_some()
        &&& self.current_fee < FEE_DENOMINATOR
        &&& self.next_fee.is_some() ==> self.next_fee.unwrap() < FEE_DENOMINATOR
    }

    /// A rate waits and its activation time has come.
    pub open spec fn due(self, now: TimestampSec) -> bool {
        self.next_fee.is_some() && self.start_time.is_some() && now >= self.start_time.unwrap()
    }

    /// The fee state once a call at `now` has looked at it: a rate that is due has taken
    /// the place of the rate in force.
    pub open spec fn resolved(self, now: TimestampSec) -> TransactionFee {
        if self.due(now) {
            TransactionFee { next_fee: None, start_time: None, current_fee: self.next_fee.unwrap() }
        } else {
            self
        }
    }

    /// The fee state once `next_fee` has been accepted: in force at once where no
    /// activation time comes with it, waiting otherwise.
    pub open spec fn staged(self, next_fee: u16, start_time: Option<TimestampSec>) -> TransactionFee {
        match start_time {
            None => TransactionFee { next_fee: None, start_time: None, current_fee: next_fee },
            Some(t) => TransactionFee {
                next_fee: Some(next_fee),
                start_time: Some(t),
                current_fee: self.current_fee,
            },
        }
    }

    /// A fee state with `current_fee` in force and nothing waiting. A rate of 100% or more
    /// is refused.
    pub fn new(current_fee: u16) -> (fee: Result<TransactionFee, MarketError>)
        ensures
            fee == if current_fee < FEE_DENOMINATOR {
                Ok::<TransactionFee, MarketError>(TransactionFee { next_fee: None, start_time: None, current_fee })
            } else {
                Err::<TransactionFee, MarketError>(MarketError::FeeTooHigh)
            },
            fee.is_ok() ==> fee.unwrap().wf(),
    {
        if current_fee >= FEE_DENOMINATOR {
            return Err(MarketError::FeeTooHigh);
        }
        Ok(TransactionFee { next_fee: None, start_time: None, current_fee })
    }

    /// Accepts a new rate, in force at once or from `start_time` on. A rate of 100% or
    /// more is refused, and so is an activation time that is not after `now`.
    pub fn stage(&mut self, next_fee: u16, start_time: Option<TimestampSec>, now: TimestampSec) -> (done:
        Result<(), MarketError>)
        ensures
            done == Self::stage_check(next_fee, start_time, now),
            done.is_ok() ==> *final(self) == old(self).staged(next_fee, start_time),
            old(self).wf() ==> final(self).wf(),
            done.is_err() ==> *final(self) == *old(self),
    {
        if next_fee >= FEE_DENOMINATOR {
            return Err(MarketError::FeeTooHigh);
        }
        match start_time {
            None => {
                self.current_fee = next_fee;
                self.next_fee = None;
                self.start_time = None;
            },
            Some(t) => {
                if t <= now {
                    return Err(MarketError::FeeStartNotInFuture);
                }
                self.next_fee = Some(next_fee);
                self.start_time = Some(t);
            },
        }
        Ok(())
    }

    /// Whether a new rate is accepted at `now`, and why not.
    pub open spec fn stage_check(
        next_fee: u16,
        start_time: Option<TimestampSec>,
        now: TimestampSec,
    ) -> Result<(), MarketError> {
        if next_fee >= FEE_DENOMINATOR {
            Err(MarketError::FeeTooHigh)
        } else if start_time.is_some() && start_time.unwrap() <= now {
            Err(MarketError::FeeStartNotInFuture)
        } else {
            Ok(())
        }
    }

    /// Puts a waiting rate in force where its time has come, and gives the rate then in
    /// force. Nothing else ever puts a waiting rate in force.
    pub fn resolve(&mut self, now: TimestampSec) -> (fee: u128)
        ensures
            *final(self) == old(self).resolved(now),
            fee == old(self).resolved(now).current_fee,
            old(self).wf() ==> final(self).wf(),
    {
        match (self.next_fee, self.start_time) {
            (Some(next_fee), Some(start_time)) => {
                if now >= start_time {
                    self.current_fee = next_fee;
                    self.next_fee = None;
                    self.start_time = None;
                }
            },
            _ => {},
        }
        self.current_fee as u128
    }

    /// The rate in force, whatever waits.
    pub fn current(&self) -> (fee: u16)
        ensures
            fee == self.current_fee,
    {
        self.current_fee
    }
}

/// A rate staged for a later time leaves the rate in force alone. A call before that time
/// leaves the stage as it is; the first call at or after it puts the staged rate in force
/// and clears the stage.
pub proof fn lemma_staged_fee_waits(
    fee: TransactionFee,
    next_fee: u16,
    start_time: TimestampSec,
    now: TimestampSec,
)
    ensures
        fee.staged(next_fee, Some(start_time)).current_fee == fee.current_fee,
        now < start_time ==> fee.staged(next_fee, Some(start_time)).resolved(now) == fee.staged(
            next_fee,
            Some(start_time),
        ),
        now >= start_time ==> fee.staged(next_fee, Some(start_time)).resolved(now) == (
        TransactionFee { next_fee: None, start_time: None, current_fee: next_fee }),
{
}

/// Resolving twice at the same time changes nothing the second time, and time that
/// passes after a resolution does not bring a rate back.
pub proof fn lemma_resolved_is_stable(fee: TransactionFee, now: TimestampSec, later: TimestampSec)
    requires
        now <= later,
    ensures
        fee.resolved(now).resolved(now) == fee.resolved(now),
        fee.due(now) ==> fee.resolved(now).resolved(later) == fee.resolved(now),
{
}

} // verus!
