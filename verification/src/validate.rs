use crate::contract::Contract;
use crate::fee::FEE_DENOMINATOR;
use crate::royalty::is_within_limits;
use crate::series::{TokenSeries, MAX_PRICE, UNCAPPED};
use crate::table::TextMap;
use crate::text::{decimal, lemma_decimal_text_injective, token_id_of};
use crate::whitelist::AccountSet;
use vstd::prelude::*;

verus! {

/// Says whether no text stands twice in a list.
fn all_different(texts: &Vec<String>) -> (different: bool)
    ensures
        different == texts@.map_values(|t: String| t@).no_duplicates(),
{
    let ghost names = texts@.map_values(|t: String| t@);
    let mut at: usize = 0;
    while at < texts.len()
        invariant
            at <= texts@.len(),
            names == texts@.map_values(|t: String| t@),
            forall|i: int, j: int| 0 <= i < at && 0 <= j < at && i != j ==> names[i] != names[j],
        decreases texts@.len() - at,
    {
        let mut before: usize = 0;
        while before < at
            invariant
                before <= at < texts@.len(),
                names == texts@.map_values(|t: String| t@),
                forall|j: int| 0 <= j < before ==> names[j] != names[at as int],
            decreases at - before,
        {
            if texts[before] == texts[at] {
                assert(names[before as int] == names[at as int]);
                return false;
            }
            before = before + 1;
        }
        at = at + 1;
    }
    true
}

impl<V> TextMap<V> {
    /// Says whether no key stands twice.
    pub fn is_wf(&self) -> (valid: bool)
        ensures
            valid == self.wf(),
    {
        let mut at: usize = 0;
        while at < self.entries.len()
            invariant
                at <= self.entries@.len(),
                forall|i: int, j: int| 0 <= i < at && 0 <= j < at && i != j ==> self.keys()[i] != self.keys()[j],
            decreases self.entries@.len() - at,
        {
            let mut before: usize = 0;
            while before < at
                invariant
                    before <= at < self.entries@.len(),
                    forall|j: int| 0 <= j < before ==> self.keys()[j] != self.keys()[at as int],
                decreases at - before,
            {
                if self.entries[before].key == self.entries[at].key {
                    assert(self.keys()[before as int] == self.keys()[at as int]);
                    return false;
                }
                before = before + 1;
            }
            at = at + 1;
        }
        true
    }
}

impl AccountSet {
    /// Says whether no account stands twice.
    pub fn is_wf(&self) -> (valid: bool)
        ensures
            valid == self.wf(),
    {
        all_different(&self.accounts)
    }
}

impl TokenSeries {
    /// Says whether the series is well formed as the series `id`.
    pub fn is_wf(&self, id: &String) -> (valid: bool)
        ensures
            valid == self.wf(id@),
    {
        if self.metadata.title.is_none() || self.metadata.media.is_none() {
            return false;
        }
        match self.price {
            Some(price) => {
                if price >= MAX_PRICE {
                    return false;
                }
            },
            None => {},
        }
        if !self.royalty.is_wf() || !is_within_limits(&self.royalty) {
            return false;
        }
        let cap: u64 = match self.metadata.copies {
            Some(copies) => copies,
            None => UNCAPPED,
        };
        if self.tokens.len() as u64 > cap {
            return false;
        }
        match (self.start_time, self.end_time) {
            (Some(start), Some(end)) => {
                if start >= end {
                    return false;
                }
            },
            _ => {},
        }
        let mut at: usize = 0;
        while at < self.tokens.len()
            invariant
                at <= self.tokens@.len(),
                forall|i: int| 0 <= i < at ==> (#[trigger] self.tokens@[i])@ == crate::text::token_id_text(
                    id@,
                    (i + 1) as nat,
                ),
            decreases self.tokens@.len() - at,
        {
            let expected = token_id_of(id, at as u128 + 1);
            if self.tokens[at] != expected {
                return false;
            }
            at = at + 1;
        }
        true
    }
}

impl Contract {
    /// Says whether the state is well formed: whether it is one that the marketplace
    /// could have left behind.
    pub fn is_wf(&self) -> (valid: bool)
        ensures
            valid == self.wf(),
    {
        if self.transaction_fee.current_fee >= FEE_DENOMINATOR {
            return false;
        }
        match (self.transaction_fee.next_fee, self.transaction_fee.start_time) {
            (Some(next_fee), Some(_)) => {
                if next_fee >= FEE_DENOMINATOR {
                    return false;
                }
            },
            (None, None) => {},
            _ => {
                return false;
            },
        }
        let fees = &self.market_data_transaction_fee.transaction_fee;
        if !fees.is_wf() || !self.whitelisted_creators.is_wf() {
            return false;
        }
        let mut at: usize = 0;
        while at < fees.entries.len()
            invariant
                at <= fees.entries@.len(),
                fees == &self.market_data_transaction_fee.transaction_fee,
                forall|i: int| 0 <= i < at ==> (#[trigger] fees.entries@[i]).value < FEE_DENOMINATOR,
            decreases fees.entries@.len() - at,
        {
            if fees.entries[at].value >= FEE_DENOMINATOR as u128 {
                assert((#[trigger] self.market_data_transaction_fee.transaction_fee.entries@[at as int]).value
                    >= FEE_DENOMINATOR);
                return false;
            }
            at = at + 1;
        }
        let mut at: usize = 0;
        while at < self.token_series_by_id.entries.len()
            invariant
                at <= self.token_series_by_id.entries@.len(),
                fees == &self.market_data_transaction_fee.transaction_fee,
                fees.wf(),
                forall|i: int| 0 <= i < at ==> #[trigger] self.series_wf_at(i),
            decreases self.token_series_by_id.entries@.len() - at,
        {
            let entry = &self.token_series_by_id.entries[at];
            let expected = decimal(at as u128 + 1);
            if entry.key != expected || !entry.value.is_wf(&entry.key) || fees.find(&entry.key).is_none() {
                assert(!self.series_wf_at(at as int));
                return false;
            }
            at = at + 1;
        }
        proof {
            self.lemma_numbered_keys_differ();
        }
        true
    }

    /// Series that are numbered by their place have identifiers that are all different.
    pub proof fn lemma_numbered_keys_differ(self)
        requires
            forall|i: int| 0 <= i < self.token_series_by_id.entries@.len() ==> #[trigger] self.series_wf_at(i),
        ensures
            self.token_series_by_id.wf(),
    {
        let keys = self.token_series_by_id.keys();
        assert forall|i: int, j: int| 0 <= i < keys.len() && 0 <= j < keys.len() && i != j implies keys[i]
            != keys[j] by {
            assert(self.series_wf_at(i));
            assert(self.series_wf_at(j));
            if keys[i] == keys[j] {
                lemma_decimal_text_injective((i + 1) as nat, (j + 1) as nat);
            }
        }
    }
}

} // verus!
