use crate::keys::lemma_push_fresh;
use vstd::prelude::*;

verus! {

/// A set of accounts, kept as a list. No account stands in it twice.
#[derive(Debug, PartialEq, Eq)]
pub struct AccountSet {
    pub accounts: Vec<String>,
}

impl AccountSet {
    /// The accounts, in order.
    pub open spec fn names(self) -> Seq<Seq<char>> {
        self.accounts@.map_values(|a: String| a@)
    }

    /// No account stands twice.
    pub open spec fn wf(self) -> bool {
        self.names().no_duplicates()
    }

    /// The account is in the set.
    pub open spec fn has(self, account: Seq<char>) -> bool {
        self.names().contains(account)
    }

    pub fn new() -> (set: AccountSet)
        ensures
            set.wf(),
            set.accounts@.len() == 0,
            forall|account: Seq<char>| !set.has(account),
    {
        let set = AccountSet { accounts: Vec::new() };
        assert(set.names() =~= Seq::<Seq<char>>::empty());
        set
    }

    fn find(&self, account: &String) -> (found: Option<usize>)
        ensures
            match found {
                Some(at) => at < self.accounts@.len() && self.accounts@[at as int]@ == account@ && self.has(
                    account@,
                ),
                None => !self.has(account@),
            },
    {
        let mut at: usize = 0;
        while at < self.accounts.len()
            invariant
                at <= self.accounts@.len(),
                forall|i: int| 0 <= i < at ==> self.names()[i] != account@,
            decreases self.accounts@.len() - at,
        {
            if self.accounts[at] == *account {
                assert(self.names()[at as int] == account@);
                return Some(at);
            }
            at = at + 1;
        }
        None
    }

    /// Says whether the account is in the set.
    pub fn contains(&self, account: &String) -> (found: bool)
        ensures
            found == self.has(account@),
    {
        self.find(account).is_some()
    }

    /// Puts the account into the set, and says whether it was new to it.
    pub fn insert(&mut self, account: String) -> (added: bool)
        requires
            old(self).wf(),
        ensures
            final(self).wf(),
            added == !old(self).has(account@),
            final(self).has(account@),
            forall|other: Seq<char>| other != account@ ==> final(self).has(other) == old(self).has(other),
            final(self).accounts@ == if added {
                old(self).accounts@.push(account)
            } else {
                old(self).accounts@
            },
    {
        match self.find(&account) {
            Some(_) => false,
            None => {
                self.accounts.push(account);
                proof {
                    let before = old(self).names();
                    assert(self.names() =~= before.push(account@));
                    lemma_push_fresh(before, account@);
                    assert(self.names()[before.len() as int] == account@);
                    assert forall|other: Seq<char>| other != account@ implies self.has(other) == old(
                        self,
                    ).has(other) by {
                        if old(self).has(other) {
                            let i = choose|i: int| 0 <= i < before.len() && before[i] == other;
                            assert(self.names()[i] == other);
                        }
                        if self.has(other) {
                            let i = choose|i: int| 0 <= i < self.names().len() && self.names()[i] == other;
                            assert(before[i] == other);
                        }
                    }
                }
                true
            },
        }
    }

    /// Takes the account out of the set, and says whether it was in it. The last account
    /// of the list takes the place of the one that left.
    pub fn remove(&mut self, account: &String) -> (removed: bool)
        requires
            old(self).wf(),
        ensures
            final(self).wf(),
            removed == old(self).has(account@),
            !final(self).has(account@),
            forall|other: Seq<char>| other != account@ ==> final(self).has(other) == old(self).has(other),
            final(self).accounts@ == if removed {
                old(self).accounts@.update(old(self).names().index_of(account@), old(self).accounts@.last()).drop_last()
            } else {
                old(self).accounts@
            },
    {
        match self.find(account) {
            None => false,
            Some(at) => {
                let _ = self.accounts.swap_remove(at);
                proof {
                    let before = old(self).names();
                    let after = self.names();
                    let last = before.len() - 1;
                    assert(after.len() == last);
                    let found = before.index_of(account@);
                    assert(before[at as int] == account@);
                    assert(0 <= found < before.len() && before[found] == account@);
                    assert(found == at);
                    assert forall|i: int| 0 <= i < after.len() implies after[i] == if i == at {
                        before[last]
                    } else {
                        before[i]
                    } by {}
                    assert forall|i: int, j: int| 0 <= i < after.len() && 0 <= j < after.len() && i != j implies after[i]
                        != after[j] by {
                        let bi = if i == at { last } else { i };
                        let bj = if j == at { last } else { j };
                        assert(before[bi] != before[bj]);
                    }
                    assert forall|i: int| 0 <= i < after.len() implies after[i] != account@ by {
                        let bi = if i == at { last } else { i };
                        assert(before[bi] != before[at as int]);
                    }
                    assert forall|other: Seq<char>| other != account@ implies self.has(other) == old(
                        self,
                    ).has(other) by {
                        if old(self).has(other) {
                            let i = choose|i: int| 0 <= i < before.len() && before[i] == other;
                            if i == last {
                                assert(after[at as int] == other);
                            } else {
                                assert(after[i] == other);
                            }
                        }
                        if self.has(other) {
                            let i = choose|i: int| 0 <= i < after.len() && after[i] == other;
                            let bi = if i == at { last } else { i };
                            assert(before[bi] == other);
                        }
                    }
                }
                true
            },
        }
    }

    /// The accounts of the set, in the order of the list.
    pub fn to_vec(&self) -> (list: Vec<String>)
        ensures
            list@ == self.accounts@,
    {
        let mut list: Vec<String> = Vec::new();
        let mut at: usize = 0;
        while at < self.accounts.len()
            invariant
                at <= self.accounts@.len(),
                list@ == self.accounts@.take(at as int),
            decreases self.accounts@.len() - at,
        {
            list.push(self.accounts[at].clone());
            assert(list@ =~= self.accounts@.take(at + 1));
            at = at + 1;
        }
        assert(self.accounts@.take(at as int) =~= self.accounts@);
        list
    }
}

} // verus!
