//! Pending-intent queue for the keeper relay: stake and unstake record
//! delegation and undelegation intents here, the keeper executes them
//! against the real staking backend and confirms completion, which consumes
//! the matching entry.
//!
//! Entries are keyed by validator and merged on insert, so the queue holds
//! at most one intent per validator; a confirmation reduces the matching
//! amount and clears the entry when it reaches zero.

use vstd::prelude::*;

verus! {

/// One pending intent: an amount awaiting relay to or from `validator`,
/// recorded in era `era`.
#[derive(Clone, Copy, Debug, PartialEq, Eq, Structural)]
pub struct PendingIntent {
    pub validator: u64,
    pub amount: u128,
    /// Era of the latest merge into this entry.
    pub era: u64,
}

/// The intents a sequence of entries represents, keyed by validator; later
/// entries override earlier ones (well-formed queues have no duplicates).
pub open spec fn spec_as_map(s: Seq<PendingIntent>) -> Map<u64, PendingIntent>
    decreases s.len(),
{
    if s.len() == 0 {
        Map::<u64, PendingIntent>::empty()
    } else {
        spec_as_map(s.drop_last()).insert(s.last().validator, s.last())
    }
}

/// No two entries name the same validator.
pub open spec fn spec_distinct(s: Seq<PendingIntent>) -> bool {
    forall|i: int, j: int|
        0 <= i < j < s.len() ==> s[i].validator != s[j].validator
}

/// A validator is in the represented map exactly when some entry names it.
pub proof fn lemma_as_map_domain(s: Seq<PendingIntent>)
    ensures
        forall|v: u64| #[trigger]
            spec_as_map(s).contains_key(v) <==> (exists|i: int|
                0 <= i < s.len() && s[i].validator == v),
    decreases s.len(),
{
    if s.len() > 0 {
        let t = s.drop_last();
        lemma_as_map_domain(t);
        assert forall|v: u64| #[trigger]
            spec_as_map(s).contains_key(v) implies (exists|i: int|
            0 <= i < s.len() && s[i].validator == v) by {
            if v == s.last().validator {
                assert(s[s.len() - 1].validator == v);
            } else {
                assert(spec_as_map(t).contains_key(v));
                let i = choose|i: int| 0 <= i < t.len() && t[i].validator == v;
                assert(s[i].validator == v);
            }
        }
        assert forall|v: u64|
            (exists|i: int| 0 <= i < s.len() && s[i].validator == v) implies #[trigger]
            spec_as_map(s).contains_key(v) by {
            let i = choose|i: int| 0 <= i < s.len() && s[i].validator == v;
            if i < s.len() - 1 {
                assert(t[i].validator == v);
                assert(spec_as_map(t).contains_key(v));
            }
        }
    }
}

/// In a well-formed queue, the entry at index `i` is what the map stores
/// for its validator.
pub proof fn lemma_as_map_value(s: Seq<PendingIntent>, i: int)
    requires
        spec_distinct(s),
        0 <= i < s.len(),
    ensures
        spec_as_map(s).contains_key(s[i].validator),
        spec_as_map(s)[s[i].validator] == s[i],
    decreases s.len(),
{
    if i < s.len() - 1 {
        let t = s.drop_last();
        assert(t[i] == s[i]);
        lemma_as_map_value(t, i);
        assert(s[i].validator != s.last().validator);
    }
}

/// Removing the entry at index `i` removes exactly its validator from the
/// represented map.
pub proof fn lemma_as_map_remove(s: Seq<PendingIntent>, i: int)
    requires
        spec_distinct(s),
        0 <= i < s.len(),
    ensures
        spec_as_map(s.remove(i)) =~= spec_as_map(s).remove(s[i].validator),
    decreases s.len(),
{
    let t = s.drop_last();
    lemma_as_map_domain(t);
    if i == s.len() - 1 {
        assert(s.remove(i) =~= t);
        assert(!spec_as_map(t).contains_key(s[i].validator));
    } else {
        let s2 = s.remove(i);
        assert(s2.drop_last() =~= t.remove(i));
        lemma_as_map_remove(t, i);
        assert(s2.last() == s.last());
        assert(s[i].validator != s.last().validator);
    }
}

/// The queue itself: a vector of merged intents, one per validator.
pub struct PendingQueue {
    pub entries: Vec<PendingIntent>,
}

impl View for PendingQueue {
    type V = Map<u64, PendingIntent>;

    open spec fn view(&self) -> Map<u64, PendingIntent> {
        spec_as_map(self.entries@)
    }
}

impl PendingQueue {
    /// Entries name pairwise distinct validators.
    pub open spec fn wf(&self) -> bool {
        spec_distinct(self.entries@)
    }

    /// Creates an empty queue.
    pub fn new() -> (q: Self)
        ensures
            q.wf(),
            q@ == Map::<u64, PendingIntent>::empty(),
            q.entries@.len() == 0,
    {
        PendingQueue { entries: Vec::new() }
    }

    /// Index of the entry naming `validator`, if one exists.
    fn find_index(&self, validator: u64) -> (r: Option<usize>)
        ensures
            match r {
                Some(i) => i < self.entries@.len() && self.entries@[i as int].validator
                    == validator,
                None => forall|i: int|
                    0 <= i < self.entries@.len() ==> self.entries@[i].validator != validator,
            },
    {
        let mut i: usize = 0;
        while i < self.entries.len()
            invariant
                i <= self.entries@.len(),
                forall|j: int| 0 <= j < i ==> self.entries@[j].validator != validator,
            decreases self.entries@.len() - i,
        {
            if self.entries[i].validator == validator {
                return Some(i);
            }
            i = i + 1;
        }
        None
    }

    /// The intent recorded for `validator`, if any.
    pub fn get(&self, validator: u64) -> (r: Option<PendingIntent>)
        requires
            self.wf(),
        ensures
            self@.contains_key(validator) ==> r == Some(self@[validator]),
            !self@.contains_key(validator) ==> r is None,
    {
        proof {
            lemma_as_map_domain(self.entries@);
        }
        match self.find_index(validator) {
            Some(i) => {
                proof {
                    lemma_as_map_value(self.entries@, i as int);
                }
                Some(self.entries[i])
            },
            None => None,
        }
    }

    /// The entry `validator` holds after merging `amount` recorded in era
    /// `era` into `prior`.
    pub open spec fn spec_merged(
        prior: Option<PendingIntent>,
        validator: u64,
        amount: u128,
        era: u64,
    ) -> PendingIntent {
        match prior {
            Some(e) => PendingIntent {
                validator,
                amount: if e.amount + amount > u128::MAX {
                    u128::MAX
                } else {
                    (e.amount + amount) as u128
                },
                era,
            },
            None => PendingIntent { validator, amount, era },
        }
    }

    /// Records an intent of `amount` for `validator` in era `era`, merging
    /// it into the existing entry if one is present (amounts add,
    /// saturating; the era is refreshed).
    pub fn merge_add(&mut self, validator: u64, amount: u128, era: u64)
        requires
            old(self).wf(),
        ensures
            final(self).wf(),
            old(self)@.contains_key(validator) ==> final(self)@ == old(self)@.insert(
                validator,
                Self::spec_merged(Some(old(self)@[validator]), validator, amount, era),
            ),
            !old(self)@.contains_key(validator) ==> final(self)@ == old(self)@.insert(
                validator,
                Self::spec_merged(None, validator, amount, era),
            ),
    {
        proof {
            lemma_as_map_domain(self.entries@);
        }
        match self.find_index(validator) {
            Some(i) => {
                proof {
                    lemma_as_map_value(self.entries@, i as int);
                    lemma_as_map_remove(self.entries@, i as int);
                }
                let prior = self.entries.remove(i);
                let merged = PendingIntent {
                    validator,
                    amount: prior.amount.saturating_add(amount),
                    era,
                };
                proof {
                    lemma_as_map_domain(self.entries@);
                }
                self.entries.push(merged);
                proof {
                    assert(self.entries@.drop_last() =~= old(self).entries@.remove(i as int));
                    assert(self@ =~= old(self)@.insert(
                        validator,
                        Self::spec_merged(Some(old(self)@[validator]), validator, amount, era),
                    ));
                }
            },
            None => {
                self.entries.push(PendingIntent { validator, amount, era });
                proof {
                    assert(self.entries@.drop_last() =~= old(self).entries@);
                }
            },
        }
    }

    /// Consumes `amount` of the intent recorded for `validator`: reduces the
    /// entry, clearing it when fully consumed. Returns `false`, leaving the
    /// queue unchanged, when no entry for `validator` exists or it holds
    /// less than `amount`.
    pub fn consume(&mut self, validator: u64, amount: u128) -> (ok: bool)
        requires
            old(self).wf(),
        ensures
            final(self).wf(),
            !ok ==> *final(self) == *old(self) && (!old(self)@.contains_key(validator) || old(
                self,
            )@[validator].amount < amount),
            ok ==> old(self)@.contains_key(validator) && old(self)@[validator].amount >= amount
                && (if old(self)@[validator].amount == amount {
                final(self)@ == old(self)@.remove(validator)
            } else {
                final(self)@ == old(self)@.insert(
                    validator,
                    PendingIntent {
                        validator,
                        amount: (old(self)@[validator].amount - amount) as u128,
                        era: old(self)@[validator].era,
                    },
                )
            }),
    {
        proof {
            lemma_as_map_domain(self.entries@);
        }
        match self.find_index(validator) {
            Some(i) => {
                proof {
                    lemma_as_map_value(self.entries@, i as int);
                }
                let entry = self.entries[i];
                if entry.amount < amount {
                    return false;
                }
                proof {
                    lemma_as_map_remove(self.entries@, i as int);
                }
                let prior = self.entries.remove(i);
                if prior.amount > amount {
                    let reduced = PendingIntent {
                        validator,
                        amount: prior.amount - amount,
                        era: prior.era,
                    };
                    proof {
                        lemma_as_map_domain(self.entries@);
                    }
                    self.entries.push(reduced);
                    proof {
                        assert(self.entries@.drop_last() =~= old(self).entries@.remove(i as int));
                        assert(self@ =~= old(self)@.insert(
                            validator,
                            PendingIntent {
                                validator,
                                amount: (old(self)@[validator].amount - amount) as u128,
                                era: old(self)@[validator].era,
                            },
                        ));
                    }
                }
                true
            },
            None => false,
        }
    }

    /// A copy of the queue's entries, in storage order.
    pub fn snapshot(&self) -> (r: Vec<PendingIntent>)
        ensures
            r@ == self.entries@,
    {
        let mut r: Vec<PendingIntent> = Vec::new();
        let mut i: usize = 0;
        while i < self.entries.len()
            invariant
                i <= self.entries@.len(),
                r@ == self.entries@.take(i as int),
            decreases self.entries@.len() - i,
        {
            r.push(self.entries[i]);
            proof {
                assert(self.entries@.take(i + 1 as int) =~= self.entries@.take(i as int).push(
                    self.entries@[i as int],
                ));
            }
            i = i + 1;
        }
        proof {
            assert(self.entries@.take(self.entries@.len() as int) =~= self.entries@);
        }
        r
    }
}

} // verus!
