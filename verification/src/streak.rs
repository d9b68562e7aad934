//! The streak calculator.
//!
//! A streak is a count of consecutive calendar days with at least one logged session. Two rules
//! make it more than a run length. A member who was last active today, yesterday or the day
//! before still holds a streak; after more silence than that the current streak is zero. And a
//! single isolated day is no streak: every length below two counts as zero.
//!
//! The longest streak is computed from the whole history only while no positive value is
//! cached. Afterwards the cached value can only be beaten by the current streak, so a lookup
//! stops reading the history at the first gap.

use vstd::prelude::*;
use crate::runs::{
    consecutive, is_run, lemma_leading_run_prefix, lemma_longest_run_within_bounds,
    lemma_longest_run_within_prefix, lemma_run_ending_at, lemma_run_ending_at_is_longest,
    lemma_run_ending_at_prefix, lemma_run_ending_at_span, lemma_run_starting_at,
    lemma_run_starting_at_unique, longest_run, longest_run_within, run_ending_at,
    run_starting_at, same_prefix,
};

verus! {

/// The most recent active day may lie this many days back without breaking the streak.
pub const GRACE_DAYS: i32 = 2;

/// A streak needs at least this many consecutive days.
pub const MIN_STREAK_DAYS: u64 = 2;

/// What the cache holds for one member before a lookup.
#[derive(Clone, Copy, Debug, PartialEq, Eq)]
pub enum StreakCache {
    /// No streak was ever computed for the member.
    Uncomputed,
    /// The values that the last lookup stored.
    Bootstrapped { current: u64, longest: u64 },
}

/// A member's streaks, in days.
#[derive(Clone, Copy, Debug, PartialEq, Eq)]
pub struct Streak {
    pub current: u64,
    pub longest: u64,
}

impl StreakCache {
    /// The cached longest streak; a member without a record counts as zero.
    pub open spec fn longest(self) -> nat {
        match self {
            StreakCache::Uncomputed => 0,
            StreakCache::Bootstrapped { longest, .. } => longest as nat,
        }
    }

    /// The cached longest streak; a member without a record counts as zero.
    pub fn cached_longest(&self) -> (longest: u64)
        ensures
            longest == self.longest(),
    {
        match self {
            StreakCache::Uncomputed => 0,
            StreakCache::Bootstrapped { longest, .. } => *longest,
        }
    }
}

/// A run counts as a streak from two days on.
pub open spec fn normalized(run: nat) -> nat {
    if run < MIN_STREAK_DAYS {
        0
    } else {
        run
    }
}

/// The current streak of a history: zero when the history is empty or its most recent day lies
/// more than `GRACE_DAYS` back, else the normalized length of the run that starts with the most
/// recent day.
pub open spec fn current_streak(days: Seq<int>) -> nat {
    if days.len() == 0 || days[0] > GRACE_DAYS {
        0
    } else {
        normalized(run_starting_at(days, 0))
    }
}

/// The longest streak of a history, given the cached longest streak. With a positive cached
/// value only the current streak can exceed it. Without one it is the normalized length of the
/// longest run anywhere in the history.
pub open spec fn longest_streak(cached_longest: nat, days: Seq<int>) -> nat {
    if cached_longest > 0 {
        if current_streak(days) > cached_longest {
            current_streak(days)
        } else {
            cached_longest
        }
    } else {
        normalized(longest_run(days))
    }
}

/// The streaks that a lookup returns and stores: those of the history, given the cached
/// longest streak.
pub open spec fn streak_of(cached_longest: nat, days: Seq<int>) -> Streak {
    Streak {
        current: current_streak(days) as u64,
        longest: longest_streak(cached_longest, days) as u64,
    }
}

/// No older day can change the streaks any more: a positive longest streak is cached, and a gap
/// has closed the run that starts with the most recent day.
pub open spec fn settled(cached_longest: nat, days: Seq<int>) -> bool {
    cached_longest > 0 && run_starting_at(days, 0) < days.len()
}

/// Settled streaks are final: whatever older days follow, the streaks of the longer history are
/// those of the days read.
pub proof fn lemma_settled_is_final(cached_longest: nat, days: Seq<int>, older: Seq<int>)
    requires
        settled(cached_longest, days),
    ensures
        current_streak(days + older) == current_streak(days),
        longest_streak(cached_longest, days + older) == longest_streak(cached_longest, days),
{
    assert(same_prefix(days, days + older, days.len() as int));
    lemma_leading_run_prefix(days, days + older, days.len() as int);
}

/// The current streak never exceeds the longest streak that is returned with it.
pub proof fn lemma_current_at_most_longest(cached_longest: nat, days: Seq<int>)
    ensures
        current_streak(days) <= longest_streak(cached_longest, days),
{
    if days.len() > 0 {
        lemma_run_starting_at(days, 0);
        let lead = run_starting_at(days, 0) as int;
        lemma_run_ending_at_is_longest(days, 0, lead);
        lemma_longest_run_within_bounds(days, days.len() as int, lead - 1);
    }
}

/// The longest streak never regresses: it is at least the cached value, and it is the cached
/// value unchanged whenever that is positive and the current streak does not exceed it.
pub proof fn lemma_longest_never_regresses(cached_longest: nat, days: Seq<int>)
    ensures
        longest_streak(cached_longest, days) >= cached_longest,
        cached_longest > 0 && current_streak(days) <= cached_longest ==> longest_streak(
            cached_longest,
            days,
        ) == cached_longest,
{
}

/// A lookup is idempotent: a second lookup over the same history, with what the first one
/// stored as its cache, returns the same streaks. The current streak depends on the history
/// alone, and the longest streak that the first lookup stored is a fixed point.
pub proof fn lemma_lookup_is_idempotent(cached_longest: nat, days: Seq<int>)
    ensures
        longest_streak(longest_streak(cached_longest, days), days) == longest_streak(
            cached_longest,
            days,
        ),
{
    lemma_current_at_most_longest(cached_longest, days);
}

/// A streak is never a single day: the current streak is zero or at least two, and so is the
/// longest streak unless the cached value itself was one.
pub proof fn lemma_streak_is_never_one(cached_longest: nat, days: Seq<int>)
    ensures
        current_streak(days) != 1,
        cached_longest != 1 ==> longest_streak(cached_longest, days) != 1,
{
}

/// The grace rule: with the most recent day more than `GRACE_DAYS` back there is no current
/// streak, and within the grace period the current streak is the normalized length of the run
/// that starts with the most recent day.
pub proof fn lemma_grace_rule(days: Seq<int>)
    requires
        days.len() > 0,
    ensures
        days[0] > GRACE_DAYS ==> current_streak(days) == 0,
        days[0] <= GRACE_DAYS ==> current_streak(days) == normalized(run_starting_at(days, 0)),
{
}

/// The days of a history as mathematical integers.
pub open spec fn day_seq(days: Seq<i32>) -> Seq<int> {
    Seq::new(days.len(), |k: int| days[k] as int)
}

/// Reads a history one day at a time, most recent day first.
///
/// The scanner keeps three lengths up to date: that of the run that starts with the most
/// recent day, that of the run that ends with the last day read, and that of the longest run
/// so far. `finish` turns them into the streaks of the days read.
pub struct StreakScanner {
    cached_longest: u64,
    empty: bool,
    broken: bool,
    gap_seen: bool,
    last: i32,
    lead: u64,
    run: u64,
    best: u64,
    seen: Ghost<Seq<int>>,
}

impl StreakScanner {
    /// The days read so far.
    pub closed spec fn days(&self) -> Seq<int> {
        self.seen@
    }

    /// The cached longest streak that the scanner was created with.
    pub closed spec fn cached(&self) -> nat {
        self.cached_longest as nat
    }

    /// The fields describe the days read.
    #[verifier::type_invariant]
    spec fn describes_days(&self) -> bool {
        let s = self.seen@;
        let n = s.len() as int;
        &&& forall|k: int| 0 <= k < n ==> i32::MIN <= #[trigger] s[k] <= i32::MAX
        &&& self.empty == (n == 0)
        &&& self.lead == run_starting_at(s, 0)
        &&& self.run == run_ending_at(s, n - 1)
        &&& self.best == longest_run(s)
        &&& self.gap_seen == (self.lead < n)
        &&& n > 0 ==> self.last == s[n - 1] && self.broken == (s[0] > GRACE_DAYS)
    }

    /// A scanner that has read nothing yet.
    pub fn new(cache: StreakCache) -> (scanner: StreakScanner)
        ensures
            scanner.days() == Seq::<int>::empty(),
            scanner.cached() == cache.longest(),
    {
        StreakScanner {
            cached_longest: cache.cached_longest(),
            empty: true,
            broken: false,
            gap_seen: false,
            last: 0,
            lead: 0,
            run: 0,
            best: 0,
            seen: Ghost(Seq::empty()),
        }
    }

    /// Reads the next older day of the history.
    pub fn push(&mut self, day: i32)
        ensures
            final(self).days() == old(self).days().push(day as int),
            final(self).cached() == old(self).cached(),
    {
        proof {
            use_type_invariant(&*self);
        }
        let ghost s = self.seen@;
        let ghost n = s.len() as int;
        let ghost t = s.push(day as int);
        proof {
            assert(same_prefix(s, t, n));
            lemma_longest_run_within_prefix(s, t, n, n);
            lemma_run_ending_at_prefix(s, t, n, n - 1);
        }
        if self.empty {
            proof {
                assert(!consecutive(t, 0));
                assert(!consecutive(t, 1));
                assert(longest_run_within(t, 0) == 0);
            }
            *self = StreakScanner {
                cached_longest: self.cached_longest,
                empty: false,
                broken: day > GRACE_DAYS,
                gap_seen: false,
                last: day,
                lead: 1,
                run: 1,
                best: 1,
                seen: Ghost(t),
            };
        } else {
            let continues = self.last < i32::MAX && day == self.last + 1;
            proof {
                assert(continues == consecutive(t, n));
                lemma_run_ending_at_span(s, n - 1, i32::MIN as int);
                lemma_run_starting_at(s, 0);
                if !self.gap_seen {
                    lemma_run_ending_at_is_longest(s, 0, n);
                    lemma_run_ending_at(s, n - 1);
                    assert(is_run(t, 0, n)) by {
                        assert forall|k: int| 0 < k < n implies consecutive(t, k) by {
                            assert(consecutive(s, k));
                        }
                    }
                    if continues {
                        assert(is_run(t, 0, n + 1));
                        lemma_run_starting_at_unique(t, 0, n + 1);
                    } else {
                        lemma_run_starting_at_unique(t, 0, n);
                    }
                } else {
                    lemma_leading_run_prefix(s, t, n);
                }
            }
            let run = if continues {
                self.run + 1
            } else {
                1
            };
            let lead = if continues && !self.gap_seen {
                self.lead + 1
            } else {
                self.lead
            };
            let best = if run > self.best {
                run
            } else {
                self.best
            };
            *self = StreakScanner {
                cached_longest: self.cached_longest,
                empty: false,
                broken: self.broken,
                gap_seen: self.gap_seen || !continues,
                last: day,
                lead,
                run,
                best,
                seen: Ghost(t),
            };
        }
    }

    /// Whether the streaks are settled, so that the rest of the history need not be read.
    pub fn is_settled(&self) -> (done: bool)
        ensures
            done == settled(self.cached(), self.days()),
    {
        proof {
            use_type_invariant(self);
        }
        self.gap_seen && self.cached_longest > 0
    }

    /// The streaks of the days read.
    pub fn finish(&self) -> (streak: Streak)
        ensures
            streak == streak_of(self.cached(), self.days()),
            streak.current == current_streak(self.days()),
            streak.longest == longest_streak(self.cached(), self.days()),
    {
        proof {
            use_type_invariant(self);
        }
        let current = if self.empty || self.broken {
            0
        } else {
            normalize(self.lead)
        };
        let longest = if self.cached_longest > 0 {
            if current > self.cached_longest {
                current
            } else {
                self.cached_longest
            }
        } else {
            normalize(self.best)
        };
        Streak { current, longest }
    }
}

/// A run counts as a streak from two days on.
pub fn normalize(run: u64) -> (streak: u64)
    ensures
        streak == normalized(run as nat),
{
    if run < MIN_STREAK_DAYS {
        0
    } else {
        run
    }
}

/// Computes a member's streaks from the cached record and the history of active days, most
/// recent day first, each day as its distance in days from today.
///
/// With a positive cached longest streak the history is read up to its first gap only.
pub fn compute_streak(cache: StreakCache, days: &Vec<i32>) -> (streak: Streak)
    ensures
        streak == streak_of(cache.longest(), day_seq(days@)),
        streak.current == current_streak(day_seq(days@)),
        streak.longest == longest_streak(cache.longest(), day_seq(days@)),
{
    let mut scanner = StreakScanner::new(cache);
    let mut i: usize = 0;
    while i < days.len() && !scanner.is_settled()
        invariant
            0 <= i <= days.len(),
            scanner.cached() == cache.longest(),
            scanner.days() == day_seq(days@).take(i as int),
        decreases days.len() - i,
    {
        scanner.push(days[i]);
        proof {
            assert(day_seq(days@).take(i as int).push(days[i as int] as int) == day_seq(
                days@,
            ).take(i + 1));
        }
        i = i + 1;
    }
    proof {
        let all = day_seq(days@);
        let read = all.take(i as int);
        assert(all == read + all.skip(i as int));
        if i < days.len() {
            lemma_settled_is_final(cache.longest(), read, all.skip(i as int));
        }
    }
    scanner.finish()
}

} // verus!
