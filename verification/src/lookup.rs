//! One streak lookup against the store, step by step.
//!
//! The store is outside this crate, so a lookup is written as a conversation. The lookup says
//! what it needs next, the host gets it from the store and hands the reply back. The order is
//! fixed: the cached record, then the history day by day from the most recent one, then the
//! write of the recomputed streaks, and only then the result. A failure of the store at any
//! point ends the lookup with an error, and nothing is written after it.

use vstd::prelude::*;
use crate::streak::{
    day_seq, lemma_settled_is_final, settled, streak_of, Streak, StreakCache, StreakScanner,
};

verus! {

/// The member whose streaks are looked up: a user in a community.
#[derive(Clone, Copy, Debug, PartialEq, Eq, Hash)]
pub struct Member {
    pub community_id: u64,
    pub user_id: u64,
}

/// A member's record in the streak cache.
#[derive(Clone, Copy, Debug, PartialEq, Eq)]
pub struct StreakRecord {
    pub community_id: u64,
    pub user_id: u64,
    pub current: u64,
    pub longest: u64,
}

/// The record that holds the streaks of a member.
pub open spec fn record_of(member: Member, streak: Streak) -> StreakRecord {
    StreakRecord {
        community_id: member.community_id,
        user_id: member.user_id,
        current: streak.current,
        longest: streak.longest,
    }
}

/// Why a lookup ended without a result.
#[derive(Clone, Copy, Debug, PartialEq, Eq)]
pub enum StreakError {
    /// The store could not be read or written, or the host answered out of turn.
    AggregationUnavailable,
}

/// What a lookup needs next, or how it ended.
#[derive(Clone, Copy, Debug, PartialEq, Eq)]
pub enum LookupStep {
    /// Read the cached record of this member.
    LoadRecord(Member),
    /// Read the next older active day of this member.
    NextDay(Member),
    /// Write this record.
    Upsert(StreakRecord),
    /// The lookup is over: this is the member's record, and it is stored.
    Done(StreakRecord),
    /// The lookup is over without a result.
    Failed(StreakError),
}

/// What the host hands back after doing what the lookup asked for.
#[derive(Clone, Copy, Debug, PartialEq, Eq)]
pub enum StoreReply {
    /// The cached record, as it was read.
    Record(StreakCache),
    /// The next older active day, as its distance in days from today.
    Day(i32),
    /// The history has no older day.
    NoMoreDays,
    /// The record was written.
    Upserted,
    /// The store failed.
    Failed,
}

/// How far a lookup has come.
pub enum LookupPhase {
    /// Waiting for the cached record.
    Loading,
    /// Reading the history: the cached longest streak and the days read so far.
    Reading { cached: nat, days: Seq<int> },
    /// Waiting for the write of the streaks.
    Storing { streak: Streak },
    /// Ended with these streaks.
    Done { streak: Streak },
    /// Ended with an error.
    Failed,
}

/// Where a lookup stands.
pub struct LookupState {
    pub member: Member,
    pub phase: LookupPhase,
}

/// The state after a reply, and what the lookup says to it. Every step names the member that
/// the lookup was started for.
pub open spec fn lookup_next(state: LookupState, reply: StoreReply) -> (LookupState, LookupStep) {
    let member = state.member;
    match (state.phase, reply) {
        (LookupPhase::Done { streak }, _) => (state, LookupStep::Done(record_of(member, streak))),
        (LookupPhase::Loading, StoreReply::Record(cache)) => (
            LookupState {
                member,
                phase: LookupPhase::Reading { cached: cache.longest(), days: Seq::empty() },
            },
            LookupStep::NextDay(member),
        ),
        (LookupPhase::Reading { cached, days }, StoreReply::Day(day)) => {
            let read = days.push(day as int);
            if settled(cached, read) {
                let streak = streak_of(cached, read);
                (
                    LookupState { member, phase: LookupPhase::Storing { streak } },
                    LookupStep::Upsert(record_of(member, streak)),
                )
            } else {
                (
                    LookupState { member, phase: LookupPhase::Reading { cached, days: read } },
                    LookupStep::NextDay(member),
                )
            }
        },
        (LookupPhase::Reading { cached, days }, StoreReply::NoMoreDays) => {
            let streak = streak_of(cached, days);
            (
                LookupState { member, phase: LookupPhase::Storing { streak } },
                LookupStep::Upsert(record_of(member, streak)),
            )
        },
        (LookupPhase::Storing { streak }, StoreReply::Upserted) => (
            LookupState { member, phase: LookupPhase::Done { streak } },
            LookupStep::Done(record_of(member, streak)),
        ),
        _ => (
            LookupState { member, phase: LookupPhase::Failed },
            LookupStep::Failed(StreakError::AggregationUnavailable),
        ),
    }
}

/// The streaks that a lookup holds once it has asked for their write.
pub open spec fn written_streak(state: LookupState) -> Streak {
    match state.phase {
        LookupPhase::Storing { streak } => streak,
        LookupPhase::Done { streak } => streak,
        _ => Streak { current: 0, longest: 0 },
    }
}

/// What a lookup says in the end when the store answers every `NextDay` from `history`, in
/// order, starting with day `from`, and the lookup has read the days before it.
pub open spec fn reading_ends_with(
    member: Member,
    cached: nat,
    history: Seq<i32>,
    from: int,
) -> LookupStep
    decreases history.len() - from,
{
    let reading = LookupState {
        member,
        phase: LookupPhase::Reading { cached, days: day_seq(history).take(from) },
    };
    if from < 0 || from >= history.len() {
        lookup_next(reading, StoreReply::NoMoreDays).1
    } else {
        let step = lookup_next(reading, StoreReply::Day(history[from])).1;
        if step == LookupStep::NextDay(member) {
            reading_ends_with(member, cached, history, from + 1)
        } else {
            step
        }
    }
}

/// A lookup writes the streaks of the whole history, also where it stops reading early: served
/// from `history`, the reading ends by asking for the write of `streak_of` the whole history
/// to the member's record.
pub proof fn lemma_lookup_writes_streaks_of_history(
    member: Member,
    cached: nat,
    history: Seq<i32>,
    from: int,
)
    requires
        0 <= from <= history.len(),
    ensures
        reading_ends_with(member, cached, history, from) == LookupStep::Upsert(
            record_of(member, streak_of(cached, day_seq(history))),
        ),
    decreases history.len() - from,
{
    let all = day_seq(history);
    let read = all.take(from);
    if from >= history.len() {
        assert(read == all);
    } else {
        let next = read.push(history[from] as int);
        assert(next == all.take(from + 1));
        if settled(cached, next) {
            assert(all == next + all.skip(from + 1));
            lemma_settled_is_final(cached, next, all.skip(from + 1));
        } else {
            lemma_lookup_writes_streaks_of_history(member, cached, history, from + 1);
        }
    }
}

/// The order of a lookup. It returns a record only once the store has confirmed the write of
/// that record, and it asks for a write only in answer to a day or to the end of the history.
pub proof fn lemma_result_follows_write(state: LookupState, reply: StoreReply)
    ensures
        lookup_next(state, reply).1 matches LookupStep::Done(record) ==> record == record_of(
            state.member,
            written_streak(state),
        ) && (state.phase is Done || (state.phase is Storing && reply is Upserted)),
        lookup_next(state, reply).1 is Upsert ==> state.phase is Reading && (reply is Day
            || reply is NoMoreDays),
{
}

/// A failure ends the lookup. After a failed reply, or a reply out of turn, an unfinished
/// lookup fails, and a failed lookup stays failed: no later step asks for a write or returns
/// a record.
pub proof fn lemma_failure_is_final(state: LookupState, reply: StoreReply)
    ensures
        reply is Failed && !(state.phase is Done) ==> lookup_next(state, reply).1
            == LookupStep::Failed(StreakError::AggregationUnavailable) && lookup_next(
            state,
            reply,
        ).0.phase is Failed,
        state.phase is Failed ==> lookup_next(state, reply).1 == LookupStep::Failed(
            StreakError::AggregationUnavailable,
        ) && lookup_next(state, reply).0.phase is Failed,
{
}

/// A lookup never leaves its member: the state after a reply is that of the same member, and
/// what is read, written or returned is the record of that member.
pub proof fn lemma_lookup_keeps_to_its_member(state: LookupState, reply: StoreReply)
    ensures
        lookup_next(state, reply).0.member == state.member,
        lookup_next(state, reply).1 matches LookupStep::LoadRecord(member) ==> member
            == state.member,
        lookup_next(state, reply).1 matches LookupStep::NextDay(member) ==> member
            == state.member,
        lookup_next(state, reply).1 matches LookupStep::Upsert(record) ==> record.community_id
            == state.member.community_id && record.user_id == state.member.user_id,
        lookup_next(state, reply).1 matches LookupStep::Done(record) ==> record.community_id
            == state.member.community_id && record.user_id == state.member.user_id,
{
}

enum Phase {
    Loading,
    Reading,
    Storing,
    Done,
    Failed,
}

/// A streak lookup in progress.
pub struct StreakLookup {
    member: Member,
    phase: Phase,
    scanner: StreakScanner,
    streak: Streak,
}

impl StreakLookup {
    /// Where the lookup stands.
    pub closed spec fn state(&self) -> LookupState {
        LookupState {
            member: self.member,
            phase: match self.phase {
                Phase::Loading => LookupPhase::Loading,
                Phase::Reading => LookupPhase::Reading {
                    cached: self.scanner.cached(),
                    days: self.scanner.days(),
                },
                Phase::Storing => LookupPhase::Storing { streak: self.streak },
                Phase::Done => LookupPhase::Done { streak: self.streak },
                Phase::Failed => LookupPhase::Failed,
            },
        }
    }

    /// A new lookup for a member, and its first step, which asks for the cached record.
    pub fn start(community_id: u64, user_id: u64) -> (begun: (StreakLookup, LookupStep))
        ensures
            begun.0.state() == (LookupState {
                member: Member { community_id, user_id },
                phase: LookupPhase::Loading,
            }),
            begun.1 == LookupStep::LoadRecord(Member { community_id, user_id }),
    {
        let member = Member { community_id, user_id };
        let lookup = StreakLookup {
            member,
            phase: Phase::Loading,
            scanner: StreakScanner::new(StreakCache::Uncomputed),
            streak: Streak { current: 0, longest: 0 },
        };
        (lookup, LookupStep::LoadRecord(member))
    }

    /// Takes the store's reply and says what comes next.
    pub fn advance(&mut self, reply: StoreReply) -> (step: LookupStep)
        ensures
            (final(self).state(), step) == lookup_next(old(self).state(), reply),
    {
        match self.phase {
            Phase::Done => LookupStep::Done(self.record()),
            Phase::Loading => match reply {
                StoreReply::Record(cache) => {
                    self.scanner = StreakScanner::new(cache);
                    self.phase = Phase::Reading;
                    LookupStep::NextDay(self.member)
                },
                _ => self.fail(),
            },
            Phase::Reading => match reply {
                StoreReply::Day(day) => {
                    self.scanner.push(day);
                    if self.scanner.is_settled() {
                        self.store()
                    } else {
                        LookupStep::NextDay(self.member)
                    }
                },
                StoreReply::NoMoreDays => self.store(),
                _ => self.fail(),
            },
            Phase::Storing => match reply {
                StoreReply::Upserted => {
                    self.phase = Phase::Done;
                    LookupStep::Done(self.record())
                },
                _ => self.fail(),
            },
            Phase::Failed => self.fail(),
        }
    }

    fn record(&self) -> (record: StreakRecord)
        ensures
            record == record_of(self.member, self.streak),
    {
        StreakRecord {
            community_id: self.member.community_id,
            user_id: self.member.user_id,
            current: self.streak.current,
            longest: self.streak.longest,
        }
    }

    fn store(&mut self) -> (step: LookupStep)
        requires
            old(self).phase is Reading,
        ensures
            final(self).state() == (LookupState {
                member: old(self).member,
                phase: LookupPhase::Storing {
                    streak: streak_of(old(self).scanner.cached(), old(self).scanner.days()),
                },
            }),
            step == LookupStep::Upsert(
                record_of(
                    old(self).member,
                    streak_of(old(self).scanner.cached(), old(self).scanner.days()),
                ),
            ),
    {
        self.streak = self.scanner.finish();
        self.phase = Phase::Storing;
        LookupStep::Upsert(self.record())
    }

    fn fail(&mut self) -> (step: LookupStep)
        ensures
            final(self).state() == (LookupState {
                member: old(self).member,
                phase: LookupPhase::Failed,
            }),
            step == LookupStep::Failed(StreakError::AggregationUnavailable),
    {
        self.phase = Phase::Failed;
        LookupStep::Failed(StreakError::AggregationUnavailable)
    }
}

} // verus!
