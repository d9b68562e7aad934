//! Timeframes and the aggregate views that are kept per timeframe.
//!
//! Leaderboards and chart series are precomputed, one materialized view per timeframe. Charts
//! by day are cheap enough to be computed when they are asked for, so there is no such view
//! for them.

use vstd::prelude::*;

verus! {

/// The span that a leaderboard or one bar of a chart covers.
#[derive(Clone, Copy, Debug, PartialEq, Eq, Hash)]
pub enum Timeframe {
    Daily,
    Weekly,
    Monthly,
    Yearly,
}

/// Statistics reach this many minutes past the present instant, so that the running day is
/// complete in every offset from UTC: no offset on offer is further ahead.
pub const STATS_LOOKAHEAD_MINUTES: i64 = 840;

/// The days that the statistics of a timeframe look back: twelve spans of the timeframe, with
/// a month taken as thirty days and a year as 365.
pub open spec fn window_days(timeframe: Timeframe) -> int {
    match timeframe {
        Timeframe::Daily => 12int,
        Timeframe::Weekly => 12int * 7,
        Timeframe::Monthly => 12int * 30,
        Timeframe::Yearly => 12int * 365,
    }
}

impl Timeframe {
    /// The days that the statistics of the timeframe look back.
    pub fn stats_window_days(&self) -> (days: i64)
        ensures
            days == window_days(*self),
    {
        match self {
            Timeframe::Daily => 12,
            Timeframe::Weekly => 84,
            Timeframe::Monthly => 360,
            Timeframe::Yearly => 4380,
        }
    }
}

/// An aggregate that the scheduler keeps fresh.
#[derive(Clone, Copy, Debug, PartialEq, Eq, Hash)]
pub enum AggregateView {
    /// The ranking of members over a timeframe.
    Leaderboard(Timeframe),
    /// The series behind the statistics charts of a timeframe.
    Chart(Timeframe),
}

/// The name of the materialized view behind an aggregate, if it has one.
pub open spec fn relation_name(view: AggregateView) -> Option<Seq<char>> {
    match view {
        AggregateView::Leaderboard(Timeframe::Daily) => Some("daily_leaderboard"@),
        AggregateView::Leaderboard(Timeframe::Weekly) => Some("weekly_leaderboard"@),
        AggregateView::Leaderboard(Timeframe::Monthly) => Some("monthly_leaderboard"@),
        AggregateView::Leaderboard(Timeframe::Yearly) => Some("yearly_leaderboard"@),
        AggregateView::Chart(Timeframe::Daily) => None,
        AggregateView::Chart(Timeframe::Weekly) => Some("weekly_data"@),
        AggregateView::Chart(Timeframe::Monthly) => Some("monthly_data"@),
        AggregateView::Chart(Timeframe::Yearly) => Some("yearly_data"@),
    }
}

impl AggregateView {
    /// The timeframe of the aggregate.
    pub fn timeframe(&self) -> (timeframe: Timeframe)
        ensures
            *self == AggregateView::Leaderboard(timeframe) || *self == AggregateView::Chart(
                timeframe,
            ),
    {
        match self {
            AggregateView::Leaderboard(timeframe) => *timeframe,
            AggregateView::Chart(timeframe) => *timeframe,
        }
    }

    /// The name of the materialized view to rebuild, or `None` where a refresh has nothing to
    /// do because the aggregate is computed on demand.
    pub fn materialized_view(&self) -> (name: Option<&'static str>)
        ensures
            name is Some <==> relation_name(*self) is Some,
            name matches Some(n) ==> relation_name(*self) == Some(n@),
    {
        match self {
            AggregateView::Leaderboard(Timeframe::Daily) => Some("daily_leaderboard"),
            AggregateView::Leaderboard(Timeframe::Weekly) => Some("weekly_leaderboard"),
            AggregateView::Leaderboard(Timeframe::Monthly) => Some("monthly_leaderboard"),
            AggregateView::Leaderboard(Timeframe::Yearly) => Some("yearly_leaderboard"),
            AggregateView::Chart(Timeframe::Daily) => None,
            AggregateView::Chart(Timeframe::Weekly) => Some("weekly_data"),
            AggregateView::Chart(Timeframe::Monthly) => Some("monthly_data"),
            AggregateView::Chart(Timeframe::Yearly) => Some("yearly_data"),
        }
    }

    /// Whether the view is rebuilt without locking out its readers. Leaderboards are read all
    /// the time and are rebuilt that way; chart views are not.
    pub fn refreshes_concurrently(&self) -> (concurrently: bool)
        ensures
            concurrently == (*self is Leaderboard),
    {
        match self {
            AggregateView::Leaderboard(_) => true,
            AggregateView::Chart(_) => false,
        }
    }
}

} // verus!
