//! How a leaderboard is read.
//!
//! Every leaderboard is a materialized view with one row per member and the columns
//! `minutes`, `sessions` and `streak`. Which view is read, by which column it is ranked and
//! how many rows are shown follows from the choices of the member who asks.

use vstd::prelude::*;
use crate::timeframe::{relation_name, AggregateView, Timeframe};

verus! {

/// The figure by which a leaderboard ranks.
#[derive(Clone, Copy, Debug, PartialEq, Eq, Hash)]
pub enum SortBy {
    Minutes,
    Sessions,
    Streak,
}

/// How many members a leaderboard shows.
#[derive(Clone, Copy, Debug, PartialEq, Eq, Hash)]
pub enum LeaderboardType {
    Top5,
    Top10,
}

/// The column that a leaderboard is ranked by, highest value first.
pub open spec fn sort_column(sort_by: SortBy) -> Seq<char> {
    match sort_by {
        SortBy::Minutes => "minutes"@,
        SortBy::Sessions => "sessions"@,
        SortBy::Streak => "streak"@,
    }
}

/// The number of rows that a leaderboard shows.
pub open spec fn row_limit(leaderboard_type: LeaderboardType) -> int {
    match leaderboard_type {
        LeaderboardType::Top5 => 5,
        LeaderboardType::Top10 => 10,
    }
}

/// What to read for a leaderboard.
#[derive(Clone, Copy, Debug, PartialEq, Eq)]
pub struct LeaderboardQuery {
    /// The materialized view to read.
    pub view: &'static str,
    /// The column to rank by, highest value first.
    pub order_by: &'static str,
    /// The number of rows to read.
    pub limit: i64,
}

impl SortBy {
    /// The column that the leaderboard is ranked by.
    pub fn column(&self) -> (column: &'static str)
        ensures
            column@ == sort_column(*self),
    {
        match self {
            SortBy::Minutes => "minutes",
            SortBy::Sessions => "sessions",
            SortBy::Streak => "streak",
        }
    }
}

impl LeaderboardType {
    /// The number of rows that the leaderboard shows.
    pub fn limit(&self) -> (limit: i64)
        ensures
            limit == row_limit(*self),
    {
        match self {
            LeaderboardType::Top5 => 5,
            LeaderboardType::Top10 => 10,
        }
    }
}

/// What to read for the leaderboard of a timeframe: its materialized view, ranked by the
/// chosen figure and cut off after the chosen number of rows.
pub fn leaderboard_query(
    timeframe: Timeframe,
    sort_by: SortBy,
    leaderboard_type: LeaderboardType,
) -> (query: LeaderboardQuery)
    ensures
        Some(query.view@) == relation_name(AggregateView::Leaderboard(timeframe)),
        query.order_by@ == sort_column(sort_by),
        query.limit == row_limit(leaderboard_type),
{
    let view = match timeframe {
        Timeframe::Daily => "daily_leaderboard",
        Timeframe::Weekly => "weekly_leaderboard",
        Timeframe::Monthly => "monthly_leaderboard",
        Timeframe::Yearly => "yearly_leaderboard",
    };
    LeaderboardQuery { view, order_by: sort_by.column(), limit: leaderboard_type.limit() }
}

} // verus!
