//! The series behind a statistics chart.
//!
//! A chart shows twelve bars, the oldest first. The store delivers the time that was logged as
//! rows, each for one span of the timeframe and counted back from the present: span 0 is the
//! running day, week, month or year. For charts by day all twelve bars come from such rows.
//! For the longer timeframes the past eleven spans come from the materialized view, and the
//! running span is computed afresh and handed over on its own.

use vstd::prelude::*;
use crate::stats::StatsType;
use crate::timeframe::Timeframe;

verus! {

/// The number of bars in a chart.
pub const CHART_BARS: i64 = 12;

/// What was logged in one span of the timeframe, as the store delivers it.
#[derive(Clone, Copy, Debug, PartialEq, Eq)]
pub struct ChartRow {
    /// How many spans back from the present the span lies.
    pub times_ago: i64,
    /// The minutes logged in the span, if the store has a sum.
    pub meditation_minutes: Option<i64>,
    /// The number of sessions logged in the span, if the store has a count.
    pub meditation_count: Option<i64>,
}

/// One bar of a chart.
#[derive(Clone, Copy, Debug, PartialEq, Eq)]
pub struct TimeframeStats {
    pub sum: Option<i64>,
    pub count: Option<i64>,
}

impl TimeframeStats {
    /// The figure of the bar in what the statistics are counted in, zero where the bar has
    /// none.
    pub open spec fn figure_of(self, stats_type: StatsType) -> int {
        match stats_type {
            StatsType::MeditationMinutes => match self.sum {
                Some(sum) => sum as int,
                None => 0,
            },
            StatsType::MeditationCount => match self.count {
                Some(count) => count as int,
                None => 0,
            },
        }
    }

    /// The figure of the bar in what the statistics are counted in, zero where the bar has
    /// none.
    pub fn figure(&self, stats_type: StatsType) -> (figure: i64)
        ensures
            figure == self.figure_of(stats_type),
    {
        match stats_type {
            StatsType::MeditationMinutes => match self.sum {
                Some(sum) => sum,
                None => 0,
            },
            StatsType::MeditationCount => match self.count {
                Some(count) => count,
                None => 0,
            },
        }
    }
}

/// The first of the rows from place `from` on that lies `times_ago` spans back, if there is
/// one.
pub open spec fn first_row(rows: Seq<ChartRow>, times_ago: int, from: int) -> Option<ChartRow>
    decreases rows.len() - from,
{
    if from < 0 || from >= rows.len() {
        None
    } else if rows[from].times_ago == times_ago {
        Some(rows[from])
    } else {
        first_row(rows, times_ago, from + 1)
    }
}

/// The bar of a span: what its row holds, with zero for what the row or the store lacks.
pub open spec fn bar_of(row: Option<ChartRow>) -> TimeframeStats {
    match row {
        Some(row) => TimeframeStats {
            sum: Some(
                match row.meditation_minutes {
                    Some(minutes) => minutes,
                    None => 0,
                },
            ),
            count: Some(
                match row.meditation_count {
                    Some(count) => count,
                    None => 0,
                },
            ),
        },
        None => TimeframeStats { sum: Some(0), count: Some(0) },
    }
}

/// The bars that come from the rows: those of the spans from eleven back to the last one that
/// the rows stand for, which is the running span for charts by day and the span before it for
/// the longer timeframes.
pub open spec fn past_bars(rows: Seq<ChartRow>, timeframe: Timeframe) -> Seq<TimeframeStats> {
    Seq::new(
        if timeframe is Daily {
            CHART_BARS as nat
        } else {
            (CHART_BARS - 1) as nat
        },
        |j: int| bar_of(first_row(rows, CHART_BARS - 1 - j, 0)),
    )
}

/// The bars of a chart, the oldest first. After the bars from the rows comes the bar of the
/// running span, where that was computed afresh; for the longer timeframes an empty bar
/// stands in for it where nothing was logged in the running span.
pub open spec fn chart_bars(
    rows: Seq<ChartRow>,
    fresh: Option<ChartRow>,
    timeframe: Timeframe,
) -> Seq<TimeframeStats> {
    if fresh is Some || !(timeframe is Daily) {
        past_bars(rows, timeframe).push(bar_of(fresh))
    } else {
        past_bars(rows, timeframe)
    }
}

/// The bar of a span.
fn bar(row: Option<ChartRow>) -> (stats: TimeframeStats)
    ensures
        stats == bar_of(row),
{
    match row {
        Some(row) => TimeframeStats {
            sum: Some(
                match row.meditation_minutes {
                    Some(minutes) => minutes,
                    None => 0,
                },
            ),
            count: Some(
                match row.meditation_count {
                    Some(count) => count,
                    None => 0,
                },
            ),
        },
        None => TimeframeStats { sum: Some(0), count: Some(0) },
    }
}

/// The first row that lies `times_ago` spans back.
fn find_row(rows: &Vec<ChartRow>, times_ago: i64) -> (row: Option<ChartRow>)
    ensures
        row == first_row(rows@, times_ago as int, 0),
{
    let mut k: usize = 0;
    while k < rows.len()
        invariant
            0 <= k <= rows.len(),
            first_row(rows@, times_ago as int, 0) == first_row(rows@, times_ago as int, k as int),
        decreases rows.len() - k,
    {
        if rows[k].times_ago == times_ago {
            return Some(rows[k]);
        }
        k = k + 1;
    }
    None
}

/// Lays the rows of the store out as the bars of a chart, the oldest bar first. Spans without
/// a row get an empty bar, and of several rows for one span the first counts.
pub fn chart_series(
    rows: &Vec<ChartRow>,
    fresh: Option<ChartRow>,
    timeframe: Timeframe,
) -> (stats: Vec<TimeframeStats>)
    ensures
        stats@ == chart_bars(rows@, fresh, timeframe),
{
    let daily = match timeframe {
        Timeframe::Daily => true,
        _ => false,
    };
    let bars: i64 = if daily {
        CHART_BARS
    } else {
        CHART_BARS - 1
    };
    let mut stats: Vec<TimeframeStats> = Vec::new();
    let mut j: i64 = 0;
    while j < bars
        invariant
            0 <= j <= bars <= CHART_BARS,
            bars == past_bars(rows@, timeframe).len(),
            stats@ == past_bars(rows@, timeframe).take(j as int),
        decreases bars - j,
    {
        let row = find_row(rows, CHART_BARS - 1 - j);
        stats.push(bar(row));
        proof {
            assert(past_bars(rows@, timeframe).take(j as int).push(
                past_bars(rows@, timeframe)[j as int],
            ) == past_bars(rows@, timeframe).take(j + 1));
        }
        j = j + 1;
    }
    proof {
        assert(past_bars(rows@, timeframe).take(bars as int) == past_bars(rows@, timeframe));
    }
    match fresh {
        Some(_) => stats.push(bar(fresh)),
        None => if !daily {
            stats.push(bar(None));
        },
    }
    stats
}

} // verus!
