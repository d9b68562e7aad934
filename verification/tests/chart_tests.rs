use bloombot::chart::{chart_series, ChartRow, TimeframeStats};
use bloombot::leaderboard::{leaderboard_query, LeaderboardQuery, LeaderboardType, SortBy};
use bloombot::retry::{FailureKind, RetryBudget, RetryRule};
use bloombot::stats::StatsType;
use bloombot::timeframe::Timeframe;

fn row(times_ago: i64, minutes: i64, count: i64) -> ChartRow {
    ChartRow { times_ago, meditation_minutes: Some(minutes), meditation_count: Some(count) }
}

fn bar(sum: i64, count: i64) -> TimeframeStats {
    TimeframeStats { sum: Some(sum), count: Some(count) }
}

fn sums(stats: &[TimeframeStats]) -> Vec<i64> {
    stats.iter().map(|bar| bar.sum.unwrap()).collect()
}

#[test]
fn daily_chart_has_twelve_bars_oldest_first() {
    let rows = vec![row(0, 30, 2), row(11, 5, 1), row(3, 45, 3), row(12, 99, 9)];
    let stats = chart_series(&rows, None, Timeframe::Daily);
    assert_eq!(stats.len(), 12);
    assert_eq!(sums(&stats), vec![5, 0, 0, 0, 0, 0, 0, 0, 45, 0, 0, 30]);
    assert_eq!(stats[0], bar(5, 1));
    assert_eq!(stats[8], bar(45, 3));
    assert_eq!(stats[11], bar(30, 2));
    assert_eq!(stats[1], bar(0, 0));
}

#[test]
fn longer_timeframes_end_with_the_running_span() {
    let rows = vec![row(1, 60, 4), row(11, 10, 1), row(0, 777, 7), row(12, 99, 9)];
    for timeframe in [Timeframe::Weekly, Timeframe::Monthly, Timeframe::Yearly] {
        let stats = chart_series(&rows, Some(row(0, 25, 2)), timeframe);
        assert_eq!(stats.len(), 12);
        assert_eq!(sums(&stats), vec![10, 0, 0, 0, 0, 0, 0, 0, 0, 0, 60, 25]);
        assert_eq!(stats[11], bar(25, 2));
    }
}

#[test]
fn running_span_without_sessions_is_an_empty_bar() {
    let rows = vec![row(1, 60, 4), row(2, 15, 1)];
    let stats = chart_series(&rows, None, Timeframe::Weekly);
    assert_eq!(stats.len(), 12);
    assert_eq!(sums(&stats), vec![0, 0, 0, 0, 0, 0, 0, 0, 0, 15, 60, 0]);
    assert_eq!(stats[11], bar(0, 0));
}

#[test]
fn chart_without_rows_is_all_empty_bars() {
    for timeframe in [Timeframe::Daily, Timeframe::Weekly, Timeframe::Monthly, Timeframe::Yearly] {
        let stats = chart_series(&Vec::new(), None, timeframe);
        assert_eq!(stats, vec![bar(0, 0); 12]);
    }
}

#[test]
fn missing_sum_or_count_reads_as_zero() {
    let rows = vec![
        ChartRow { times_ago: 2, meditation_minutes: None, meditation_count: Some(3) },
        ChartRow { times_ago: 1, meditation_minutes: Some(20), meditation_count: None },
    ];
    let fresh = ChartRow { times_ago: 0, meditation_minutes: None, meditation_count: None };
    let stats = chart_series(&rows, Some(fresh), Timeframe::Monthly);
    assert_eq!(stats[9], bar(0, 3));
    assert_eq!(stats[10], bar(20, 0));
    assert_eq!(stats[11], bar(0, 0));
}

#[test]
fn first_row_of_a_span_counts() {
    let rows = vec![row(4, 10, 1), row(4, 20, 2), row(5, 1, 1)];
    let stats = chart_series(&rows, None, Timeframe::Daily);
    assert_eq!(stats[7], bar(10, 1));
    assert_eq!(stats[6], bar(1, 1));
}

#[test]
fn fresh_bar_is_appended_to_a_daily_chart_too() {
    let stats = chart_series(&vec![row(0, 30, 2)], Some(row(0, 8, 1)), Timeframe::Daily);
    assert_eq!(stats.len(), 13);
    assert_eq!(stats[11], bar(30, 2));
    assert_eq!(stats[12], bar(8, 1));
}

#[test]
fn rows_outside_the_chart_are_left_out() {
    let rows = vec![row(-1, 10, 1), row(12, 20, 2), row(i64::MAX, 5, 5), row(i64::MIN, 5, 5)];
    assert_eq!(chart_series(&rows, None, Timeframe::Daily), vec![bar(0, 0); 12]);
    assert_eq!(chart_series(&rows, None, Timeframe::Yearly), vec![bar(0, 0); 12]);
}

#[test]
fn figure_of_a_bar_follows_the_statistics_type() {
    assert_eq!(bar(45, 3).figure(StatsType::MeditationMinutes), 45);
    assert_eq!(bar(45, 3).figure(StatsType::MeditationCount), 3);
    let blank = TimeframeStats { sum: None, count: None };
    assert_eq!(blank.figure(StatsType::MeditationMinutes), 0);
    assert_eq!(blank.figure(StatsType::MeditationCount), 0);
    assert_eq!(bar(12, 1).figure(StatsType::default()), 12);
}

#[test]
fn leaderboard_query_names_view_column_and_limit() {
    assert_eq!(
        leaderboard_query(Timeframe::Daily, SortBy::Minutes, LeaderboardType::Top5),
        LeaderboardQuery { view: "daily_leaderboard", order_by: "minutes", limit: 5 }
    );
    assert_eq!(
        leaderboard_query(Timeframe::Weekly, SortBy::Sessions, LeaderboardType::Top10),
        LeaderboardQuery { view: "weekly_leaderboard", order_by: "sessions", limit: 10 }
    );
    assert_eq!(
        leaderboard_query(Timeframe::Monthly, SortBy::Streak, LeaderboardType::Top5),
        LeaderboardQuery { view: "monthly_leaderboard", order_by: "streak", limit: 5 }
    );
    assert_eq!(
        leaderboard_query(Timeframe::Yearly, SortBy::Minutes, LeaderboardType::Top10),
        LeaderboardQuery { view: "yearly_leaderboard", order_by: "minutes", limit: 10 }
    );
}

#[test]
fn leaderboard_choices() {
    assert_eq!(SortBy::Minutes.column(), "minutes");
    assert_eq!(SortBy::Sessions.column(), "sessions");
    assert_eq!(SortBy::Streak.column(), "streak");
    assert_eq!(LeaderboardType::Top5.limit(), 5);
    assert_eq!(LeaderboardType::Top10.limit(), 10);
}

#[test]
fn connecting_is_retried_on_any_io_failure() {
    let mut budget = RetryBudget::new(RetryRule::Connect, 5);
    assert_eq!(budget.retries(), 0);
    assert_eq!(budget.on_failure(FailureKind::OtherIo), Some(60));
    assert_eq!(budget.on_failure(FailureKind::ConnectionReset), Some(60));
    assert_eq!(budget.retries(), 2);
    assert_eq!(budget.on_failure(FailureKind::NotIo), None);
    assert_eq!(budget.retries(), 2);
}

#[test]
fn acquiring_is_retried_on_reset_only() {
    let mut budget = RetryBudget::new(RetryRule::Acquire, 5);
    assert_eq!(budget.on_failure(FailureKind::ConnectionReset), Some(1));
    assert_eq!(budget.on_failure(FailureKind::OtherIo), None);
    assert_eq!(budget.on_failure(FailureKind::NotIo), None);
    assert_eq!(budget.retries(), 1);
}

#[test]
fn retries_end_with_the_budget() {
    let mut budget = RetryBudget::new(RetryRule::Acquire, 3);
    for tried in 0..3 {
        assert_eq!(budget.retries(), tried);
        assert_eq!(budget.on_failure(FailureKind::ConnectionReset), Some(1));
    }
    assert_eq!(budget.on_failure(FailureKind::ConnectionReset), None);
    assert_eq!(budget.on_failure(FailureKind::ConnectionReset), None);
    assert_eq!(budget.retries(), 3);

    let mut none = RetryBudget::new(RetryRule::Connect, 0);
    assert_eq!(none.on_failure(FailureKind::OtherIo), None);
    assert_eq!(none.retries(), 0);
}
