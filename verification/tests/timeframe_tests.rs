use bloombot::offset::{minutes_difference, OffsetChoices};
use bloombot::stats::StatsType;
use bloombot::timeframe::{AggregateView, Timeframe, STATS_LOOKAHEAD_MINUTES};

#[test]
fn leaderboards_have_a_view_per_timeframe() {
    let name = |timeframe| AggregateView::Leaderboard(timeframe).materialized_view();
    assert_eq!(name(Timeframe::Daily), Some("daily_leaderboard"));
    assert_eq!(name(Timeframe::Weekly), Some("weekly_leaderboard"));
    assert_eq!(name(Timeframe::Monthly), Some("monthly_leaderboard"));
    assert_eq!(name(Timeframe::Yearly), Some("yearly_leaderboard"));
}

#[test]
fn charts_have_no_daily_view() {
    let name = |timeframe| AggregateView::Chart(timeframe).materialized_view();
    assert_eq!(name(Timeframe::Daily), None);
    assert_eq!(name(Timeframe::Weekly), Some("weekly_data"));
    assert_eq!(name(Timeframe::Monthly), Some("monthly_data"));
    assert_eq!(name(Timeframe::Yearly), Some("yearly_data"));
}

#[test]
fn only_leaderboards_refresh_concurrently() {
    assert!(AggregateView::Leaderboard(Timeframe::Daily).refreshes_concurrently());
    assert!(AggregateView::Leaderboard(Timeframe::Yearly).refreshes_concurrently());
    assert!(!AggregateView::Chart(Timeframe::Weekly).refreshes_concurrently());
    assert!(!AggregateView::Chart(Timeframe::Daily).refreshes_concurrently());
}

#[test]
fn view_knows_its_timeframe() {
    assert_eq!(AggregateView::Chart(Timeframe::Monthly).timeframe(), Timeframe::Monthly);
    assert_eq!(AggregateView::Leaderboard(Timeframe::Daily).timeframe(), Timeframe::Daily);
}

#[test]
fn offsets_in_minutes() {
    assert_eq!(OffsetChoices::UTCMinus12.offset_minutes(), -720);
    assert_eq!(OffsetChoices::UTCMinus9_30.offset_minutes(), -570);
    assert_eq!(OffsetChoices::UTCMinus3_30.offset_minutes(), -210);
    assert_eq!(OffsetChoices::UTCMinus1.offset_minutes(), -60);
    assert_eq!(OffsetChoices::UTC.offset_minutes(), 0);
    assert_eq!(OffsetChoices::UTCPlus1.offset_minutes(), 60);
    assert_eq!(OffsetChoices::UTCPlus5_30.offset_minutes(), 330);
    assert_eq!(OffsetChoices::UTCPlus5_45.offset_minutes(), 345);
    assert_eq!(OffsetChoices::UTCPlus8_45.offset_minutes(), 525);
    assert_eq!(OffsetChoices::UTCPlus12_45.offset_minutes(), 765);
    assert_eq!(OffsetChoices::UTCPlus13_45.offset_minutes(), 825);
    assert_eq!(OffsetChoices::UTCPlus14.offset_minutes(), 840);
}

#[test]
fn no_offset_means_utc() {
    assert_eq!(minutes_difference(None), 0);
    assert_eq!(minutes_difference(Some(OffsetChoices::UTC)), 0);
    assert_eq!(minutes_difference(Some(OffsetChoices::UTCPlus10_30)), 630);
    assert_eq!(minutes_difference(Some(OffsetChoices::UTCMinus4_30)), -270);
}

#[test]
fn statistics_default_to_minutes() {
    assert_eq!(StatsType::default(), StatsType::MeditationMinutes);
    assert_ne!(StatsType::default(), StatsType::MeditationCount);
}

#[test]
fn statistics_look_back_twelve_spans() {
    assert_eq!(Timeframe::Daily.stats_window_days(), 12);
    assert_eq!(Timeframe::Weekly.stats_window_days(), 84);
    assert_eq!(Timeframe::Monthly.stats_window_days(), 360);
    assert_eq!(Timeframe::Yearly.stats_window_days(), 4380);
}

#[test]
fn statistics_reach_as_far_ahead_as_the_largest_offset() {
    assert_eq!(STATS_LOOKAHEAD_MINUTES, 840);
    assert_eq!(STATS_LOOKAHEAD_MINUTES, OffsetChoices::UTCPlus14.offset_minutes());
}
