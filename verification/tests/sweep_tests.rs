use bloombot::chart::{chart_series, ChartRow, TimeframeStats};
use bloombot::clock::{time_until_next_anchor, Timestamp};
use bloombot::streak::{compute_streak, Streak, StreakCache};
use bloombot::timeframe::Timeframe;

/// A small generator of numbers that look random and are the same in every run.
struct Numbers(u64);

impl Numbers {
    fn next(&mut self) -> u64 {
        self.0 = self.0.wrapping_mul(6364136223846793005).wrapping_add(1442695040888963407);
        self.0 >> 33
    }

    fn below(&mut self, bound: u64) -> u64 {
        self.next() % bound
    }
}

fn run_from(days: &[i32], start: usize) -> u64 {
    let mut end = start + 1;
    while end < days.len() && i64::from(days[end]) == i64::from(days[end - 1]) + 1 {
        end += 1;
    }
    (end - start) as u64
}

fn counted_by_hand(cache: StreakCache, days: &[i32]) -> Streak {
    let at_least_two = |run: u64| if run < 2 { 0 } else { run };
    let current =
        if days.is_empty() || days[0] > 2 { 0 } else { at_least_two(run_from(days, 0)) };
    let cached = match cache {
        StreakCache::Uncomputed => 0,
        StreakCache::Bootstrapped { longest, .. } => longest,
    };
    let longest = if cached > 0 {
        cached.max(current)
    } else {
        at_least_two((0..days.len()).map(|start| run_from(days, start)).max().unwrap_or(0))
    };
    Streak { current, longest }
}

#[test]
fn streaks_agree_with_a_count_by_hand() {
    let mut numbers = Numbers(7);
    for _ in 0..4000 {
        let len = numbers.below(14) as usize;
        let mut day = numbers.below(5) as i32 - 1;
        let mut days = Vec::new();
        for _ in 0..len {
            days.push(day);
            day += match numbers.below(4) {
                0 => 2 + numbers.below(4) as i32,
                1 => 0,
                _ => 1,
            };
        }
        let cache = match numbers.below(3) {
            0 => StreakCache::Uncomputed,
            1 => StreakCache::Bootstrapped { current: 0, longest: 0 },
            _ => StreakCache::Bootstrapped {
                current: numbers.below(6),
                longest: 1 + numbers.below(8),
            },
        };
        assert_eq!(compute_streak(cache, &days), counted_by_hand(cache, &days), "{days:?}");
    }
}

#[test]
fn waits_agree_with_the_clock_face() {
    let mut numbers = Numbers(11);
    for round in 0..4000 {
        let spread: i64 = if round % 2 == 0 { 4_000_000_000 } else { 16_000_000_000_000 };
        let secs = (numbers.next() as i64 * 977 + numbers.below(977) as i64) % spread - spread / 2;
        let nanos = match numbers.below(3) {
            0 => 0,
            1 => 1 + numbers.below(999_999_999) as u32,
            _ => 999_999_999,
        };
        let now = Timestamp::new(secs, nanos).unwrap();
        let second_of_day = secs.rem_euclid(86_400);
        let to_anchor = if second_of_day < 43_200 {
            43_200 - second_of_day
        } else {
            86_400 - second_of_day
        };
        let expected = if nanos > 0 { to_anchor - 1 } else { to_anchor };
        assert_eq!(time_until_next_anchor(now), expected as u64, "{secs}.{nanos:09}");
    }
}

#[test]
fn every_second_of_a_day_waits_for_noon_or_midnight() {
    let midnight: i64 = 1_709_164_800; // 2024-02-29 00:00:00 UTC
    for second in 0..86_400 {
        let now = Timestamp::new(midnight + second, 0).unwrap();
        let expected = if second < 43_200 { 43_200 - second } else { 86_400 - second };
        assert_eq!(time_until_next_anchor(now), expected as u64);
    }
}

#[test]
fn charts_agree_with_a_lookup_by_hand() {
    let mut numbers = Numbers(23);
    let timeframes = [Timeframe::Daily, Timeframe::Weekly, Timeframe::Monthly, Timeframe::Yearly];
    for _ in 0..2000 {
        let some = |numbers: &mut Numbers| match numbers.below(4) {
            0 => None,
            _ => Some(numbers.below(500) as i64),
        };
        let mut rows = Vec::new();
        for _ in 0..numbers.below(20) {
            rows.push(ChartRow {
                times_ago: numbers.below(16) as i64 - 2,
                meditation_minutes: some(&mut numbers),
                meditation_count: some(&mut numbers),
            });
        }
        let fresh = match numbers.below(2) {
            0 => None,
            _ => Some(ChartRow {
                times_ago: 0,
                meditation_minutes: some(&mut numbers),
                meditation_count: some(&mut numbers),
            }),
        };
        let timeframe = timeframes[numbers.below(4) as usize];

        let bar = |row: Option<&ChartRow>| TimeframeStats {
            sum: Some(row.and_then(|row| row.meditation_minutes).unwrap_or(0)),
            count: Some(row.and_then(|row| row.meditation_count).unwrap_or(0)),
        };
        let oldest_first = if timeframe == Timeframe::Daily { (0..12).rev() } else { (1..12).rev() };
        let mut expected: Vec<TimeframeStats> = oldest_first
            .map(|times_ago| bar(rows.iter().find(|row| row.times_ago == times_ago)))
            .collect();
        if fresh.is_some() || timeframe != Timeframe::Daily {
            expected.push(bar(fresh.as_ref()));
        }
        assert_eq!(chart_series(&rows, fresh, timeframe), expected);
    }
}
