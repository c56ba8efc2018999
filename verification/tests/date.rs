use chrono::{DateTime, Datelike, NaiveDate, Utc};
use todo_list::date::{
    Analyzer, CalendarDate, TimestampAnalyzer, TimestampCategory, EPOCH_DAY, FIRST_PLAIN_DAY,
    LAST_PLAIN_DAY, MAX_DAY, MAX_TIMESTAMP, MIN_DAY, MIN_TIMESTAMP,
};

fn day(days: i32) -> CalendarDate {
    CalendarDate::from_days(days).unwrap()
}

#[test]
fn calendar_limits_are_those_of_chrono() {
    assert_eq!(NaiveDate::MIN.num_days_from_ce(), MIN_DAY);
    assert_eq!(NaiveDate::MAX.num_days_from_ce(), MAX_DAY);
    assert_eq!(DateTime::<Utc>::MIN_UTC.timestamp(), MIN_TIMESTAMP);
    assert_eq!(DateTime::<Utc>::MAX_UTC.timestamp(), MAX_TIMESTAMP);
    assert_eq!(NaiveDate::from_ymd_opt(1970, 1, 1).unwrap().num_days_from_ce(), EPOCH_DAY);
    assert_eq!(NaiveDate::from_ymd_opt(0, 1, 1).unwrap().num_days_from_ce(), FIRST_PLAIN_DAY);
    assert_eq!(NaiveDate::from_ymd_opt(9999, 12, 31).unwrap().num_days_from_ce(), LAST_PLAIN_DAY);
}

#[test]
fn from_days_takes_the_days_of_the_calendar_only() {
    assert_eq!(day(MIN_DAY).days(), MIN_DAY);
    assert_eq!(day(MAX_DAY).days(), MAX_DAY);
    assert_eq!(day(0).days(), 0);
    assert!(CalendarDate::from_days(MIN_DAY - 1).is_none());
    assert!(CalendarDate::from_days(MAX_DAY + 1).is_none());
    assert!(CalendarDate::from_days(i32::MIN).is_none());
    assert!(CalendarDate::from_days(i32::MAX).is_none());
}

#[test]
fn of_timestamp_gives_the_utc_day() {
    assert_eq!(CalendarDate::of_timestamp(0), Some(day(719_163)));
    assert_eq!(CalendarDate::of_timestamp(86_399), Some(day(719_163)));
    assert_eq!(CalendarDate::of_timestamp(86_400), Some(day(719_164)));
    assert_eq!(CalendarDate::of_timestamp(-1), Some(day(719_162)));
    assert_eq!(CalendarDate::of_timestamp(-86_400), Some(day(719_162)));
    assert_eq!(CalendarDate::of_timestamp(-86_401), Some(day(719_161)));
    assert_eq!(CalendarDate::of_timestamp(1_709_596_800), Some(day(738_950)));
    assert_eq!(CalendarDate::of_timestamp(951_782_400), Some(day(730_179)));
}

#[test]
fn of_timestamp_ends_where_the_calendar_ends() {
    assert_eq!(CalendarDate::of_timestamp(MIN_TIMESTAMP), Some(day(MIN_DAY)));
    assert_eq!(CalendarDate::of_timestamp(MAX_TIMESTAMP), Some(day(MAX_DAY)));
    assert_eq!(CalendarDate::of_timestamp(MIN_TIMESTAMP - 1), None);
    assert_eq!(CalendarDate::of_timestamp(MAX_TIMESTAMP + 1), None);
    assert_eq!(CalendarDate::of_timestamp(i64::MIN), None);
    assert_eq!(CalendarDate::of_timestamp(i64::MAX), None);
}

#[test]
fn date_text_is_day_month_year() {
    assert_eq!(day(738_950).text(), "05/03/2024");
    assert_eq!(day(719_163).text(), "01/01/1970");
    assert_eq!(day(730_179).text(), "29/02/2000");
    assert_eq!(day(1).text(), "01/01/0001");
    assert_eq!(day(FIRST_PLAIN_DAY).text(), "01/01/0000");
    assert_eq!(day(LAST_PLAIN_DAY).text(), "31/12/9999");
}

#[test]
fn date_text_signs_the_years_beyond_four_digits() {
    assert_eq!(day(LAST_PLAIN_DAY + 1).text(), "01/01/+10000");
    assert_eq!(day(FIRST_PLAIN_DAY - 1).text(), "31/12/-0001");
    assert_eq!(day(MAX_DAY).text(), "31/12/+262142");
    assert_eq!(day(MIN_DAY).text(), "01/01/-262143");
}

#[test]
fn date_text_has_its_shape_all_through_the_plain_years() {
    let mut days = FIRST_PLAIN_DAY;
    while days <= LAST_PLAIN_DAY {
        let text = day(days).text();
        let chars: Vec<char> = text.chars().collect();
        assert_eq!(chars.len(), 10, "{}", text);
        for (i, c) in chars.iter().enumerate() {
            if i == 2 || i == 5 {
                assert_eq!(*c, '/', "{}", text);
            } else {
                assert!(c.is_ascii_digit(), "{}", text);
            }
        }
        days += 97;
    }
}

#[test]
fn same_day_is_today() {
    let today = day(738_950);
    for ts in [1_709_596_800_i64, 1_709_596_801, 1_709_640_000, 1_709_683_199] {
        let analyzer = TimestampAnalyzer::new(ts);
        assert_eq!(analyzer.categorize_on(today), TimestampCategory::Today);
        assert_eq!(analyzer.label_on(today), "Today");
    }
}

#[test]
fn day_before_is_yesterday() {
    let today = day(738_950);
    for ts in [1_709_510_400_i64, 1_709_550_000, 1_709_596_799] {
        let analyzer = TimestampAnalyzer::new(ts);
        assert_eq!(analyzer.categorize_on(today), TimestampCategory::Yesterday);
        assert_eq!(analyzer.label_on(today), "Yesterday");
    }
}

#[test]
fn other_days_keep_their_date() {
    let today = day(738_950);
    let three_days_ago = TimestampAnalyzer::new(1_709_337_600);
    assert_eq!(three_days_ago.categorize_on(today), TimestampCategory::Other(day(738_947)));
    assert_eq!(three_days_ago.label_on(today), "02/03/2024");
    let two_days_ago = TimestampAnalyzer::new(1_709_510_399);
    assert_eq!(two_days_ago.categorize_on(today), TimestampCategory::Other(day(738_948)));
    assert_eq!(two_days_ago.label_on(today), "03/03/2024");
    let tomorrow = TimestampAnalyzer::new(1_709_683_200);
    assert_eq!(tomorrow.categorize_on(today), TimestampCategory::Other(day(738_951)));
    assert_eq!(tomorrow.label_on(today), "06/03/2024");
    let long_ago = TimestampAnalyzer::new(0);
    assert_eq!(long_ago.categorize_on(today), TimestampCategory::Other(day(719_163)));
    assert_eq!(long_ago.label_on(today), "01/01/1970");
}

#[test]
fn before_the_epoch_days_are_floored() {
    let today = day(719_162);
    assert_eq!(TimestampAnalyzer::new(-1).categorize_on(today), TimestampCategory::Today);
    assert_eq!(TimestampAnalyzer::new(-86_400).categorize_on(today), TimestampCategory::Today);
    assert_eq!(TimestampAnalyzer::new(-86_401).categorize_on(today), TimestampCategory::Yesterday);
    assert_eq!(
        TimestampAnalyzer::new(0).categorize_on(today),
        TimestampCategory::Other(day(719_163))
    );
}

#[test]
fn categories_at_the_ends_of_the_calendar() {
    let first = TimestampAnalyzer::new(MIN_TIMESTAMP);
    assert_eq!(first.categorize_on(day(MIN_DAY)), TimestampCategory::Today);
    assert_eq!(first.categorize_on(day(MIN_DAY + 1)), TimestampCategory::Yesterday);
    let last = TimestampAnalyzer::new(MAX_TIMESTAMP);
    assert_eq!(last.categorize_on(day(MAX_DAY)), TimestampCategory::Today);
    assert_eq!(last.categorize_on(day(MIN_DAY)), TimestampCategory::Other(day(MAX_DAY)));
    assert_eq!(last.label_on(day(MIN_DAY)), "31/12/+262142");
}

#[test]
fn of_date_compares_day_numbers() {
    assert_eq!(TimestampCategory::of_date(day(10), day(10)), TimestampCategory::Today);
    assert_eq!(TimestampCategory::of_date(day(9), day(10)), TimestampCategory::Yesterday);
    assert_eq!(TimestampCategory::of_date(day(8), day(10)), TimestampCategory::Other(day(8)));
    assert_eq!(TimestampCategory::of_date(day(11), day(10)), TimestampCategory::Other(day(11)));
}

#[test]
fn recent_is_today_or_yesterday() {
    assert!(TimestampCategory::Today.is_recent());
    assert!(TimestampCategory::Yesterday.is_recent());
    assert!(!TimestampCategory::Other(day(738_947)).is_recent());
}

#[test]
fn category_labels() {
    assert_eq!(TimestampCategory::Today.label(), "Today");
    assert_eq!(TimestampCategory::Yesterday.label(), "Yesterday");
    assert_eq!(TimestampCategory::Other(day(738_950)).label(), "05/03/2024");
}

#[test]
fn analyzer_keeps_its_timestamp() {
    assert_eq!(TimestampAnalyzer::new(42).timestamp, 42);
    assert_eq!(TimestampAnalyzer::new(-42).timestamp, -42);
}

#[test]
fn clock_places_the_current_second_in_today() {
    let before = Utc::now();
    let now = TimestampAnalyzer::new(before.timestamp());
    let category = now.categorize_timestamp();
    let label = now.label();
    let after = Utc::now();
    if before.date_naive() == after.date_naive() {
        assert_eq!(category, TimestampCategory::Today);
        assert_eq!(label, "Today");
    }
}

#[test]
fn clock_places_a_day_ago_in_yesterday_and_a_week_ago_in_its_day() {
    let before = Utc::now();
    let day_ago = TimestampAnalyzer::new(before.timestamp() - 86_400);
    let week_ago = TimestampAnalyzer::new(before.timestamp() - 7 * 86_400);
    let first = day_ago.categorize_timestamp();
    let second = week_ago.categorize_timestamp();
    let label = week_ago.label();
    let after = Utc::now();
    if before.date_naive() == after.date_naive() {
        let then = before.date_naive().num_days_from_ce() - 7;
        assert_eq!(first, TimestampCategory::Yesterday);
        assert_eq!(second, TimestampCategory::Other(day(then)));
        assert_eq!(label, day(then).text());
    }
}

#[test]
fn of_timestamp_is_the_floored_quotient_by_a_day() {
    let mut ts = MIN_TIMESTAMP;
    while ts <= MAX_TIMESTAMP {
        let floored = ts.div_euclid(86_400) + i64::from(EPOCH_DAY);
        let date = CalendarDate::of_timestamp(ts).unwrap();
        assert_eq!(i64::from(date.days()), floored, "{}", ts);
        ts += 1_000_000_007_i64 * 997;
    }
    for ts in -200_000_i64..200_000 {
        let floored = ts.div_euclid(86_400) + i64::from(EPOCH_DAY);
        assert_eq!(i64::from(CalendarDate::of_timestamp(ts).unwrap().days()), floored, "{}", ts);
    }
}

#[test]
fn date_text_is_that_of_every_second_of_the_day() {
    for ts in [1_709_596_800_i64, 1_709_600_000, 1_709_683_199, -1, -86_400, 0] {
        let date = CalendarDate::of_timestamp(ts).unwrap();
        let written = DateTime::from_timestamp(ts, 0).unwrap().format("%d/%m/%Y").to_string();
        assert_eq!(date.text(), written);
    }
}
