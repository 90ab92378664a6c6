use keystroke_counter::stats::{TypingStats, DailyStats};
use keystroke_counter::records::{count_from_column, count_to_column, sessions_from_column, DailyIncrement};
use keystroke_counter::time::{Timestamp, MIN_UTC_SECONDS, MAX_UTC_SECONDS};
use keystroke_counter::commands::{
    weekly_range_at, monthly_range_at, weekly_range, monthly_range, daily_query_date_at,
    daily_query_date, begin_tracking, end_tracking, TrayCommand, stats_window_action, WindowAction,
    AccessibilityStatus, text_equals,
};

fn at(secs: i64) -> Timestamp {
    Timestamp { secs, nanos: 0 }
}

#[test]
fn columns_read_back_as_counters() {
    let d = DailyStats::from_columns("2024-02-29".to_string(), 150, 75, 3600, 4);
    assert_eq!(d.date, "2024-02-29");
    assert_eq!(d.total_keystrokes, 150);
    assert_eq!(d.printable_chars, 75);
    assert_eq!(d.typing_duration_seconds, 3600);
    assert_eq!(d.session_count, 4);
    let w = DailyStats::from_columns(String::new(), -1, i64::MIN, 0, -1);
    assert_eq!(w.total_keystrokes, u64::MAX);
    assert_eq!(w.printable_chars, 1u64 << 63);
    assert_eq!(w.session_count, u32::MAX);
}

#[test]
fn saved_counts_read_back_unchanged() {
    for x in [0u64, 1, 100, i64::MAX as u64, (i64::MAX as u64) + 1, u64::MAX] {
        assert_eq!(count_from_column(count_to_column(x)), x);
    }
    for y in [0i64, -1, i64::MIN, i64::MAX, 42] {
        assert_eq!(count_to_column(count_from_column(y)), y);
    }
    assert_eq!(count_to_column(u64::MAX), -1);
    assert_eq!(sessions_from_column(-2), u32::MAX - 1);
}

#[test]
fn session_counts_become_a_daily_increment() {
    let mut s = TypingStats::new();
    for i in 0..100i64 {
        s.record_keystroke_at(i < 50, Timestamp { secs: 10 + i, nanos: 0 });
    }
    assert_eq!(s.daily_increment(), DailyIncrement { keystrokes: 100, chars: 50 });
    let big = TypingStats { total_keystrokes: u64::MAX, printable_chars: 0, session_start: None, last_keystroke: None };
    assert_eq!(big.daily_increment(), DailyIncrement { keystrokes: -1, chars: 0 });
}

#[test]
fn query_date_defaults_to_today() {
    assert_eq!(daily_query_date_at(Some("2023-12-31".to_string()), at(0)), Some("2023-12-31".to_string()));
    assert_eq!(daily_query_date_at(None, at(0)), Some("1970-01-01".to_string()));
    assert_eq!(daily_query_date_at(None, at(1_704_067_199)), Some("2023-12-31".to_string()));
    assert_eq!(daily_query_date_at(None, at(-1)), Some("1969-12-31".to_string()));
    assert_eq!(daily_query_date(Some("2020-01-01".to_string())), Some("2020-01-01".to_string()));
    let today = daily_query_date(None).unwrap();
    assert_eq!(today.len(), 10);
    assert_eq!(&today[4..5], "-");
}

#[test]
fn calendar_dates_cover_chrono_range() {
    assert_eq!(daily_query_date_at(None, at(MAX_UTC_SECONDS)), Some("+262142-12-31".to_string()));
    assert_eq!(daily_query_date_at(None, at(MAX_UTC_SECONDS + 1)), None);
    assert_eq!(daily_query_date_at(None, at(MIN_UTC_SECONDS)), Some("-262143-01-01".to_string()));
    assert_eq!(daily_query_date_at(None, at(MIN_UTC_SECONDS - 1)), None);
}

#[test]
fn weekly_and_monthly_ranges() {
    // 2024-01-08 12:00:00 UTC
    let now = at(1_704_715_200);
    let w = weekly_range_at(now).unwrap();
    assert_eq!(w.start, "2024-01-01");
    assert_eq!(w.end, "2024-01-08");
    let m = monthly_range_at(now).unwrap();
    assert_eq!(m.start, "2023-12-09");
    assert_eq!(m.end, "2024-01-08");
    assert!(weekly_range_at(at(MIN_UTC_SECONDS + 7 * 86_400 - 1)).is_none());
    assert!(weekly_range_at(at(MIN_UTC_SECONDS + 7 * 86_400)).is_some());
    assert!(monthly_range_at(at(MAX_UTC_SECONDS + 1)).is_none());
    assert!(weekly_range_at(at(i64::MIN)).is_none());
    let live = weekly_range().unwrap();
    assert!(live.start < live.end);
    let live_m = monthly_range().unwrap();
    assert!(live_m.start < live_m.end);
}

#[test]
fn tracking_starts_listener_once() {
    let mut tracking = false;
    let mut listener_started = false;
    assert!(begin_tracking(&mut tracking, &mut listener_started));
    assert!(tracking && listener_started);
    assert!(!begin_tracking(&mut tracking, &mut listener_started));
    end_tracking(&mut tracking, &listener_started);
    assert!(!tracking && listener_started);
    // start, stop, start: the listener is not started again
    assert!(!begin_tracking(&mut tracking, &mut listener_started));
    assert!(tracking);
    end_tracking(&mut tracking, &listener_started);
    end_tracking(&mut tracking, &listener_started);
    assert!(!begin_tracking(&mut tracking, &mut listener_started));
}

#[test]
fn tray_menu_ids() {
    assert_eq!(TrayCommand::from_menu_id("show_stats"), Some(TrayCommand::ShowStats));
    assert_eq!(TrayCommand::from_menu_id("start_tracking"), Some(TrayCommand::StartTracking));
    assert_eq!(TrayCommand::from_menu_id("stop_tracking"), Some(TrayCommand::StopTracking));
    assert_eq!(TrayCommand::from_menu_id("quit"), Some(TrayCommand::Quit));
    assert_eq!(TrayCommand::from_menu_id("Quit"), None);
    assert_eq!(TrayCommand::from_menu_id(""), None);
    assert!(text_equals("통계", "통계"));
    assert!(!text_equals("ab", "abc"));
}

#[test]
fn stats_window_toggles() {
    assert_eq!(stats_window_action(false, false), WindowAction::Create);
    assert_eq!(stats_window_action(true, true), WindowAction::Hide);
    assert_eq!(stats_window_action(true, false), WindowAction::Show);
}

#[test]
fn accessibility_status_by_platform() {
    let mac_denied = AccessibilityStatus::from_check(true, false);
    assert!(!mac_denied.granted);
    assert_eq!(mac_denied.platform, "macos");
    assert!(mac_denied.needs_prompt());
    let mac_ok = AccessibilityStatus::from_check(true, true);
    assert!(!mac_ok.needs_prompt());
    let other = AccessibilityStatus::from_check(false, false);
    assert!(other.granted);
    assert_eq!(other.platform, "other");
    assert!(!other.needs_prompt());
}
