use keystroke_counter::stats::{TypingStats, DailyStats, KeystrokeEvent, SESSION_IDLE_LIMIT_SECONDS};
use keystroke_counter::time::Timestamp;
use keystroke_counter::keys::{Key, is_printable_key, on_keyboard_event, on_keyboard_event_at};

fn at(secs: i64, nanos: u32) -> Timestamp {
    Timestamp { secs, nanos }
}

fn cpm(stats: &TypingStats) -> f64 {
    match stats.rate_basis_of() {
        Some((chars, secs)) => chars as f64 / (secs as f64 / 60.0),
        None => 0.0,
    }
}

#[test]
fn new_stats_have_no_session() {
    let s = TypingStats::new();
    assert_eq!(s.total_keystrokes, 0);
    assert_eq!(s.printable_chars, 0);
    assert_eq!(s.session_start, None);
    assert_eq!(s.last_keystroke, None);
    let d = TypingStats::default();
    assert_eq!(d.total_keystrokes, 0);
    assert_eq!(d.session_start, None);
    assert!(!s.is_session_active_at(at(0, 0)));
    assert_eq!(s.rate_basis_of(), None);
}

#[test]
fn keystrokes_are_counted_by_kind() {
    let mut s = TypingStats::new();
    s.record_keystroke_at(true, at(1_000, 0));
    s.record_keystroke_at(false, at(1_001, 0));
    s.record_keystroke_at(true, at(1_002, 0));
    assert_eq!(s.total_keystrokes, 3);
    assert_eq!(s.printable_chars, 2);
    assert_eq!(s.session_start, Some(at(1_000, 0)));
    assert_eq!(s.last_keystroke, Some(at(1_002, 0)));
}

#[test]
fn idle_gap_over_five_minutes_starts_new_session() {
    let mut s = TypingStats::new();
    s.record_keystroke_at(true, at(1_000, 0));
    s.record_keystroke_at(true, at(1_010, 0));
    s.record_keystroke_at(false, at(1_310, 1));
    assert_eq!(s.total_keystrokes, 1);
    assert_eq!(s.printable_chars, 0);
    assert_eq!(s.session_start, Some(at(1_310, 1)));
}

#[test]
fn gap_of_exactly_five_minutes_keeps_session() {
    let mut s = TypingStats::new();
    s.record_keystroke_at(true, at(1_000, 500));
    s.record_keystroke_at(true, at(1_000 + SESSION_IDLE_LIMIT_SECONDS, 500));
    assert_eq!(s.total_keystrokes, 2);
    assert_eq!(s.session_start, Some(at(1_000, 500)));
    // exactly at the limit the session no longer counts as active
    assert!(!s.is_session_active_at(at(1_600, 500)));
    assert!(s.is_session_active_at(at(1_600, 499)));
}

#[test]
fn reset_session_clears_everything() {
    let mut s = TypingStats::new();
    s.record_keystroke_at(true, at(5, 0));
    s.reset_session();
    assert_eq!(s.total_keystrokes, 0);
    assert_eq!(s.printable_chars, 0);
    assert_eq!(s.session_start, None);
    assert_eq!(s.last_keystroke, None);
    s.reset_session();
    assert_eq!(s.total_keystrokes, 0);
}

#[test]
fn keystroke_makes_session_active_at_its_instant() {
    let mut s = TypingStats::new();
    s.record_keystroke_at(false, at(77, 3));
    assert!(s.is_session_active_at(at(77, 3)));
    // a keystroke on the clock
    let mut c = TypingStats::new();
    assert!(c.record_keystroke(true));
    assert_eq!(c.total_keystrokes, 1);
    assert!(c.is_session_active());
}

#[test]
fn keystrokes_out_of_clock_order_are_counted() {
    let mut s = TypingStats::new();
    s.record_keystroke_at(true, at(2_000, 0));
    s.record_keystroke_at(true, at(1_000, 0));
    assert_eq!(s.total_keystrokes, 2);
    assert_eq!(s.rate_basis_of(), None);
}

#[test]
fn rate_basis_truncates_to_whole_seconds() {
    let mut s = TypingStats::new();
    s.record_keystroke_at(true, at(0, 0));
    s.record_keystroke_at(true, at(0, 999_999_999));
    assert_eq!(s.rate_basis_of(), None);
    assert_eq!(cpm(&s), 0.0);
    s.record_keystroke_at(true, at(60, 999_999_999));
    assert_eq!(s.rate_basis_of(), Some((3, 60)));
    assert_eq!(cpm(&s), 3.0);
    assert_eq!(cpm(&s) / 5.0, 0.6);
}

#[test]
fn rate_of_a_minute_of_typing() {
    let mut s = TypingStats::new();
    for i in 0..120u32 {
        s.record_keystroke_at(true, at(10, i * 1000));
    }
    s.record_keystroke_at(false, at(70, 0));
    assert_eq!(s.rate_basis_of(), Some((120, 60)));
    let mut t = TypingStats::new();
    t.record_keystroke_at(true, at(0, 0));
    for _ in 0..119 {
        t.record_keystroke_at(true, at(60, 0));
    }
    assert_eq!(t.rate_basis_of(), Some((120, 60)));
    assert_eq!(cpm(&t), 120.0);
    assert_eq!(cpm(&t) / 5.0, 24.0);
}

#[test]
fn counters_count_a_run_of_keystrokes() {
    let mut s = TypingStats::new();
    let mut printable = 0u64;
    for i in 0..50i64 {
        let p = i % 3 != 0;
        if p {
            printable += 1;
        }
        s.record_keystroke_at(p, at(100 + i * 299, 0));
    }
    assert_eq!(s.total_keystrokes, 50);
    assert_eq!(s.printable_chars, printable);
    assert_eq!(s.session_start, Some(at(100, 0)));
    assert_eq!(s.last_keystroke, Some(at(100 + 49 * 299, 0)));
}

#[test]
fn daily_average_wpm_basis() {
    let day = DailyStats {
        date: "2024-05-01".to_string(),
        total_keystrokes: 500,
        printable_chars: 300,
        typing_duration_seconds: 60,
        session_count: 2,
    };
    let (chars, secs) = day.avg_wpm_basis().unwrap();
    assert_eq!((chars, secs), (300, 60));
    assert_eq!((chars as f64 / (secs as f64 / 60.0)) / 5.0, 60.0);
    let idle = DailyStats { typing_duration_seconds: 0, ..day };
    assert_eq!(idle.avg_wpm_basis(), None);
}

#[test]
fn keystroke_event_holds_its_fields() {
    let e = KeystrokeEvent { key: "KeyA".to_string(), timestamp: at(9, 9), is_printable: true };
    assert_eq!(e.key, "KeyA");
    assert_eq!(e.timestamp, at(9, 9));
    assert!(e.is_printable);
}

#[test]
fn printable_keys_are_recognised() {
    for k in [Key::KeyA, Key::KeyZ, Key::Num0, Key::Num9, Key::Space, Key::Comma, Key::Dot,
              Key::Slash, Key::SemiColon, Key::Quote, Key::LeftBracket, Key::RightBracket,
              Key::BackSlash, Key::Minus, Key::Equal, Key::BackQuote, Key::Kp0, Key::Kp9,
              Key::KpMinus, Key::KpPlus, Key::KpMultiply, Key::KpDivide, Key::KpDelete] {
        assert!(is_printable_key(&k), "{:?}", k);
    }
    for k in [Key::ShiftLeft, Key::Return, Key::Tab, Key::Backspace, Key::Escape, Key::F1,
              Key::KpReturn, Key::IntlBackslash, Key::MetaLeft, Key::Function, Key::Unknown(65)] {
        assert!(!is_printable_key(&k), "{:?}", k);
    }
}

#[test]
fn keyboard_events_count_only_while_tracking() {
    let mut s = TypingStats::new();
    assert_eq!(on_keyboard_event_at(&mut s, false, Some(Key::KeyQ), at(1, 0)), None);
    assert_eq!(s.total_keystrokes, 0);
    assert_eq!(on_keyboard_event_at(&mut s, true, None, at(1, 0)), None);
    assert_eq!(s.total_keystrokes, 0);
    assert_eq!(on_keyboard_event_at(&mut s, true, Some(Key::KeyQ), at(1, 0)), Some(1));
    assert_eq!(on_keyboard_event_at(&mut s, true, Some(Key::ShiftLeft), at(2, 0)), Some(2));
    assert_eq!(s.printable_chars, 1);
}

#[test]
fn keyboard_events_on_the_clock() {
    let mut s = TypingStats::new();
    assert_eq!(on_keyboard_event(&mut s, true, Some(Key::KeyA)), Some(1));
    assert_eq!(on_keyboard_event(&mut s, false, Some(Key::KeyA)), None);
    assert_eq!(on_keyboard_event(&mut s, true, Some(Key::Tab)), Some(2));
    assert_eq!(s.printable_chars, 1);
    assert!(s.session_start.is_some());
}
