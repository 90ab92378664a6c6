//! The decisions behind the application's commands, tray menu and windows.
use vstd::prelude::*;
use crate::time::{
    Timestamp, utc_calendar_date, format_utc_date, utc_now, MIN_UTC_SECONDS, MAX_UTC_SECONDS,
    SECONDS_PER_DAY,
};

verus! {

/// Days covered by the weekly statistics.
pub const WEEK_DAYS: i64 = 7;

/// Days covered by the monthly statistics.
pub const MONTH_DAYS: i64 = 30;

/// An inclusive range of calendar days, each written `%Y-%m-%d`.
#[derive(Clone, Debug)]
pub struct DateRange {
    pub start: String,
    pub end: String,
}

/// `range` runs from the UTC day `days` days before Unix second `end_secs`
/// to the UTC day of `end_secs`.
pub open spec fn names_days_before(range: DateRange, end_secs: int, days: int) -> bool {
    &&& range.start@ == utc_calendar_date((end_secs - days * 86_400) as i64)
    &&& range.end@ == utc_calendar_date(end_secs as i64)
}

/// Whether both ends of a range of `days` days ending at `end_secs` are dates
/// that can be written.
pub open spec fn range_in_calendar(end_secs: int, days: int) -> bool {
    MIN_UTC_SECONDS + days * 86_400 <= end_secs <= MAX_UTC_SECONDS
}

/// The days from `days` days before `now` to the day of `now`.
fn range_ending_at(now: Timestamp, days: i64) -> (r: Option<DateRange>)
    requires
        0 <= days <= MONTH_DAYS,
    ensures
        r is Some <==> range_in_calendar(now.secs as int, days as int),
        r matches Some(range) ==> names_days_before(range, now.secs as int, days as int),
{
    let span = days * SECONDS_PER_DAY;
    if now.secs < MIN_UTC_SECONDS + span {
        return None;
    }
    let start_secs = now.secs - span;
    match format_utc_date(start_secs) {
        Some(start) => match format_utc_date(now.secs) {
            Some(end) => Some(DateRange { start, end }),
            None => None,
        },
        None => None,
    }
}

/// The days of the weekly statistics at `now`: from seven days before to today (UTC).
pub fn weekly_range_at(now: Timestamp) -> (r: Option<DateRange>)
    ensures
        r is Some <==> range_in_calendar(now.secs as int, 7),
        r matches Some(range) ==> names_days_before(range, now.secs as int, 7),
{
    range_ending_at(now, WEEK_DAYS)
}

/// The days of the monthly statistics at `now`: from thirty days before to today (UTC).
pub fn monthly_range_at(now: Timestamp) -> (r: Option<DateRange>)
    ensures
        r is Some <==> range_in_calendar(now.secs as int, 30),
        r matches Some(range) ==> names_days_before(range, now.secs as int, 30),
{
    range_ending_at(now, MONTH_DAYS)
}

/// The days of the weekly statistics now, by the system clock; `None` when
/// the clock cannot be read.
pub fn weekly_range() -> (r: Option<DateRange>)
    ensures
        r matches Some(range) ==> exists|secs: int|
            0 <= secs <= MAX_UTC_SECONDS && #[trigger] names_days_before(range, secs, 7),
{
    match utc_now() {
        Some(now) => weekly_range_at(now),
        None => None,
    }
}

/// The days of the monthly statistics now, by the system clock; `None` when
/// the clock cannot be read.
pub fn monthly_range() -> (r: Option<DateRange>)
    ensures
        r matches Some(range) ==> exists|secs: int|
            0 <= secs <= MAX_UTC_SECONDS && #[trigger] names_days_before(range, secs, 30),
{
    match utc_now() {
        Some(now) => monthly_range_at(now),
        None => None,
    }
}

/// The day whose statistics are asked for at `now`: the requested one, else
/// today (UTC).
pub fn daily_query_date_at(requested: Option<String>, now: Timestamp) -> (r: Option<String>)
    ensures
        requested is Some ==> r == requested,
        requested is None ==> (r is Some <==> MIN_UTC_SECONDS <= now.secs <= MAX_UTC_SECONDS),
        requested is None ==> (r matches Some(day) ==> day@ == utc_calendar_date(now.secs)),
{
    match requested {
        Some(day) => Some(day),
        None => format_utc_date(now.secs),
    }
}

/// The day whose statistics are asked for: the requested one, else today
/// (UTC) by the system clock; `None` when today is needed and the clock
/// cannot be read.
pub fn daily_query_date(requested: Option<String>) -> (r: Option<String>)
    ensures
        requested is Some ==> r == requested,
        requested is None ==> (r matches Some(day) ==> exists|secs: i64|
            0 <= secs <= MAX_UTC_SECONDS && day@ == #[trigger] utc_calendar_date(secs)),
{
    match requested {
        Some(day) => Some(day),
        None => match utc_now() {
            Some(now) => format_utc_date(now.secs),
            None => None,
        },
    }
}

/// The switches of keystroke tracking: whether key presses are counted, and
/// whether the keyboard listener has been started (it is started only once).
pub open spec fn start_request(tracking: bool, listener_started: bool) -> (bool, bool, bool) {
    (true, true, !listener_started)
}

/// The switches after a stop request: counting stops, the listener stays.
pub open spec fn stop_request(tracking: bool, listener_started: bool) -> (bool, bool) {
    (false, listener_started)
}

/// Switches tracking on, and tells whether the keyboard listener is to be
/// started: only when it has not been started before, after which it counts
/// as started.
pub fn begin_tracking(tracking: &mut bool, listener_started: &mut bool) -> (start_listener: bool)
    ensures
        (*final(tracking), *final(listener_started), start_listener) == start_request(
            *old(tracking),
            *old(listener_started),
        ),
{
    *tracking = true;
    if *listener_started {
        return false;
    }
    *listener_started = true;
    true
}

/// Switches tracking off; the keyboard listener keeps running and counts
/// nothing until tracking is switched on again.
pub fn end_tracking(tracking: &mut bool, listener_started: &bool)
    ensures
        (*final(tracking), *listener_started) == stop_request(*old(tracking), *listener_started),
{
    *tracking = false;
}

/// The switches after the requests `requests` in order, from `(tracking,
/// listener_started)`: `true` stands for a start request, `false` for a stop.
pub open spec fn switches_after(tracking: bool, listener_started: bool, requests: Seq<bool>) -> (
    bool,
    bool,
)
    decreases requests.len(),
{
    if requests.len() == 0 {
        (tracking, listener_started)
    } else {
        let before = switches_after(tracking, listener_started, requests.drop_last());
        if requests.last() {
            let after = start_request(before.0, before.1);
            (after.0, after.1)
        } else {
            stop_request(before.0, before.1)
        }
    }
}

/// How many times the requests `requests` start the keyboard listener.
pub open spec fn listener_starts(tracking: bool, listener_started: bool, requests: Seq<bool>) -> nat
    decreases requests.len(),
{
    if requests.len() == 0 {
        0
    } else {
        let before = switches_after(tracking, listener_started, requests.drop_last());
        listener_starts(tracking, listener_started, requests.drop_last()) + if requests.last()
            && start_request(before.0, before.1).2 {
            1nat
        } else {
            0nat
        }
    }
}

/// The keyboard listener is started at most once: from switches that are
/// both off, any sequence of start and stop requests starts it once if it
/// holds a start request and never otherwise, and afterwards it counts as
/// started exactly when it was.
pub proof fn law_listener_started_once(requests: Seq<bool>)
    ensures
        listener_starts(false, false, requests) <= 1,
        listener_starts(false, false, requests) == 1 <==> requests.contains(true),
        switches_after(false, false, requests).1 <==> requests.contains(true),
    decreases requests.len(),
{
    if requests.len() > 0 {
        let prefix = requests.drop_last();
        law_listener_started_once(prefix);
        if prefix.contains(true) {
            let i = choose|i: int| 0 <= i < prefix.len() && prefix[i] == true;
            assert(requests[i] == prefix[i]);
        }
        if requests.last() {
            assert(requests[requests.len() - 1] == true);
        }
        if requests.contains(true) && !requests.last() {
            let i = choose|i: int| 0 <= i < requests.len() && requests[i] == true;
            assert(i < requests.len() - 1);
            assert(prefix[i] == requests[i]);
        }
    }
}

/// The entries of the tray menu.
#[derive(Clone, Copy, Debug, PartialEq, Eq, Structural)]
pub enum TrayCommand {
    ShowStats,
    StartTracking,
    StopTracking,
    Quit,
}

/// The tray entry a menu identifier stands for.
pub open spec fn menu_command(id: Seq<char>) -> Option<TrayCommand> {
    if id == "show_stats"@ {
        Some(TrayCommand::ShowStats)
    } else if id == "start_tracking"@ {
        Some(TrayCommand::StartTracking)
    } else if id == "stop_tracking"@ {
        Some(TrayCommand::StopTracking)
    } else if id == "quit"@ {
        Some(TrayCommand::Quit)
    } else {
        None
    }
}

/// Compares two texts character by character.
pub fn text_equals(a: &str, b: &str) -> (r: bool)
    ensures
        r == (a@ == b@),
{
    let n = a.unicode_len();
    if n != b.unicode_len() {
        return false;
    }
    let mut i: usize = 0;
    while i < n
        invariant
            n == a@.len(),
            n == b@.len(),
            i <= n,
            forall|j: int| 0 <= j < i ==> a@[j] == b@[j],
        decreases n - i,
    {
        if a.get_char(i) != b.get_char(i) {
            return false;
        }
        i = i + 1;
    }
    assert(a@ =~= b@);
    true
}

impl TrayCommand {
    /// The tray entry with menu identifier `id`, if any.
    pub fn from_menu_id(id: &str) -> (r: Option<TrayCommand>)
        ensures
            r == menu_command(id@),
    {
        if text_equals(id, "show_stats") {
            Some(TrayCommand::ShowStats)
        } else if text_equals(id, "start_tracking") {
            Some(TrayCommand::StartTracking)
        } else if text_equals(id, "stop_tracking") {
            Some(TrayCommand::StopTracking)
        } else if text_equals(id, "quit") {
            Some(TrayCommand::Quit)
        } else {
            None
        }
    }
}

/// What a click on the tray does to the statistics window.
#[derive(Clone, Copy, Debug, PartialEq, Eq, Structural)]
pub enum WindowAction {
    /// The window is shown: hide it.
    Hide,
    /// The window exists but is hidden: show it, focus it and place it at the tray.
    Show,
    /// There is no window: create it and place it at the tray.
    Create,
}

/// Toggles the statistics window: a visible one is hidden, a hidden one is
/// shown, a missing one is created.
pub fn stats_window_action(exists: bool, visible: bool) -> (a: WindowAction)
    ensures
        !exists ==> a == WindowAction::Create,
        exists && visible ==> a == WindowAction::Hide,
        exists && !visible ==> a == WindowAction::Show,
{
    if exists {
        if visible {
            WindowAction::Hide
        } else {
            WindowAction::Show
        }
    } else {
        WindowAction::Create
    }
}

/// Whether keyboard monitoring is allowed, and on which platform.
#[derive(Clone, Debug)]
pub struct AccessibilityStatus {
    pub granted: bool,
    pub platform: String,
}

impl AccessibilityStatus {
    /// The status reported for a permission check: on macOS the permission
    /// found there; elsewhere no permission is needed.
    pub fn from_check(on_macos: bool, granted: bool) -> (s: AccessibilityStatus)
        ensures
            on_macos ==> s.granted == granted && s.platform@ == "macos"@,
            !on_macos ==> s.granted && s.platform@ == "other"@,
    {
        if on_macos {
            AccessibilityStatus { granted, platform: "macos".to_owned() }
        } else {
            AccessibilityStatus { granted: true, platform: "other".to_owned() }
        }
    }

    /// Whether the system dialog asking for the permission is to be shown:
    /// exactly when it is not granted.
    pub fn needs_prompt(&self) -> (r: bool)
        ensures
            r == !self.granted,
    {
        !self.granted
    }
}

} // verus!
