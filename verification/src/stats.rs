//! Session typing statistics and daily aggregates.
use vstd::prelude::*;
use crate::time::{
    Timestamp, nanos_between, whole_seconds, elapsed_nanos, truncate_to_seconds, utc_now,
    NANOS_PER_SECOND, MAX_UTC_SECONDS,
};

verus! {

/// Seconds of idleness after which the next keystroke opens a new session.
pub const SESSION_IDLE_LIMIT_SECONDS: i64 = 300;

/// The idle limit (five minutes) in nanoseconds.
pub open spec fn idle_limit_nanos() -> int {
    SESSION_IDLE_LIMIT_SECONDS * 1_000_000_000
}

/// A single keystroke event.
#[derive(Clone, Debug)]
pub struct KeystrokeEvent {
    pub key: String,
    pub timestamp: Timestamp,
    pub is_printable: bool,
}

/// Current session typing statistics.
#[derive(Clone, Debug)]
pub struct TypingStats {
    pub total_keystrokes: u64,
    pub printable_chars: u64,
    pub session_start: Option<Timestamp>,
    pub last_keystroke: Option<Timestamp>,
}

/// Whether more than the idle limit has passed between the last keystroke and `now`.
pub open spec fn idle_expired(last: Option<Timestamp>, now: Timestamp) -> bool {
    match last {
        Some(l) => nanos_between(l, now) > idle_limit_nanos(),
        None => false,
    }
}

/// Whole seconds, truncated toward zero, from `start` to `end`.
pub open spec fn session_seconds(start: Timestamp, end: Timestamp) -> int {
    whole_seconds(nanos_between(start, end))
}

impl TypingStats {
    /// The statistics of a session that has not started.
    pub open spec fn fresh() -> TypingStats {
        TypingStats {
            total_keystrokes: 0,
            printable_chars: 0,
            session_start: None,
            last_keystroke: None,
        }
    }

    /// The counts never disagree: printable characters are keystrokes, and a
    /// session has a start exactly when it has a last keystroke.
    pub open spec fn consistent(self) -> bool {
        &&& self.printable_chars <= self.total_keystrokes
        &&& (self.session_start is Some <==> self.last_keystroke is Some)
    }

    /// The statistics on which a keystroke at `now` is counted: a fresh session
    /// once the idle limit has passed, else these.
    pub open spec fn base_for(self, now: Timestamp) -> TypingStats {
        if idle_expired(self.last_keystroke, now) {
            TypingStats::fresh()
        } else {
            self
        }
    }

    /// A keystroke at `now` can be counted without overflowing a counter.
    pub open spec fn can_record(self, is_printable: bool, now: Timestamp) -> bool {
        let base = self.base_for(now);
        &&& base.total_keystrokes < u64::MAX
        &&& (is_printable ==> base.printable_chars < u64::MAX)
    }

    /// The statistics after a keystroke at `now`.
    pub open spec fn after_keystroke(self, is_printable: bool, now: Timestamp) -> TypingStats {
        let base = self.base_for(now);
        TypingStats {
            total_keystrokes: (base.total_keystrokes + 1) as u64,
            printable_chars: if is_printable {
                (base.printable_chars + 1) as u64
            } else {
                base.printable_chars
            },
            session_start: if base.session_start is None {
                Some(now)
            } else {
                base.session_start
            },
            last_keystroke: Some(now),
        }
    }

    /// Whether the session is active at `now`: its last keystroke is less than
    /// the idle limit before `now`.
    pub open spec fn active_at(self, now: Timestamp) -> bool {
        match self.last_keystroke {
            Some(l) => nanos_between(l, now) < idle_limit_nanos(),
            None => false,
        }
    }

    /// The printable characters and the positive whole seconds from the first
    /// to the last keystroke, from which characters per minute are computed.
    pub open spec fn rate_basis(self) -> Option<(u64, u128)> {
        match (self.session_start, self.last_keystroke) {
            (Some(start), Some(end)) => if session_seconds(start, end) > 0 {
                Some((self.printable_chars, session_seconds(start, end) as u128))
            } else {
                None
            },
            _ => None,
        }
    }

    /// Creates the statistics of a session that has not started.
    pub fn new() -> (s: Self)
        ensures
            s == TypingStats::fresh(),
    {
        TypingStats {
            total_keystrokes: 0,
            printable_chars: 0,
            session_start: None,
            last_keystroke: None,
        }
    }

    /// Counts a keystroke made at `now`. A keystroke more than five minutes
    /// after the previous one starts a new session; the first keystroke of a
    /// session sets its start.
    pub fn record_keystroke_at(&mut self, is_printable: bool, now: Timestamp)
        requires
            old(self).can_record(is_printable, now),
        ensures
            *final(self) == old(self).after_keystroke(is_printable, now),
            idle_expired(old(self).last_keystroke, now) ==> final(self).session_start == Some(now),
            !idle_expired(old(self).last_keystroke, now) ==> final(self).total_keystrokes
                == old(self).total_keystrokes + 1,
            final(self).last_keystroke == Some(now),
    {
        if let Some(last) = self.last_keystroke {
            let idle = elapsed_nanos(last, now);
            if idle > SESSION_IDLE_LIMIT_SECONDS as i128 * NANOS_PER_SECOND {
                self.reset_session();
            }
        }
        if self.session_start.is_none() {
            self.session_start = Some(now);
        }
        self.total_keystrokes = self.total_keystrokes + 1;
        if is_printable {
            self.printable_chars = self.printable_chars + 1;
        }
        self.last_keystroke = Some(now);
    }

    /// Counts a keystroke made now, by the system clock, and tells whether it
    /// was counted: a keystroke whose time cannot be read (the clock reads
    /// before 1970 or past the last date `chrono` holds) changes nothing.
    pub fn record_keystroke(&mut self, is_printable: bool) -> (recorded: bool)
        requires
            old(self).total_keystrokes < u64::MAX,
            is_printable ==> old(self).printable_chars < u64::MAX,
        ensures
            recorded ==> exists|now: Timestamp|
                0 <= now.secs <= MAX_UTC_SECONDS && now.nanos < 1_000_000_000 && *final(self)
                    == #[trigger] old(self).after_keystroke(is_printable, now),
            !recorded ==> *final(self) == *old(self),
    {
        match utc_now() {
            Some(now) => {
                self.record_keystroke_at(is_printable, now);
                true
            },
            None => false,
        }
    }

    /// Ends the session: counts go back to zero and the session has no start.
    pub fn reset_session(&mut self)
        ensures
            *final(self) == TypingStats::fresh(),
    {
        self.total_keystrokes = 0;
        self.printable_chars = 0;
        self.session_start = None;
        self.last_keystroke = None;
    }

    /// The printable characters and the whole seconds (truncated toward zero)
    /// from the session start to the last keystroke, when both are known and
    /// at least one second apart: characters per minute are
    /// `chars / (seconds / 60)`, words per minute a fifth of that.
    pub fn rate_basis_of(&self) -> (r: Option<(u64, u128)>)
        ensures
            r == self.rate_basis(),
    {
        match (self.session_start, self.last_keystroke) {
            (Some(start), Some(end)) => {
                let d = elapsed_nanos(start, end);
                let secs = truncate_to_seconds(d);
                if secs > 0 {
                    Some((self.printable_chars, secs as u128))
                } else {
                    None
                }
            },
            _ => None,
        }
    }

    /// Whether the session is active at `now`: less than five minutes have
    /// passed since its last keystroke.
    pub fn is_session_active_at(&self, now: Timestamp) -> (r: bool)
        ensures
            r == self.active_at(now),
    {
        match self.last_keystroke {
            Some(last) => elapsed_nanos(last, now) < SESSION_IDLE_LIMIT_SECONDS as i128
                * NANOS_PER_SECOND,
            None => false,
        }
    }

    /// Whether the session is active now, by the system clock; not active
    /// when the clock cannot be read.
    pub fn is_session_active(&self) -> (r: bool)
        ensures
            self.last_keystroke is None ==> !r,
            r ==> exists|now: Timestamp|
                0 <= now.secs <= MAX_UTC_SECONDS && now.nanos < 1_000_000_000
                    && #[trigger] self.active_at(now),
    {
        match utc_now() {
            Some(now) => self.is_session_active_at(now),
            None => false,
        }
    }
}

impl Default for TypingStats {
    fn default() -> (s: Self)
        ensures
            s == TypingStats::fresh(),
    {
        TypingStats::new()
    }
}

/// The typing rate is measured over whole seconds: when the session has a
/// start and a last keystroke at least one second apart, the rate basis is
/// the printable characters and the largest whole number of seconds that fits
/// in the time from the start to the last keystroke; otherwise there is none.
pub proof fn law_rate_over_whole_seconds(s: TypingStats)
    ensures
        s.rate_basis() matches Some((chars, secs)) ==> {
            &&& chars == s.printable_chars
            &&& s.session_start is Some
            &&& s.last_keystroke is Some
            &&& secs >= 1
            &&& secs * 1_000_000_000 <= nanos_between(s.session_start->0, s.last_keystroke->0)
            &&& nanos_between(s.session_start->0, s.last_keystroke->0) < (secs + 1) * 1_000_000_000
        },
        s.rate_basis() is None <==> (s.session_start is None || s.last_keystroke is None
            || nanos_between(s.session_start->0, s.last_keystroke->0) < 1_000_000_000),
{
    if s.session_start is Some && s.last_keystroke is Some {
        let d = nanos_between(s.session_start->0, s.last_keystroke->0);
        if d >= 0 {
            let q = d / 1_000_000_000;
            assert(q * 1_000_000_000 <= d < (q + 1) * 1_000_000_000) by (nonlinear_arith)
                requires
                    d >= 0,
                    q == d / 1_000_000_000,
            ;
        } else {
            let q = (-d) / 1_000_000_000;
            assert(q >= 0) by (nonlinear_arith)
                requires
                    d < 0,
                    q == (-d) / 1_000_000_000,
            ;
        }
    }
}

/// Activity lasts less than five minutes after the last keystroke: a session
/// is not active at any instant five minutes or more after it, nor at any
/// instant when it has no keystroke, and it is active at every instant from
/// its last keystroke up to (not including) five minutes later.
pub proof fn law_activity_expires(s: TypingStats, now: Timestamp)
    ensures
        s.last_keystroke is None ==> !s.active_at(now),
        s.last_keystroke matches Some(last) ==> (nanos_between(last, now) >= 300_000_000_000
            ==> !s.active_at(now)),
        s.last_keystroke matches Some(last) ==> (0 <= nanos_between(last, now) < 300_000_000_000
            ==> s.active_at(now)),
{
}

/// The statistics after counting the keystrokes `ks` (each: printable or not,
/// and its instant) in order, starting from `s`.
pub open spec fn replay(s: TypingStats, ks: Seq<(bool, Timestamp)>) -> TypingStats
    decreases ks.len(),
{
    if ks.len() == 0 {
        s
    } else {
        replay(s, ks.drop_last()).after_keystroke(ks.last().0, ks.last().1)
    }
}

/// No two consecutive keystrokes of `ks` are more than the idle limit apart.
pub open spec fn without_idle_gap(ks: Seq<(bool, Timestamp)>) -> bool {
    forall|i: int|
        #![trigger ks[i]]
        0 < i < ks.len() ==> nanos_between(ks[i - 1].1, ks[i].1) <= idle_limit_nanos()
}

/// How many keystrokes of `ks` are printable.
pub open spec fn printable_count(ks: Seq<(bool, Timestamp)>) -> nat
    decreases ks.len(),
{
    if ks.len() == 0 {
        0
    } else {
        printable_count(ks.drop_last()) + if ks.last().0 {
            1nat
        } else {
            0nat
        }
    }
}

proof fn lemma_printable_count_bounded(ks: Seq<(bool, Timestamp)>)
    ensures
        printable_count(ks) <= ks.len(),
    decreases ks.len(),
{
    if ks.len() > 0 {
        lemma_printable_count_bounded(ks.drop_last());
    }
}

/// Statistics that start out consistent stay consistent: a new (or reset)
/// session is consistent, and counting a keystroke keeps printable characters
/// within the keystrokes and the session start present with the last keystroke.
pub proof fn law_counts_stay_consistent(s: TypingStats, is_printable: bool, now: Timestamp)
    requires
        s.consistent(),
        s.can_record(is_printable, now),
    ensures
        TypingStats::fresh().consistent(),
        s.after_keystroke(is_printable, now).consistent(),
{
}

/// A session is active at the instant of its last keystroke: counting a
/// keystroke at `now` and then asking whether the session is active at `now`
/// answers yes. A new or reset session is not active and has no typing rate.
pub proof fn law_keystroke_makes_session_active(s: TypingStats, is_printable: bool, now: Timestamp)
    ensures
        s.after_keystroke(is_printable, now).active_at(now),
        !TypingStats::fresh().active_at(now),
        TypingStats::fresh().rate_basis() is None,
{
}

/// A keystroke more than five minutes after the previous one forgets the old
/// session: the result is the same as counting it on a new session, a session
/// that starts at `now` with one keystroke.
pub proof fn law_idle_gap_starts_new_session(s: TypingStats, is_printable: bool, now: Timestamp)
    requires
        idle_expired(s.last_keystroke, now),
    ensures
        s.after_keystroke(is_printable, now) == TypingStats::fresh().after_keystroke(is_printable, now),
        s.after_keystroke(is_printable, now).total_keystrokes == 1,
        s.after_keystroke(is_printable, now).printable_chars == (if is_printable { 1u64 } else { 0u64 }),
        s.after_keystroke(is_printable, now).session_start == Some(now),
{
}

/// A keystroke within five minutes of the previous one continues the session:
/// its start stays, and the counters go up by one (printable characters only
/// for a printable key).
pub proof fn law_keystroke_continues_session(s: TypingStats, is_printable: bool, now: Timestamp)
    requires
        s.last_keystroke is Some,
        s.session_start is Some,
        !idle_expired(s.last_keystroke, now),
        s.can_record(is_printable, now),
    ensures
        s.after_keystroke(is_printable, now).session_start == s.session_start,
        s.after_keystroke(is_printable, now).total_keystrokes == s.total_keystrokes + 1,
        s.after_keystroke(is_printable, now).printable_chars == s.printable_chars + (if is_printable { 1int } else { 0int }),
{
}

/// The counters count keystrokes: counting a run of keystrokes on a new
/// session, none more than five minutes after the one before, gives as many
/// keystrokes as the run holds and as many printable characters as it holds
/// printable keys; the session starts at the first keystroke and its last
/// keystroke is the last one of the run.
pub proof fn law_counters_count_keystrokes(ks: Seq<(bool, Timestamp)>)
    requires
        0 < ks.len() < u64::MAX,
        without_idle_gap(ks),
    ensures
        replay(TypingStats::fresh(), ks).total_keystrokes == ks.len(),
        replay(TypingStats::fresh(), ks).printable_chars == printable_count(ks),
        replay(TypingStats::fresh(), ks).session_start == Some(ks[0].1),
        replay(TypingStats::fresh(), ks).last_keystroke == Some(ks.last().1),
    decreases ks.len(),
{
    let prefix = ks.drop_last();
    if ks.len() == 1 {
        assert(prefix.len() == 0);
        assert(replay(TypingStats::fresh(), prefix) == TypingStats::fresh());
        assert(printable_count(prefix) == 0);
    } else {
        assert forall|i: int| #![trigger prefix[i]] 0 < i < prefix.len() implies
            nanos_between(prefix[i - 1].1, prefix[i].1) <= idle_limit_nanos() by {
            assert(prefix[i] == ks[i]);
            assert(prefix[i - 1] == ks[i - 1]);
        }
        law_counters_count_keystrokes(prefix);
        lemma_printable_count_bounded(ks);
        lemma_printable_count_bounded(prefix);
        let n = ks.len() - 1;
        assert(ks[n] == ks.last());
        assert(prefix[n - 1] == ks[n - 1]);
        assert(prefix.last() == ks[n - 1]);
        assert(prefix[0] == ks[0]);
    }
}

/// Daily aggregated statistics.
#[derive(Clone, Debug)]
pub struct DailyStats {
    pub date: String,
    pub total_keystrokes: u64,
    pub printable_chars: u64,
    pub typing_duration_seconds: u64,
    pub session_count: u32,
}

impl DailyStats {
    /// The printable characters and the typing seconds, from which the average
    /// words per minute are computed, when the day has typing time.
    pub open spec fn wpm_basis(self) -> Option<(u64, u64)> {
        if self.typing_duration_seconds > 0 {
            Some((self.printable_chars, self.typing_duration_seconds))
        } else {
            None
        }
    }

    /// The printable characters and the typing seconds of the day when it has
    /// typing time: the average words per minute are `(chars / (seconds / 60)) / 5`,
    /// and zero when there is none.
    pub fn avg_wpm_basis(&self) -> (r: Option<(u64, u64)>)
        ensures
            r == self.wpm_basis(),
    {
        if self.typing_duration_seconds > 0 {
            Some((self.printable_chars, self.typing_duration_seconds))
        } else {
            None
        }
    }
}

} // verus!
