//! The watchdog: it reads the shared statement, judges its age, and flags a
//! statement whose message no longer fits. It holds no key and signs nothing.

use crate::canary::{SongView, SparrowSong, WATCHDOG_OVERRIDE};
use crate::config::{Config, ConfigView};
use crate::text::{decimal, magnitude, same_text, signed_decimal_text, text_of};
use crate::time::{Elapsed, Timestamp};
use vstd::prelude::*;

verus! {

/// File that the watchdog looks at where none is named.
pub const DEFAULT_CANARY_PATH: &'static str = "sparrow-song.json";

/// Seconds between two looks at the statement where none are given.
pub const DEFAULT_CHECK_INTERVAL_SECS: u64 = 300;

/// Why a tick was skipped.
#[derive(Debug, Clone, Copy, PartialEq, Eq)]
pub enum WatchdogError {
    /// The statement's time is no RFC 3339 date and time.
    InvalidTimestamp,
}

/// What one look at the statement found.
#[derive(Debug, Clone, PartialEq, Eq)]
pub struct Tick {
    /// Whether the statement is older than allowed.
    pub stale: bool,
    /// Age of the statement.
    pub age: Elapsed,
    /// The statement to write in place of the one read, where its message
    /// does not fit its age; `None` where nothing is to be written.
    pub rewrite: Option<SparrowSong>,
}

/// The age threshold where none is given: one hour more than the signer's
/// interval, and never more than `i64::MAX`.
pub fn default_max_age_hours(interval_hours: u64) -> (hours: i64)
    ensures
        hours == if interval_hours + 1 <= i64::MAX {
            interval_hours + 1
        } else {
            i64::MAX as int
        },
{
    if interval_hours < i64::MAX as u64 {
        (interval_hours + 1) as i64
    } else {
        i64::MAX
    }
}

/// Whether a statement signed at `timestamp` is older than `max_age_hours`
/// hours at `now`.
pub open spec fn stale_at(timestamp: Timestamp, now: Timestamp, max_age_hours: int) -> bool {
    now.as_nanos() - timestamp.as_nanos() > max_age_hours * 3_600_000_000_000
}

/// The message that a statement ought to carry.
pub open spec fn expected_message(stale: bool, config: ConfigView) -> Seq<char> {
    if stale {
        config.message_overdue
    } else {
        config.message_normal
    }
}

/// A statement with its message replaced by the watchdog: the sentinel takes
/// the place of the signature, and all else stays.
pub open spec fn overridden(song: SongView, message: Seq<char>) -> SongView {
    SongView { message, signature: WATCHDOG_OVERRIDE@, ..song }
}

/// The statement that a tick at `now` writes in place of a statement signed
/// at `timestamp`, if it writes one: none where the message fits the age.
pub open spec fn rewrite_at(
    song: SongView,
    timestamp: Timestamp,
    now: Timestamp,
    max_age_hours: int,
    config: ConfigView,
) -> Option<SongView> {
    let expected = expected_message(stale_at(timestamp, now, max_age_hours), config);
    if song.message == expected {
        None
    } else {
        Some(overridden(song, expected))
    }
}

/// The statement that one tick writes, if it writes one: none where the
/// statement's time cannot be read or its message fits its age.
pub open spec fn rewrite_of(
    song: SongView,
    now: Timestamp,
    max_age_hours: int,
    config: ConfigView,
) -> Option<SongView> {
    match Timestamp::parsed(song.timestamp) {
        None => None,
        Some(timestamp) => rewrite_at(song, timestamp, now, max_age_hours, config),
    }
}

/// The shared statement after one tick.
pub open spec fn after_tick(
    song: SongView,
    now: Timestamp,
    max_age_hours: int,
    config: ConfigView,
) -> SongView {
    match rewrite_of(song, now, max_age_hours, config) {
        Some(written) => written,
        None => song,
    }
}

fn clone_text(text: &Option<String>) -> (copy: Option<String>)
    ensures
        text_of(copy) == text_of(*text),
{
    match text {
        Some(t) => Some(t.clone()),
        None => None,
    }
}

/// Judges a statement that was signed at `timestamp`, at the time `now`.
///
/// The statement counts as stale where it is older than `max_age_hours`
/// hours, and ought to carry the overdue message then and the normal message
/// otherwise. Where it does, nothing is to be written. Where it does not, the
/// statement to write has the fitting message and the sentinel in place of
/// the signature; its time, public key and log hash are those of the
/// statement read.
pub fn judge(
    song: &SparrowSong,
    timestamp: Timestamp,
    now: Timestamp,
    max_age_hours: i64,
    config: &Config,
) -> (tick: Tick)
    ensures
        tick.age.nanos == now.as_nanos() - timestamp.as_nanos(),
        tick.stale == stale_at(timestamp, now, max_age_hours as int),
        match tick.rewrite {
            Some(written) => rewrite_at(song@, timestamp, now, max_age_hours as int, config@)
                == Some(written@),
            None => rewrite_at(song@, timestamp, now, max_age_hours as int, config@) is None,
        },
{
    let age = now.since(&timestamp);
    let stale = age.exceeds_hours(max_age_hours as i128);
    let expected = if stale {
        &config.message_overdue
    } else {
        &config.message_normal
    };
    if same_text(song.message.as_str(), expected.as_str()) {
        Tick { stale, age, rewrite: None }
    } else {
        let written = SparrowSong {
            timestamp: song.timestamp.clone(),
            message: expected.clone(),
            signature: WATCHDOG_OVERRIDE.to_owned(),
            public_key: song.public_key.clone(),
            log_hash: clone_text(&song.log_hash),
        };
        Tick { stale, age, rewrite: Some(written) }
    }
}

/// One tick of the watchdog on the statement as read, at the time `now`.
///
/// The tick is skipped with an error where the statement's time cannot be
/// read. Otherwise the statement is judged by the time it names: see `judge`.
pub fn check_and_update(
    song: &SparrowSong,
    now: Timestamp,
    max_age_hours: i64,
    config: &Config,
) -> (r: Result<Tick, WatchdogError>)
    ensures
        match Timestamp::parsed(song.timestamp@) {
            None => r matches Err(e) && e == WatchdogError::InvalidTimestamp,
            Some(timestamp) => {
                &&& r matches Ok(tick)
                &&& tick.age.nanos == now.as_nanos() - timestamp.as_nanos()
                &&& tick.stale == stale_at(timestamp, now, max_age_hours as int)
                &&& match tick.rewrite {
                    Some(written) => rewrite_of(song@, now, max_age_hours as int, config@) == Some(
                        written@,
                    ),
                    None => rewrite_of(song@, now, max_age_hours as int, config@) is None,
                }
            },
        },
{
    match Timestamp::parse(song.timestamp.as_str()) {
        Some(timestamp) => Ok(judge(song, timestamp, now, max_age_hours, config)),
        None => Err(WatchdogError::InvalidTimestamp),
    }
}

/// A second tick writes nothing: after any tick, another tick at a time on
/// the same side of the age threshold finds the statement as it should be
/// and leaves it as it is.
pub proof fn lemma_second_tick_writes_nothing(
    song: SongView,
    first: Timestamp,
    second: Timestamp,
    max_age_hours: int,
    config: ConfigView,
)
    requires
        Timestamp::parsed(song.timestamp) matches Some(timestamp) ==> stale_at(
            timestamp,
            first,
            max_age_hours,
        ) == stale_at(timestamp, second, max_age_hours),
    ensures
        rewrite_of(after_tick(song, first, max_age_hours, config), second, max_age_hours, config)
            is None,
        after_tick(after_tick(song, first, max_age_hours, config), second, max_age_hours, config)
            == after_tick(song, first, max_age_hours, config),
{
}

/// A tick on a statement that carries the normal message and is older than
/// allowed flags it: the statement written has the overdue message and the
/// sentinel, and the time and public key of the statement read. This needs
/// the two messages to differ: where they are the same text, every message
/// fits and nothing is written.
pub proof fn lemma_stale_statement_is_flagged(
    song: SongView,
    now: Timestamp,
    max_age_hours: int,
    config: ConfigView,
)
    requires
        song.message == config.message_normal,
        config.message_normal != config.message_overdue,
        Timestamp::parsed(song.timestamp) matches Some(timestamp) && stale_at(
            timestamp,
            now,
            max_age_hours,
        ),
    ensures
        rewrite_of(song, now, max_age_hours, config) matches Some(written) && {
            &&& written.message == config.message_overdue
            &&& written.signature == WATCHDOG_OVERRIDE@
            &&& written.timestamp == song.timestamp
            &&& written.public_key == song.public_key
            &&& written.log_hash == song.log_hash
        },
{
}

/// A tick never leaves a statement behind that could pass for signed without
/// being so: where it writes, it writes the sentinel, and where it does not,
/// the statement stays as it was.
pub proof fn lemma_tick_keeps_statement_sound(
    song: SongView,
    now: Timestamp,
    max_age_hours: int,
    config: ConfigView,
)
    requires
        song.sound(),
    ensures
        after_tick(song, now, max_age_hours, config).sound(),
        rewrite_of(song, now, max_age_hours, config) matches Some(written) ==> written.is_override()
            && !written.verifies(),
{
    if let Some(written) = rewrite_of(song, now, max_age_hours, config) {
        crate::canary::lemma_override_never_verifies(written);
    }
}

/// Division that rounds toward zero, for a positive divisor.
pub open spec fn div_toward_zero(a: int, b: int) -> int {
    if a >= 0 {
        a / b
    } else {
        -((-a) / b)
    }
}

impl Elapsed {
    /// Whole seconds of the span, rounded toward zero.
    pub open spec fn whole_seconds(self) -> int {
        div_toward_zero(self.nanos as int, 1_000_000_000)
    }

    /// Whole hours of the span, rounded toward zero.
    pub open spec fn whole_hours(self) -> int {
        div_toward_zero(self.whole_seconds(), 3600)
    }

    /// Whole minutes of the span past its whole hours, with the sign of the
    /// span.
    pub open spec fn odd_minutes(self) -> int {
        let minutes = div_toward_zero(self.whole_seconds(), 60);
        minutes - 60 * div_toward_zero(minutes, 60)
    }

    /// The span as shown to people: hours and minutes where it is an hour or
    /// more, minutes alone otherwise.
    pub open spec fn shown(self) -> Seq<char> {
        if self.whole_hours() > 0 {
            signed_decimal_text(self.whole_hours()) + "h "@ + signed_decimal_text(
                self.odd_minutes(),
            ) + "m"@
        } else {
            signed_decimal_text(self.odd_minutes()) + "m"@
        }
    }
}

/// Writes a span of time for people to read, such as `25h 3m` or `42m`.
pub fn format_duration(d: Elapsed) -> (text: String)
    ensures
        text@ == d.shown(),
{
    let negative = d.nanos < 0;
    let seconds: u128 = magnitude(d.nanos) / 1_000_000_000;
    let hours: u128 = seconds / 3600;
    let minutes: u128 = (seconds / 60) % 60;
    proof {
        reveal_strlit("-");
    }
    if !negative && hours > 0 {
        let mut text = decimal(hours);
        text.append("h ");
        text.append(decimal(minutes).as_str());
        text.append("m");
        text
    } else if negative && minutes > 0 {
        let mut text = "-".to_owned();
        text.append(decimal(minutes).as_str());
        text.append("m");
        text
    } else {
        let mut text = decimal(minutes);
        text.append("m");
        text
    }
}

/// What is to be said after a tick that rewrote the statement.
pub open spec fn notice_text(stale: bool, age: Elapsed) -> Seq<char> {
    if stale {
        "⚠️  ALERT: Canary is "@ + age.shown() + " old - updated message to overdue"@
    } else {
        "✓ Canary recovered - updated message to normal (age: "@ + age.shown() + ")"@
    }
}

impl Tick {
    /// What is to be said after this tick: an alert where a stale statement
    /// was flagged, word of the recovery where a flag was taken back, and
    /// nothing where nothing was written.
    pub fn notice(&self) -> (text: Option<String>)
        ensures
            match self.rewrite {
                Some(_) => text matches Some(t) && t@ == notice_text(self.stale, self.age),
                None => text is None,
            },
    {
        if self.rewrite.is_none() {
            return None;
        }
        let age = format_duration(self.age);
        if self.stale {
            let mut text = "⚠️  ALERT: Canary is ".to_owned();
            text.append(age.as_str());
            text.append(" old - updated message to overdue");
            Some(text)
        } else {
            let mut text = "✓ Canary recovered - updated message to normal (age: ".to_owned();
            text.append(age.as_str());
            text.append(")");
            Some(text)
        }
    }
}

} // verus!
