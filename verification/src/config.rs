//! Settings shared by the signer and the watchdog.

use crate::text::text_of;
use std::time::Duration;
use vstd::prelude::*;

verus! {

/// Total length of a `Duration` in nanoseconds, as `Duration::as_nanos` reports it.
pub uninterp spec fn duration_nanos(d: Duration) -> nat;

/// `Duration::from_secs` builds a duration of exactly the given number of whole
/// seconds, with no fractional part.
pub assume_specification[ Duration::from_secs ](secs: u64) -> (d: Duration)
    ensures
        duration_nanos(d) == secs * 1_000_000_000,
;

/// Settings of one beacon.
#[derive(Debug, Clone, PartialEq, Eq)]
pub struct Config {
    /// Hours between two refreshes of the statement.
    pub interval_hours: u64,
    /// Where the statement is written.
    pub output_path: String,
    /// Message of a statement that is on schedule.
    pub message_normal: String,
    /// Message of a statement that is late.
    pub message_overdue: String,
    /// Where the statement is forwarded, if anywhere.
    pub publish_url: Option<String>,
    /// Bearer token sent along when forwarding.
    pub publish_token: Option<String>,
}

/// What a `Config` holds, as mathematical values.
pub struct ConfigView {
    pub interval_hours: nat,
    pub output_path: Seq<char>,
    pub message_normal: Seq<char>,
    pub message_overdue: Seq<char>,
    pub publish_url: Option<Seq<char>>,
    pub publish_token: Option<Seq<char>>,
}

impl View for Config {
    type V = ConfigView;

    open spec fn view(&self) -> ConfigView {
        ConfigView {
            interval_hours: self.interval_hours as nat,
            output_path: self.output_path@,
            message_normal: self.message_normal@,
            message_overdue: self.message_overdue@,
            publish_url: text_of(self.publish_url),
            publish_token: text_of(self.publish_token),
        }
    }
}

/// The settings used when no configuration file exists.
pub open spec fn default_view() -> ConfigView {
    ConfigView {
        interval_hours: 24,
        output_path: "sparrow-song.json"@,
        message_normal: "All systems chirping normally:)"@,
        message_overdue: "The nest has gone quiet:("@,
        publish_url: None,
        publish_token: None,
    }
}

/// A configuration as it is used: a zero interval stands for the default one.
pub open spec fn effective(c: ConfigView) -> ConfigView {
    if c.interval_hours == 0 {
        ConfigView { interval_hours: 24, ..c }
    } else {
        c
    }
}

pub fn default_interval_hours() -> (hours: u64)
    ensures
        hours == 24,
{
    24
}

pub fn default_output_path() -> (path: String)
    ensures
        path@ == "sparrow-song.json"@,
{
    "sparrow-song.json".to_owned()
}

pub fn default_message_normal() -> (message: String)
    ensures
        message@ == "All systems chirping normally:)"@,
{
    "All systems chirping normally:)".to_owned()
}

pub fn default_message_overdue() -> (message: String)
    ensures
        message@ == "The nest has gone quiet:("@,
{
    "The nest has gone quiet:(".to_owned()
}

impl Config {
    /// Settles the configuration from what the configuration file held, if there
    /// was one: without a file the defaults apply, and a zero interval in the
    /// file is replaced by the default interval.
    pub fn load_or_default(loaded: Option<Config>) -> (config: Config)
        ensures
            config@ == match loaded {
                Some(c) => effective(c@),
                None => default_view(),
            },
    {
        match loaded {
            Some(mut config) => {
                if config.interval_hours == 0 {
                    config.interval_hours = default_interval_hours();
                }
                config
            },
            None => Config {
                interval_hours: default_interval_hours(),
                output_path: default_output_path(),
                message_normal: default_message_normal(),
                message_overdue: default_message_overdue(),
                publish_url: None,
                publish_token: None,
            },
        }
    }

    /// Seconds between two refreshes.
    pub open spec fn interval_secs(&self) -> nat {
        (self.interval_hours * 3600) as nat
    }

    /// The refresh interval as a `Duration`.
    pub fn interval_duration(&self) -> (interval: Duration)
        requires
            self.interval_hours * 3600 <= u64::MAX,
        ensures
            duration_nanos(interval) == self.interval_secs() * 1_000_000_000,
    {
        Duration::from_secs(self.interval_hours * 3600)
    }
}

} // verus!
