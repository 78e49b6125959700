//! The statement that the signer publishes, and the signer itself.

use crate::config::Config;
use crate::crypto::{ed25519_signature, signature_valid, verify_signature, Crypto};
use crate::encoding::{hex_bytes, hex_decode, hex_encode, hex_text, lemma_hex_round_trip};
use crate::publisher::{judged, Delivery, HttpsPublisher, PublishRequest};
use crate::text::{same_text, text_of};
use crate::time::Timestamp;
use vstd::prelude::*;
use vstd::utf8::encode_utf8;

verus! {

/// What stands in place of a signature once the watchdog has rewritten a
/// statement. It is no signature and is never checked as one.
pub const WATCHDOG_OVERRIDE: &'static str = "WATCHDOG_OVERRIDE";

/// The statement shared by signer and watchdog.
#[derive(Debug, Clone, PartialEq, Eq)]
pub struct SparrowSong {
    /// When the statement was signed, as RFC 3339 text.
    pub timestamp: String,
    /// The normal message, or the overdue one.
    pub message: String,
    /// The signature in hexadecimal, or `WATCHDOG_OVERRIDE`.
    pub signature: String,
    /// The signer's public key in hexadecimal.
    pub public_key: String,
    /// Hash of a log kept elsewhere. Nothing here reads it or signs it.
    pub log_hash: Option<String>,
}

/// What a statement holds, as mathematical values.
pub struct SongView {
    pub timestamp: Seq<char>,
    pub message: Seq<char>,
    pub signature: Seq<char>,
    pub public_key: Seq<char>,
    pub log_hash: Option<Seq<char>>,
}

impl View for SparrowSong {
    type V = SongView;

    open spec fn view(&self) -> SongView {
        SongView {
            timestamp: self.timestamp@,
            message: self.message@,
            signature: self.signature@,
            public_key: self.public_key@,
            log_hash: text_of(self.log_hash),
        }
    }
}

/// The text that is signed: time, message and public key, in this order,
/// separated by single line feeds, with none at the end.
pub open spec fn signing_text(timestamp: Seq<char>, message: Seq<char>, public_key: Seq<char>) -> Seq<
    char,
> {
    timestamp + seq!['\n'] + message + seq!['\n'] + public_key
}

impl SongView {
    /// The bytes that a signature of this statement covers.
    pub open spec fn signed_bytes(self) -> Seq<u8> {
        encode_utf8(signing_text(self.timestamp, self.message, self.public_key))
    }

    /// Whether the watchdog's sentinel stands in place of the signature.
    pub open spec fn is_override(self) -> bool {
        self.signature == WATCHDOG_OVERRIDE@
    }

    /// Whether the signature is a valid signature of the statement under the
    /// statement's own public key.
    pub open spec fn verifies(self) -> bool {
        match (hex_bytes(self.public_key), hex_bytes(self.signature)) {
            (Some(public), Some(signature)) => signature_valid(
                public,
                self.signed_bytes(),
                signature,
            ),
            _ => false,
        }
    }

    /// What holds of every statement that signer and watchdog leave behind:
    /// it either carries the sentinel or a signature that verifies.
    pub open spec fn sound(self) -> bool {
        self.is_override() || self.verifies()
    }
}

/// The sentinel is no hexadecimal text, so it never verifies.
pub proof fn lemma_override_never_verifies(song: SongView)
    requires
        song.is_override(),
    ensures
        !song.verifies(),
{
    reveal_strlit("WATCHDOG_OVERRIDE");
}

impl SparrowSong {
    /// The text that a signature of this statement covers.
    pub fn signing_string(&self) -> (text: String)
        ensures
            text@ == signing_text(self.timestamp@, self.message@, self.public_key@),
    {
        proof {
            reveal_strlit("\n");
        }
        let mut text = self.timestamp.clone();
        text.append("\n");
        text.append(self.message.as_str());
        text.append("\n");
        text.append(self.public_key.as_str());
        text
    }

    /// Whether the watchdog's sentinel stands in place of the signature.
    pub fn is_override(&self) -> (sentinel: bool)
        ensures
            sentinel == self@.is_override(),
    {
        same_text(self.signature.as_str(), WATCHDOG_OVERRIDE)
    }

    /// Whether the statement is authentic: signed by the key it names. A
    /// statement that carries the sentinel is not, and no check of the
    /// sentinel as a signature is attempted.
    pub fn verify(&self) -> (authentic: bool)
        ensures
            authentic == self@.verifies(),
    {
        if self.is_override() {
            proof {
                lemma_override_never_verifies(self@);
            }
            return false;
        }
        let public = match hex_decode(self.public_key.as_str()) {
            Ok(bytes) => bytes,
            Err(_) => {
                return false;
            },
        };
        let signature = match hex_decode(self.signature.as_str()) {
            Ok(bytes) => bytes,
            Err(_) => {
                return false;
            },
        };
        let text = self.signing_string();
        verify_signature(public.as_slice(), text.as_str().as_bytes(), signature.as_slice())
    }
}

/// Why no statement could be made.
#[derive(Debug, Clone, Copy, PartialEq, Eq)]
pub enum RefreshError {
    /// The time of signing has no RFC 3339 form.
    TimeOutOfRange,
}

/// The signer: it makes a fresh signed statement at every refresh.
pub struct Canary {
    config: Config,
    crypto: Crypto,
    publisher: Option<HttpsPublisher>,
    last_update: Option<Timestamp>,
}

/// Whether the signer has missed its own schedule at `now`: a statement was
/// emitted before, and more than the refresh interval has passed since.
pub open spec fn overdue(last: Option<Timestamp>, now: Timestamp, interval_hours: nat) -> bool {
    match last {
        Some(t) => now.as_nanos() - t.as_nanos() > interval_hours * 3_600_000_000_000,
        None => false,
    }
}

/// The message of a statement signed at `now`.
pub open spec fn message_at(
    last: Option<Timestamp>,
    now: Timestamp,
    interval_hours: nat,
    normal: Seq<char>,
    late: Seq<char>,
) -> Seq<char> {
    if overdue(last, now, interval_hours) {
        late
    } else {
        normal
    }
}

/// The warning about a statement that could not be forwarded.
pub open spec fn publish_warning(error: Seq<char>) -> Seq<char> {
    "Warning: HTTPS publish failed: "@ + error
}

impl Canary {
    /// The signer's settings.
    pub closed spec fn config(&self) -> Config {
        self.config
    }

    /// The signer's key pair.
    pub closed spec fn crypto(&self) -> Crypto {
        self.crypto
    }

    /// Where the signer forwards its statements, if anywhere.
    pub closed spec fn publisher(&self) -> Option<HttpsPublisher> {
        self.publisher
    }

    /// When the last statement was emitted, as far as the signer knows.
    pub closed spec fn last_update(&self) -> Option<Timestamp> {
        self.last_update
    }

    /// Whether `song` is the statement that this signer emits at `now`, with
    /// `timestamp` as the text of that time: it carries the message by
    /// schedule, the signer's identity in 64 hexadecimal digits, and the
    /// signature over these three in 128 hexadecimal digits.
    pub open spec fn emits(&self, now: Timestamp, timestamp: Seq<char>, song: SongView) -> bool {
        &&& song.timestamp == timestamp
        &&& song.message == message_at(
            self.last_update(),
            now,
            self.config()@.interval_hours,
            self.config()@.message_normal,
            self.config()@.message_overdue,
        )
        &&& song.public_key == self.crypto().identity()
        &&& song.public_key.len() == 64
        &&& song.signature == hex_text(
            ed25519_signature(self.crypto().secret_bytes(), song.signed_bytes()),
        )
        &&& song.signature.len() == 128
        &&& song.log_hash is None
    }

    /// The time of an existing statement, if there is one and its time can be
    /// read.
    pub fn read_last_timestamp(existing: Option<&SparrowSong>) -> (last: Option<Timestamp>)
        ensures
            last == match existing {
                Some(song) => Timestamp::parsed(song.timestamp@),
                None => None,
            },
    {
        match existing {
            Some(song) => Timestamp::parse(song.timestamp.as_str()),
            None => None,
        }
    }

    /// A signer with the given settings and key pair, whose last statement
    /// was emitted at `last_update`, if it emitted one. It forwards
    /// statements where the settings name an address.
    pub fn resuming(config: Config, crypto: Crypto, last_update: Option<Timestamp>) -> (canary:
        Canary)
        ensures
            canary.config() == config,
            canary.crypto() == crypto,
            canary.last_update() == last_update,
            match canary.publisher() {
                Some(p) => text_of(config.publish_url) == Some(p.url()) && p.auth_token()
                    == text_of(config.publish_token),
                None => config.publish_url is None,
            },
    {
        let publisher = match &config.publish_url {
            Some(url) => {
                let token = match &config.publish_token {
                    Some(t) => Some(t.clone()),
                    None => None,
                };
                Some(HttpsPublisher::new(url.clone(), token))
            },
            None => None,
        };
        Canary { config, crypto, publisher, last_update }
    }

    /// A signer with the given settings and key pair. It takes the time of
    /// its last statement from the statement that exists already, so that a
    /// restart alone does not make it late.
    pub fn new(config: Config, crypto: Crypto, existing: Option<&SparrowSong>) -> (canary: Canary)
        ensures
            canary.config() == config,
            canary.crypto() == crypto,
            canary.last_update() == match existing {
                Some(song) => Timestamp::parsed(song.timestamp@),
                None => None,
            },
            match canary.publisher() {
                Some(p) => text_of(config.publish_url) == Some(p.url()) && p.auth_token()
                    == text_of(config.publish_token),
                None => config.publish_url is None,
            },
    {
        let last_update = Canary::read_last_timestamp(existing);
        Canary::resuming(config, crypto, last_update)
    }

    /// Whether the signer has missed its own schedule at `now`.
    pub fn is_overdue(&self, now: Timestamp) -> (late: bool)
        ensures
            late == overdue(self.last_update(), now, self.config()@.interval_hours),
    {
        match self.last_update {
            Some(last) => now.since(&last).exceeds_hours(self.config.interval_hours as i128),
            None => false,
        }
    }

    /// Makes the signed statement for the time `now`, whose RFC 3339 text is
    /// `timestamp`. The statement carries the overdue message where the
    /// signer has missed its own schedule and the normal message otherwise;
    /// its signature verifies and is never the sentinel.
    pub fn compose(&self, now: Timestamp, timestamp: String) -> (song: SparrowSong)
        ensures
            self.emits(now, timestamp@, song@),
            song@.verifies(),
            !song@.is_override(),
    {
        let message = if self.is_overdue(now) {
            self.config.message_overdue.clone()
        } else {
            self.config.message_normal.clone()
        };
        let mut song = SparrowSong {
            timestamp,
            message,
            signature: String::new(),
            public_key: self.crypto.public_key_hex(),
            log_hash: None,
        };
        let to_sign = song.signing_string();
        let signature = self.crypto.sign(to_sign.as_str().as_bytes());
        song.signature = hex_encode(signature.as_slice());
        proof {
            lemma_hex_round_trip(self.crypto().public_bytes());
            lemma_hex_round_trip(signature@);
            reveal_strlit("WATCHDOG_OVERRIDE");
        }
        song
    }

    /// Makes the signed statement for the time `now`, or fails where that
    /// time has no RFC 3339 text. The signer's memory of its last statement
    /// is left as it is: see `written`.
    pub fn refresh_at(&self, now: Timestamp) -> (r: Result<SparrowSong, RefreshError>)
        ensures
            match r {
                Ok(song) => {
                    &&& now.text() matches Some(timestamp)
                    &&& self.emits(now, timestamp, song@)
                    &&& song@.verifies()
                    &&& !song@.is_override()
                },
                Err(e) => e == RefreshError::TimeOutOfRange && now.text() is None,
            },
    {
        match now.to_rfc3339() {
            Some(timestamp) => Ok(self.compose(now, timestamp)),
            None => Err(RefreshError::TimeOutOfRange),
        }
    }

    /// Makes the signed statement for the present moment, and says which
    /// moment that was. The present moment always has an RFC 3339 text, so
    /// this never fails: the statement is the one that `refresh_at` makes
    /// for that moment.
    pub fn refresh(&self) -> (r: Result<(Timestamp, SparrowSong), RefreshError>)
        ensures
            r matches Ok((now, song)) && {
                &&& now.text() matches Some(timestamp)
                &&& self.emits(now, timestamp, song@)
                &&& song@.verifies()
                &&& !song@.is_override()
            },
    {
        let now = Timestamp::now();
        match self.refresh_at(now) {
            Ok(song) => Ok((now, song)),
            Err(e) => Err(e),
        }
    }

    /// Records that the statement made for the time `at` has been written,
    /// and says how the statement, serialized as `json`, is to be forwarded,
    /// if it is. Only a statement that has been written counts as the
    /// signer's last one, and only such a statement is forwarded.
    pub fn written(&mut self, at: Timestamp, json: &str) -> (request: Option<PublishRequest>)
        ensures
            final(self).last_update() == Some(at),
            final(self).config() == old(self).config(),
            final(self).crypto() == old(self).crypto(),
            final(self).publisher() == old(self).publisher(),
            match request {
                Some(q) => old(self).publisher() matches Some(p) && p.asks(json@, q),
                None => old(self).publisher() is None,
            },
    {
        self.last_update = Some(at);
        match &self.publisher {
            Some(publisher) => Some(publisher.request(json)),
            None => None,
        }
    }

    /// What is to be said of an attempt to forward a statement: nothing
    /// where the server took it, and a warning otherwise. A failure to
    /// forward never fails the refresh and is not tried again before the
    /// next one. A signer that forwards nothing has nothing to say.
    pub fn forwarded(&self, delivery: &Delivery) -> (warning: Option<String>)
        ensures
            match (self.publisher(), judged(*delivery)) {
                (Some(_), Err(text)) => warning matches Some(w) && w@ == publish_warning(text),
                _ => warning is None,
            },
    {
        let publisher = match &self.publisher {
            Some(p) => p,
            None => {
                return None;
            },
        };
        match publisher.publish(delivery) {
            Ok(_) => None,
            Err(e) => {
                let mut warning = "Warning: HTTPS publish failed: ".to_owned();
                warning.append(e.as_str());
                Some(warning)
            },
        }
    }
}

} // verus!
