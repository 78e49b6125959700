use ed25519_dalek::Verifier;
use silent_sparrow::canary::{RefreshError, SparrowSong, WATCHDOG_OVERRIDE};
use silent_sparrow::crypto::Crypto;
use silent_sparrow::publisher::{Delivery, PublishRequest};
use silent_sparrow::time::Timestamp;
use silent_sparrow::{Canary, Config};

const SECRET_B64: &str = "nWGxne/9WmC6hEr0kuwsxERJxWl7MmkZcDusAxyuf2A=";
const PUBLIC_HEX: &str = "d75a980182b10ab7d54bfed3c964073a0ee172f3daa62325af021a68f707511a";
const NOON: i64 = 1_714_564_800;

fn settings(interval_hours: u64) -> Config {
    Config {
        interval_hours,
        output_path: "sparrow-song.json".to_string(),
        message_normal: "All systems chirping normally:)".to_string(),
        message_overdue: "The nest has gone quiet:(".to_string(),
        publish_url: None,
        publish_token: None,
    }
}

fn key() -> Crypto {
    Crypto::from_persisted(SECRET_B64).unwrap()
}

fn at(secs: i64) -> Timestamp {
    Timestamp { secs, nanos: 0 }
}

fn song_of(timestamp: &str) -> SparrowSong {
    SparrowSong {
        timestamp: timestamp.to_string(),
        message: "All systems chirping normally:)".to_string(),
        signature: WATCHDOG_OVERRIDE.to_string(),
        public_key: PUBLIC_HEX.to_string(),
        log_hash: None,
    }
}

#[test]
fn signing_string_is_three_lines_without_a_last_line_feed() {
    let song = SparrowSong {
        timestamp: "T".to_string(),
        message: "M".to_string(),
        signature: "ignored".to_string(),
        public_key: "K".to_string(),
        log_hash: Some("also ignored".to_string()),
    };
    assert_eq!(song.signing_string(), "T\nM\nK");
}

#[test]
fn first_statement_is_normal() {
    let canary = Canary::new(settings(1), key(), None);
    let song = canary.refresh_at(at(NOON)).unwrap();
    assert_eq!(song.message, "All systems chirping normally:)");
    assert_eq!(song.timestamp, "2024-05-01T12:00:00+00:00");
    assert_eq!(song.public_key, PUBLIC_HEX);
    assert_eq!(song.log_hash, None);
}

#[test]
fn statement_ninety_minutes_after_the_last_is_overdue() {
    let previous = song_of("2024-05-01T10:30:00+00:00");
    let canary = Canary::new(settings(1), key(), Some(&previous));
    let song = canary.refresh_at(at(NOON)).unwrap();
    assert_eq!(song.message, "The nest has gone quiet:(");
}

#[test]
fn statement_thirty_minutes_after_the_last_is_normal() {
    let previous = song_of("2024-05-01T11:30:00+00:00");
    let canary = Canary::new(settings(1), key(), Some(&previous));
    let song = canary.refresh_at(at(NOON)).unwrap();
    assert_eq!(song.message, "All systems chirping normally:)");
}

#[test]
fn statement_exactly_one_interval_after_the_last_is_normal() {
    let previous = song_of("2024-05-01T11:00:00+00:00");
    let canary = Canary::new(settings(1), key(), Some(&previous));
    assert!(!canary.is_overdue(at(NOON)));
    assert!(canary.is_overdue(Timestamp { secs: NOON, nanos: 1 }));
    assert_eq!(canary.refresh_at(at(NOON)).unwrap().message, "All systems chirping normally:)");
    assert_eq!(
        canary.refresh_at(Timestamp { secs: NOON, nanos: 1 }).unwrap().message,
        "The nest has gone quiet:("
    );
}

#[test]
fn unreadable_previous_statement_counts_as_none() {
    let previous = song_of("last tuesday");
    assert_eq!(Canary::read_last_timestamp(Some(&previous)), None);
    let canary = Canary::new(settings(1), key(), Some(&previous));
    assert!(!canary.is_overdue(at(NOON + 1_000_000)));
}

#[test]
fn previous_statement_gives_the_last_update() {
    let previous = song_of("2024-05-01T10:30:00+00:00");
    assert_eq!(Canary::read_last_timestamp(Some(&previous)), Some(at(NOON - 5400)));
    assert_eq!(Canary::read_last_timestamp(None), None);
}

#[test]
fn refresh_alone_does_not_move_the_last_update() {
    let mut canary = Canary::new(settings(1), key(), None);
    canary.refresh_at(at(NOON)).unwrap();
    assert!(!canary.is_overdue(at(NOON + 7200)));
    canary.written(at(NOON), "{}");
    assert!(canary.is_overdue(at(NOON + 7200)));
    assert!(!canary.is_overdue(at(NOON + 3600)));
    canary.written(at(NOON + 3600), "{}");
    assert!(!canary.is_overdue(at(NOON + 7200)));
}

#[test]
fn clock_running_backwards_is_not_overdue() {
    let mut canary = Canary::new(settings(1), key(), None);
    canary.written(at(NOON), "{}");
    assert!(!canary.is_overdue(at(NOON - 86_400)));
}

#[test]
fn zero_interval_makes_every_later_statement_overdue() {
    let mut canary = Canary::new(settings(0), key(), None);
    canary.written(at(NOON), "{}");
    assert!(!canary.is_overdue(at(NOON)));
    assert!(canary.is_overdue(Timestamp { secs: NOON, nanos: 1 }));
}

#[test]
fn largest_interval_does_not_overflow() {
    let mut canary = Canary::new(settings(u64::MAX), key(), None);
    canary.written(at(i64::MIN), "{}");
    assert!(!canary.is_overdue(at(i64::MAX)));
}

#[test]
fn statement_is_signed_over_its_signing_string() {
    let canary = Canary::new(settings(1), key(), None);
    let song = canary.refresh_at(at(NOON)).unwrap();
    let expected = format!(
        "2024-05-01T12:00:00+00:00\nAll systems chirping normally:)\n{}",
        PUBLIC_HEX
    );
    assert_eq!(song.signing_string(), expected);
    assert_eq!(song.signature, hex::encode(key().sign(expected.as_bytes())));
    assert_eq!(song.signature.len(), 128);
    let public: [u8; 32] = hex::decode(&song.public_key).unwrap().try_into().unwrap();
    let signature: [u8; 64] = hex::decode(&song.signature).unwrap().try_into().unwrap();
    let verifier = ed25519_dalek::VerifyingKey::from_bytes(&public).unwrap();
    let signature = ed25519_dalek::Signature::from_bytes(&signature);
    assert!(verifier.verify(expected.as_bytes(), &signature).is_ok());
}

#[test]
fn every_refreshed_statement_verifies() {
    let mut canary = Canary::new(settings(1), Crypto::new(), None);
    for step in 0..5 {
        let now = Timestamp { secs: NOON + step * 4000, nanos: 17 };
        let song = canary.refresh_at(now).unwrap();
        assert!(song.verify());
        assert!(!song.is_override());
        assert_eq!(canary.written(now, "{}"), None);
    }
}

#[test]
fn refresh_at_the_present_moment_verifies() {
    let canary = Canary::new(settings(1), Crypto::new(), None);
    let (now, song) = canary.refresh().unwrap();
    assert!(song.verify());
    assert_eq!(Some(song.timestamp), now.to_rfc3339());
    assert_eq!(song.message, "All systems chirping normally:)");
}

#[test]
fn changed_statement_does_not_verify() {
    let canary = Canary::new(settings(1), key(), None);
    let song = canary.refresh_at(at(NOON)).unwrap();
    let mut changed = song.clone();
    changed.message = "The nest has gone quiet:(".to_string();
    assert!(!changed.verify());
    let mut changed = song.clone();
    changed.timestamp = "2024-05-01T12:00:01+00:00".to_string();
    assert!(!changed.verify());
    let mut changed = song.clone();
    changed.public_key = Crypto::new().public_key_hex();
    assert!(!changed.verify());
    let mut changed = song.clone();
    changed.log_hash = Some("abcd".to_string());
    assert!(changed.verify());
}

#[test]
fn upper_case_hexadecimal_verifies_too() {
    let canary = Canary::new(settings(1), key(), None);
    let mut song = canary.refresh_at(at(NOON)).unwrap();
    song.signature = song.signature.to_uppercase();
    assert!(song.verify());
}

#[test]
fn sentinel_is_no_signature() {
    let song = song_of("2024-05-01T12:00:00+00:00");
    assert!(song.is_override());
    assert!(!song.verify());
}

#[test]
fn malformed_fields_do_not_verify() {
    let canary = Canary::new(settings(1), key(), None);
    let song = canary.refresh_at(at(NOON)).unwrap();
    let mut broken = song.clone();
    broken.signature = "zz".to_string();
    assert!(!broken.verify());
    let mut broken = song.clone();
    broken.signature = song.signature[..126].to_string();
    assert!(!broken.verify());
    let mut broken = song.clone();
    broken.public_key = "abc".to_string();
    assert!(!broken.verify());
    let mut broken = song.clone();
    broken.signature = String::new();
    assert!(!broken.verify());
}

#[test]
fn time_without_rfc3339_form_is_an_error() {
    let canary = Canary::new(settings(1), key(), None);
    assert_eq!(canary.refresh_at(at(i64::MAX)).err(), Some(RefreshError::TimeOutOfRange));
}

#[test]
fn written_statement_is_forwarded_where_an_address_is_set() {
    let mut config = settings(1);
    assert_eq!(Canary::new(config.clone(), key(), None).written(at(NOON), "{}"), None);
    config.publish_url = Some("https://example.org/hook".to_string());
    let mut canary = Canary::new(config.clone(), key(), None);
    assert_eq!(
        canary.written(at(NOON), "{\"a\": 1}"),
        Some(PublishRequest {
            url: "https://example.org/hook".to_string(),
            body: "{\"a\": 1}".to_string(),
            authorization: None,
            timeout_secs: 30,
        })
    );
    config.publish_token = Some("tok".to_string());
    let mut canary = Canary::new(config, key(), None);
    let request = canary.written(at(NOON), "{}").unwrap();
    assert_eq!(request.authorization, Some("Bearer tok".to_string()));
    assert!(canary.is_overdue(at(NOON + 3601)));
}

#[test]
fn failure_to_forward_is_a_warning_and_no_more() {
    let mut config = settings(1);
    config.publish_url = Some("https://example.org/hook".to_string());
    let canary = Canary::new(config, key(), None);
    let refused = Delivery::Answered {
        status: 503,
        status_text: "503 Service Unavailable".to_string(),
        body: "try later".to_string(),
    };
    assert_eq!(
        canary.forwarded(&refused),
        Some(
            "Warning: HTTPS publish failed: Server returned 503 Service Unavailable: try later"
                .to_string()
        )
    );
    let lost = Delivery::Failed { reason: "connection reset".to_string() };
    assert_eq!(
        canary.forwarded(&lost),
        Some("Warning: HTTPS publish failed: Request failed: connection reset".to_string())
    );
    let taken = Delivery::Answered {
        status: 201,
        status_text: "201 Created".to_string(),
        body: String::new(),
    };
    assert_eq!(canary.forwarded(&taken), None);
    assert!(!canary.is_overdue(at(NOON)));
}

#[test]
fn signer_without_an_address_has_nothing_to_warn_of() {
    let canary = Canary::new(settings(1), key(), None);
    let lost = Delivery::Failed { reason: "connection reset".to_string() };
    assert_eq!(canary.forwarded(&lost), None);
}

#[test]
fn resumed_signer_knows_its_last_statement() {
    let canary = Canary::resuming(settings(1), key(), Some(at(NOON - 5400)));
    assert!(canary.is_overdue(at(NOON)));
    let canary = Canary::resuming(settings(2), key(), Some(at(NOON - 5400)));
    assert!(!canary.is_overdue(at(NOON)));
    let canary = Canary::resuming(settings(1), key(), None);
    assert!(!canary.is_overdue(at(NOON)));
}

#[test]
fn composed_statement_carries_the_given_time_text() {
    let canary = Canary::resuming(settings(1), key(), Some(at(NOON - 5400)));
    let song = canary.compose(at(NOON), "2024-05-01T12:00:00+00:00".to_string());
    assert_eq!(song.timestamp, "2024-05-01T12:00:00+00:00");
    assert_eq!(song.message, "The nest has gone quiet:(");
    assert_eq!(song.public_key, PUBLIC_HEX);
    assert_eq!(song.log_hash, None);
    assert!(song.verify());
    assert_eq!(Some(song), canary.refresh_at(at(NOON)).ok());
}

#[test]
fn same_signer_and_time_give_the_same_statement() {
    let canary = Canary::new(settings(1), key(), None);
    assert_eq!(canary.refresh_at(at(NOON)), canary.refresh_at(at(NOON)));
    assert_ne!(canary.refresh_at(at(NOON)), canary.refresh_at(at(NOON + 1)));
}

#[test]
fn refresh_at_the_present_moment_never_fails() {
    let canary = Canary::new(settings(1), key(), None);
    for _ in 0..20 {
        let (now, song) = canary.refresh().unwrap();
        assert_eq!(canary.refresh_at(now), Ok(song));
    }
}
