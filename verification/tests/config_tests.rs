use silent_sparrow::config::{
    default_interval_hours, default_message_normal, default_message_overdue, default_output_path,
};
use silent_sparrow::Config;
use std::time::Duration;

fn sample(interval_hours: u64) -> Config {
    Config {
        interval_hours,
        output_path: "out.json".to_string(),
        message_normal: "fine".to_string(),
        message_overdue: "late".to_string(),
        publish_url: Some("https://example.org/hook".to_string()),
        publish_token: Some("s3cret".to_string()),
    }
}

#[test]
fn defaults_have_their_documented_values() {
    assert_eq!(default_interval_hours(), 24);
    assert_eq!(default_output_path(), "sparrow-song.json");
    assert_eq!(default_message_normal(), "All systems chirping normally:)");
    assert_eq!(default_message_overdue(), "The nest has gone quiet:(");
}

#[test]
fn missing_file_gives_the_defaults() {
    let config = Config::load_or_default(None);
    assert_eq!(
        config,
        Config {
            interval_hours: 24,
            output_path: "sparrow-song.json".to_string(),
            message_normal: "All systems chirping normally:)".to_string(),
            message_overdue: "The nest has gone quiet:(".to_string(),
            publish_url: None,
            publish_token: None,
        }
    );
}

#[test]
fn zero_interval_is_replaced_by_the_default() {
    let config = Config::load_or_default(Some(sample(0)));
    assert_eq!(config, sample(24));
}

#[test]
fn loaded_settings_are_kept() {
    let config = Config::load_or_default(Some(sample(6)));
    assert_eq!(config, sample(6));
}

#[test]
fn interval_duration_is_hours_in_seconds() {
    assert_eq!(sample(1).interval_duration(), Duration::from_secs(3600));
    assert_eq!(sample(24).interval_duration(), Duration::from_secs(86_400));
    assert_eq!(sample(0).interval_duration(), Duration::from_secs(0));
    assert_eq!(sample(24).interval_duration().as_nanos(), 86_400_000_000_000);
}
