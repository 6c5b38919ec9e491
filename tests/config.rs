use std::time::Duration;
use zkdpos_core::config::ATPWatchConfig;

fn expected_config() -> ATPWatchConfig {
    ATPWatchConfig { confirmations_for_atp_event: 0, atp_node_poll_interval: 300 }
}

#[test]
fn from_env() {
    let actual = ATPWatchConfig::from_env("0", "300").expect("config is malformed");
    assert_eq!(actual, expected_config());
}

/// Checks the correctness of the config helper methods.
#[test]
fn methods() {
    let config = expected_config();

    assert_eq!(config.poll_interval(), Duration::from_millis(config.atp_node_poll_interval));
}

#[test]
fn from_env_rejects_malformed_numbers() {
    assert!(ATPWatchConfig::from_env("", "300").is_none());
    assert!(ATPWatchConfig::from_env("0", "3x0").is_none());
    assert!(ATPWatchConfig::from_env("18446744073709551616", "1").is_none());
    assert_eq!(
        ATPWatchConfig::from_env("+18446744073709551615", "7"),
        Some(ATPWatchConfig { confirmations_for_atp_event: u64::MAX, atp_node_poll_interval: 7 })
    );
}
