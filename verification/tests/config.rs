use ezsockets::config::WebsocketConfig;
use std::time::Duration;

#[test]
fn default_config() {
    let config = WebsocketConfig::default();
    assert_eq!(config.address, "127.0.0.1:80");
    assert_eq!(config.heartbeat, Duration::from_secs(5));
    assert_eq!(config.timeout, Duration::from_secs(10));
    assert_eq!(config.channel_size, 1000);
}

#[test]
fn cloned_config() {
    let config = WebsocketConfig {
        address: "127.0.0.1:8080".to_string(),
        heartbeat: Duration::new(1, 2),
        timeout: Duration::new(3, 4),
        channel_size: 5,
    };
    let copy = config.clone();
    assert_eq!(copy.address, "127.0.0.1:8080");
    assert_eq!(copy.heartbeat, Duration::new(1, 2));
    assert_eq!(copy.timeout, Duration::new(3, 4));
    assert_eq!(copy.channel_size, 5);
}
