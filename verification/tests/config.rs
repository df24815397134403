use zoomies::Config;

#[test]
fn default_config() {
    let config = Config::new();
    assert_eq!(config.bind_addr(), "127.0.0.1:0");
    assert_eq!(config.peer_addr(), "127.0.0.1:8125");
    let config = Config::default();
    assert_eq!(config.bind_addr(), "127.0.0.1:0");
    assert_eq!(config.peer_addr(), "127.0.0.1:8125");
}

#[test]
fn config_setters_change_one_address_each() {
    let config = Config::new().from_addr("127.0.0.1:10001".into());
    assert_eq!(config.bind_addr(), "127.0.0.1:10001");
    assert_eq!(config.peer_addr(), "127.0.0.1:8125");
    let config = config.to_addr("statsd.example:8125".into());
    assert_eq!(config.bind_addr(), "127.0.0.1:10001");
    assert_eq!(config.peer_addr(), "statsd.example:8125");
}
