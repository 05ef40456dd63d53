use hoststatus::Config;

#[test]
fn test_config_default() {
    let config = Config::default();
    assert_eq!(config.bind_address, "0.0.0.0");
    assert_eq!(config.port, 8080);
    assert_eq!(config.cache_ttl_seconds, 10);
}
