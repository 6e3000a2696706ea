use genplist::config::ServerConfig;
use genplist::config::DEFAULT_HOST;
use genplist::config::DEFAULT_PORT;

#[test]
fn default_config_listens_on_all_interfaces_port_3788() {
    let config = ServerConfig::default();
    assert_eq!(config.host, "0.0.0.0");
    assert_eq!(config.port, 3788);
    assert_eq!(DEFAULT_HOST, "0.0.0.0");
    assert_eq!(DEFAULT_PORT, 3788);
}

#[test]
fn with_port_changes_the_port_only() {
    let config = ServerConfig::default().with_port(8080);
    assert_eq!(config, ServerConfig { host: "0.0.0.0".to_string(), port: 8080 });
    assert_eq!(ServerConfig::default().with_port(0).port, 0);
    assert_eq!(ServerConfig::default().with_port(65535).port, 65535);
}
