use padm_exporter::config::endpoint::{Config as EndpointConfig, Endpoint};
use padm_exporter::config::schema::{Config, Target};

fn target(port: Option<u16>, scheme: Option<&str>) -> Target {
    Target::new(
        "rack.example".to_string(),
        port,
        scheme.map(|s| s.to_string()),
        None,
        None,
        "admin".to_string(),
        "secret".to_string(),
        None,
    )
}

#[test]
fn target_address_and_url() {
    let plain = target(None, None);
    assert_eq!(plain.host(), "rack.example");
    assert_eq!(plain.addr(), "rack.example");
    assert_eq!(plain.url(), "https://rack.example");
    let with_port = target(Some(8443), Some("http"));
    assert_eq!(with_port.addr(), "rack.example:8443");
    assert_eq!(with_port.url(), "http://rack.example:8443");
    assert_eq!(target(Some(0), None).addr(), "rack.example:0");
    assert_eq!(target(Some(65535), None).url(), "https://rack.example:65535");
}

#[test]
fn target_defaults() {
    let plain = target(None, None);
    assert!(!plain.tls_insecure());
    assert_eq!(plain.interval(), 30);
    assert_eq!(plain.username(), "admin");
    assert_eq!(plain.password(), "secret");
    assert_eq!(plain.tracked_devices(), &None);
    let set = Target::new(
        "h".to_string(),
        None,
        None,
        Some(true),
        Some(0),
        "u".to_string(),
        "p".to_string(),
        Some(vec!["RackA".to_string()]),
    );
    assert!(set.tls_insecure());
    assert_eq!(set.interval(), 0);
    assert_eq!(set.tracked_devices(), &Some(vec!["RackA".to_string()]));
}

#[test]
fn config_defaults_and_bind_address() {
    let config = Config::new(None, None, None, Vec::new());
    assert_eq!(config.ip(), "::");
    assert_eq!(config.port(), 8080);
    assert_eq!(config.log_level(), "info");
    assert_eq!(config.bind_address(), ":::8080");
    assert!(config.targets().is_empty());
    let config = Config::new(
        Some("127.0.0.1".to_string()),
        Some(9100),
        Some("debug".to_string()),
        vec![target(None, None)],
    );
    assert_eq!(config.ip(), "127.0.0.1");
    assert_eq!(config.port(), 9100);
    assert_eq!(config.log_level(), "debug");
    assert_eq!(config.bind_address(), "127.0.0.1:9100");
    assert_eq!(config.targets().len(), 1);
    assert_eq!(config.targets()[0].host(), "rack.example");
}

#[test]
fn endpoint_defaults_and_host() {
    let endpoint = Endpoint::new(
        "10.0.0.5".to_string(),
        None,
        None,
        None,
        None,
        "admin".to_string(),
        "secret".to_string(),
    );
    assert_eq!(endpoint.ip(), "10.0.0.5");
    assert_eq!(endpoint.port(), 443);
    assert_eq!(endpoint.scheme(), "https");
    assert!(!endpoint.tls_insecure());
    assert_eq!(endpoint.interval(), 30);
    assert_eq!(endpoint.username(), "admin");
    assert_eq!(endpoint.password(), "secret");
    assert_eq!(endpoint.host(), "10.0.0.5:443");
    let endpoint = Endpoint::new(
        "10.0.0.5".to_string(),
        Some(8443),
        Some("http".to_string()),
        Some(true),
        Some(5),
        "admin".to_string(),
        "secret".to_string(),
    );
    assert_eq!(endpoint.port(), 8443);
    assert_eq!(endpoint.scheme(), "http");
    assert!(endpoint.tls_insecure());
    assert_eq!(endpoint.interval(), 5);
    assert_eq!(endpoint.host(), "10.0.0.5:8443");
}

#[test]
fn endpoint_config_defaults_and_bind_address() {
    let config = EndpointConfig::new("0.0.0.0".to_string(), None, Vec::new());
    assert_eq!(config.ip(), "0.0.0.0");
    assert_eq!(config.port(), 8000);
    assert_eq!(config.bind_address(), "0.0.0.0:8000");
    assert!(config.endpoints().is_empty());
    let config = EndpointConfig::new("0.0.0.0".to_string(), Some(1), Vec::new());
    assert_eq!(config.bind_address(), "0.0.0.0:1");
}
