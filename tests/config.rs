use edge_proxy::{check_upstream_base, log_line, parse_port, ConfigError, ServerConfig};

#[test]
fn settings_are_accepted() {
    let c = ServerConfig::new("3000", "/api", "http://localhost:9000", "./public").unwrap();
    assert_eq!(c.port, 3000);
    assert_eq!(c.prefix, "/api");
    assert_eq!(c.upstream_base, "http://localhost:9000");
    assert_eq!(c.static_root, "./public");
}

#[test]
fn each_bad_setting_has_its_error() {
    let e = |p: &str, x: &str, b: &str, s: &str| ServerConfig::new(p, x, b, s).err();
    assert_eq!(e("", "/api", "http://h", "d"), Some(ConfigError::BadPort));
    assert_eq!(e("70000", "/api", "http://h", "d"), Some(ConfigError::BadPort));
    assert_eq!(e("80", "api", "http://h", "d"), Some(ConfigError::BadPrefix));
    assert_eq!(e("80", "", "http://h", "d"), Some(ConfigError::BadPrefix));
    assert_eq!(e("80", "/api", "localhost:9000", "d"), Some(ConfigError::BadUpstreamBase));
    assert_eq!(e("80", "/api", "http://h", ""), Some(ConfigError::EmptyStaticRoot));
    assert_eq!(e("x", "api", "", ""), Some(ConfigError::BadPort));
}

#[test]
fn port_numbers() {
    assert_eq!(parse_port("8080"), Some(8080));
    assert_eq!(parse_port("0"), Some(0));
    assert_eq!(parse_port("065535"), Some(65535));
    assert_eq!(parse_port("65536"), None);
    assert_eq!(parse_port("99999999999999999999"), None);
    assert_eq!(parse_port(""), None);
    assert_eq!(parse_port("80a"), None);
    assert_eq!(parse_port("-1"), None);
    assert_eq!(parse_port(" 80"), None);
}

#[test]
fn upstream_bases() {
    assert!(check_upstream_base("http://localhost:9000"));
    assert!(check_upstream_base("https://example.com/base"));
    assert!(check_upstream_base("http://10.0.0.1"));
    assert!(!check_upstream_base("http://"));
    assert!(!check_upstream_base("http:///x"));
    assert!(!check_upstream_base("ftp://host"));
    assert!(!check_upstream_base("/relative"));
    assert!(!check_upstream_base("http://exa mple.com"));
    assert!(!check_upstream_base("http://host:1:2"));
}

#[test]
fn log_line_parts() {
    let l = log_line("2024-01-02 03:04:05.006", "http://localhost:9000/api/x");
    assert_eq!(l.tag, " proxy ");
    assert_eq!(l.stamp, "[2024-01-02 03:04:05.006]");
    assert_eq!(l.content, " http://localhost:9000/api/x ");
    assert_eq!(
        l.to_plain(),
        " proxy [2024-01-02 03:04:05.006] http://localhost:9000/api/x "
    );
}
