use clobber::config::{check_addr, ConfigBuilder, ConfigError};

fn builder(addr: &str) -> ConfigBuilder {
    ConfigBuilder::new(addr.as_bytes().to_vec())
}

#[test]
fn zero_connections_rejected() {
    let r = builder("127.0.0.1:8000").connections(0).build();
    assert_eq!(r.unwrap_err(), ConfigError::InvalidConcurrency);
}

#[test]
fn minimal_build_succeeds() {
    let config = builder("127.0.0.1:8000").connections(1).build().unwrap();
    assert_eq!(config.address, b"127.0.0.1:8000".to_vec());
    assert_eq!(config.connections, 1);
    assert_eq!(config.rate, None);
    assert_eq!(config.duration_nanos, None);
    assert_eq!(config.max_connections, None);
    assert_eq!(config.connect_timeout_nanos, None);
    assert_eq!(config.read_timeout_nanos, None);
}

#[test]
fn defaults_build_with_one_connection() {
    let config = builder("10.0.0.2:80").build().unwrap();
    assert_eq!(config.connections, 1);
}

#[test]
fn malformed_address_rejected() {
    let r = builder("localhost:8000").build();
    assert_eq!(r.unwrap_err(), ConfigError::InvalidAddress);
}

#[test]
fn ipv6_literals_are_outside_the_grammar() {
    // The accepted grammar is IPv4 only; a bracketed IPv6 target is rejected
    // at build time, not at run time.
    let r = builder("[::1]:8000").build();
    assert_eq!(r.unwrap_err(), ConfigError::InvalidAddress);
}

#[test]
fn zero_rate_rejected() {
    let r = builder("127.0.0.1:8000").rate(0).build();
    assert_eq!(r.unwrap_err(), ConfigError::InvalidRate);
}

#[test]
fn positive_rate_accepted() {
    let config = builder("127.0.0.1:8000").rate(500).build().unwrap();
    assert_eq!(config.rate, Some(500));
}

#[test]
fn setters_record_options() {
    let config = builder("192.168.1.9:443")
        .connections(7)
        .rate(200)
        .duration(5_000_000_000)
        .max_connections(1_000)
        .connect_timeout(250_000_000)
        .read_timeout(750_000_000)
        .build()
        .unwrap();
    assert_eq!(config.connections, 7);
    assert_eq!(config.rate, Some(200));
    assert_eq!(config.duration_nanos, Some(5_000_000_000));
    assert_eq!(config.max_connections, Some(1_000));
    assert_eq!(config.connect_timeout_nanos, Some(250_000_000));
    assert_eq!(config.read_timeout_nanos, Some(750_000_000));
}

#[test]
fn address_check_accepts_well_formed() {
    for addr in ["0.0.0.0:0", "255.255.255.255:65535", "127.0.0.1:8000", "10.1.2.3:65535"] {
        assert!(check_addr(&addr.as_bytes().to_vec()), "{addr}");
    }
}

#[test]
fn address_check_rejects_malformed() {
    let cases = [
        "",
        "127.0.0.1",
        "1.2.3:80",
        "1.2.3.4.5:80",
        "256.0.0.1:80",
        "1.2.3.4:65536",
        "01.2.3.4:80",
        "1.2.3.4:080",
        "1.2.3.4:",
        ":80",
        "a.b.c.d:80",
        "1.2.3.4:8x",
        "1.2.3.4 :80",
        "1.2..4:80",
    ];
    for addr in cases {
        assert!(!check_addr(&addr.as_bytes().to_vec()), "{addr}");
    }
}
