use nwep::target::parse_target;
use nwep::target::DEFAULT_PORT;

#[test]
fn test_full_locator_splits() {
    let t = parse_target(b"web://example.com:8080/a/b?q=1").unwrap();
    assert_eq!(t.authority, b"example.com:8080".to_vec());
    assert_eq!(t.path, b"/a/b?q=1".to_vec());
    assert_eq!(t.host, b"example.com".to_vec());
    assert_eq!(t.port, 8080);
}

#[test]
fn test_locator_without_port_uses_default() {
    let t = parse_target(b"web://example.com/x").unwrap();
    assert_eq!(t.authority, b"example.com".to_vec());
    assert_eq!(t.path, b"/x".to_vec());
    assert_eq!(t.host, b"example.com".to_vec());
    assert_eq!(t.port, DEFAULT_PORT);
}

#[test]
fn test_locator_without_path_gets_root() {
    let t = parse_target(b"web://example.com:99").unwrap();
    assert_eq!(t.authority, b"example.com:99".to_vec());
    assert_eq!(t.path, b"/".to_vec());
    assert_eq!(t.host, b"example.com".to_vec());
    assert_eq!(t.port, 99);
}

#[test]
fn test_ipv6_host_with_port() {
    let t = parse_target(b"web://[::1]:4000/x").unwrap();
    assert_eq!(t.authority, b"[::1]:4000".to_vec());
    assert_eq!(t.host, b"::1".to_vec());
    assert_eq!(t.port, 4000);
}

#[test]
fn test_ipv6_host_without_port() {
    // the colons inside the brackets are not a port separator
    let t = parse_target(b"web://[::1]/x").unwrap();
    assert_eq!(t.authority, b"[::1]".to_vec());
    assert_eq!(t.host, b"::1".to_vec());
    assert_eq!(t.port, DEFAULT_PORT);
}

#[test]
fn test_other_schemes_are_rejected() {
    assert!(parse_target(b"https://example.com/").is_none());
    assert!(parse_target(b"web:/example.com").is_none());
    assert!(parse_target(b"").is_none());
    assert!(parse_target(b"web:").is_none());
}

#[test]
fn test_unparsable_ports_fall_back_to_default() {
    assert_eq!(parse_target(b"web://h:70000/x").unwrap().port, DEFAULT_PORT);
    assert_eq!(parse_target(b"web://h:9x9/x").unwrap().port, DEFAULT_PORT);
    assert_eq!(parse_target(b"web://h:/x").unwrap().port, DEFAULT_PORT);
    assert_eq!(parse_target(b"web://h:+90/x").unwrap().port, 90);
    assert_eq!(parse_target(b"web://h:65535/x").unwrap().port, 65535);
}

#[test]
fn test_empty_authority() {
    let t = parse_target(b"web:///x").unwrap();
    assert_eq!(t.authority, Vec::<u8>::new());
    assert_eq!(t.path, b"/x".to_vec());
    assert_eq!(t.host, Vec::<u8>::new());
    assert_eq!(t.port, DEFAULT_PORT);
}
