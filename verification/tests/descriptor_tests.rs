use tiberius_pool::descriptor::parse_descriptor;
use tiberius_pool::errors::ConnectError;

#[test]
fn parses_full_descriptor() {
    let cfg = parse_descriptor(
        "server=tcp:127.0.0.1,1433;encrypt=false;TrustServerCertificate=true;user=sa;password=ThePassword1!",
    )
    .unwrap();
    assert_eq!(cfg.host, "127.0.0.1");
    assert_eq!(cfg.port, 1433);
    assert!(!cfg.encrypt);
    assert!(cfg.trust_server_certificate);
    assert_eq!(cfg.user, "sa");
    assert_eq!(cfg.password, "ThePassword1!");
}

#[test]
fn defaults_without_optional_entries() {
    let cfg = parse_descriptor("server=tcp:db.example,80").unwrap();
    assert_eq!(cfg.host, "db.example");
    assert_eq!(cfg.port, 80);
    assert_eq!(cfg.user, "");
    assert_eq!(cfg.password, "");
    assert!(!cfg.encrypt);
    assert!(!cfg.trust_server_certificate);
}

#[test]
fn trailing_semicolon_is_harmless() {
    let cfg = parse_descriptor("server=tcp:h,1;").unwrap();
    assert_eq!(cfg.host, "h");
    assert_eq!(cfg.port, 1);
}

#[test]
fn later_entry_overrides_earlier() {
    let cfg = parse_descriptor("server=tcp:first,1;user=a;server=tcp:second,2;user=b").unwrap();
    assert_eq!(cfg.host, "second");
    assert_eq!(cfg.port, 2);
    assert_eq!(cfg.user, "b");
}

#[test]
fn missing_server_is_invalid() {
    let e = parse_descriptor("user=sa;password=x").unwrap_err();
    assert!(matches!(e, ConnectError::InvalidDescriptor(_)));
}

#[test]
fn empty_descriptor_is_invalid() {
    let e = parse_descriptor("").unwrap_err();
    assert!(matches!(e, ConnectError::InvalidDescriptor(_)));
}

#[test]
fn entry_without_equals_is_invalid() {
    let e = parse_descriptor("server=tcp:h,1;garbage").unwrap_err();
    assert!(matches!(e, ConnectError::InvalidDescriptor(_)));
}

#[test]
fn unknown_key_is_invalid() {
    let e = parse_descriptor("host=tcp:h,1").unwrap_err();
    assert!(matches!(e, ConnectError::InvalidDescriptor(_)));
}

#[test]
fn key_spelling_is_exact() {
    assert!(parse_descriptor("Server=tcp:h,1").is_err());
    assert!(parse_descriptor("server=tcp:h,1;trustservercertificate=true").is_err());
    assert!(parse_descriptor("server=tcp:h,1;TrustServerCertificate=true").is_ok());
}

#[test]
fn server_requires_tcp_prefix() {
    let e = parse_descriptor("server=127.0.0.1,1433").unwrap_err();
    assert!(matches!(e, ConnectError::InvalidDescriptor(_)));
}

#[test]
fn server_requires_port() {
    let e = parse_descriptor("server=tcp:127.0.0.1").unwrap_err();
    assert!(matches!(e, ConnectError::InvalidDescriptor(_)));
}

#[test]
fn empty_host_is_invalid() {
    let e = parse_descriptor("server=tcp:,1433").unwrap_err();
    assert!(matches!(e, ConnectError::InvalidDescriptor(_)));
}

#[test]
fn largest_port_is_accepted() {
    let cfg = parse_descriptor("server=tcp:h,65535").unwrap();
    assert_eq!(cfg.port, 65535);
}

#[test]
fn port_out_of_range_is_invalid() {
    assert!(parse_descriptor("server=tcp:h,65536").is_err());
    assert!(parse_descriptor("server=tcp:h,99999").is_err());
    assert!(parse_descriptor("server=tcp:h,123456").is_err());
}

#[test]
fn port_with_nondigit_is_invalid() {
    let e = parse_descriptor("server=tcp:h,14x3").unwrap_err();
    assert!(matches!(e, ConnectError::InvalidDescriptor(_)));
}

#[test]
fn empty_port_is_invalid() {
    let e = parse_descriptor("server=tcp:h,").unwrap_err();
    assert!(matches!(e, ConnectError::InvalidDescriptor(_)));
}

#[test]
fn port_with_leading_zeros_is_accepted() {
    let cfg = parse_descriptor("server=tcp:h,00080").unwrap();
    assert_eq!(cfg.port, 80);
}

#[test]
fn bool_values_are_strict() {
    assert!(parse_descriptor("server=tcp:h,1;encrypt=yes").is_err());
    assert!(parse_descriptor("server=tcp:h,1;encrypt=True").is_err());
    let on = parse_descriptor("server=tcp:h,1;encrypt=true").unwrap();
    assert!(on.encrypt);
    let off = parse_descriptor("server=tcp:h,1;encrypt=false").unwrap();
    assert!(!off.encrypt);
}

#[test]
fn empty_entries_are_skipped() {
    let cfg = parse_descriptor("server=tcp:h,1;;user=sa").unwrap();
    assert_eq!(cfg.user, "sa");
}

#[test]
fn password_may_contain_equals() {
    let cfg = parse_descriptor("server=tcp:h,1;password=a=b=c").unwrap();
    assert_eq!(cfg.password, "a=b=c");
}

#[test]
fn parse_error_never_carries_the_secret() {
    let e = parse_descriptor("server=tcp:h,;password=Hunter2!").unwrap_err();
    match e {
        ConnectError::InvalidDescriptor(msg) => assert!(!msg.contains("Hunter2!")),
        other => panic!("unexpected error {:?}", other),
    }
}
