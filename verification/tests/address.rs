use melia::config::ConfigErrorVariant;
use melia::config::Listen;
use melia::config::address::DEFAULT_SOCKET_MODE;
use melia::config::address::IpAddress;
use melia::config::address::ListenTarget;
use melia::config::address::UrlHost;
use melia::config::address::UrlParts;
use melia::config::address::classify_url;
use melia::config::address::parse_unix_params;
use melia::config::address::parse_url;
use melia::config::address::resolve_listen_address;

#[test]
fn http_with_explicit_port_lands_in_http_bucket() {
    let mut listen = Listen::empty();
    let addrs = vec![String::from("http://127.0.0.1:8080")];
    listen.extend_from_urls(&addrs, "/run/melia").unwrap();
    assert_eq!(listen.http.len(), 1);
    assert_eq!(listen.https.len(), 0);
    assert_eq!(listen.unix.len(), 0);
    assert_eq!(listen.http[0].port, 8080);
    assert_eq!(listen.http[0].ip, IpAddress::V4(127, 0, 0, 1));
}

#[test]
fn https_without_port_gets_scheme_default() {
    let mut listen = Listen::empty();
    let addrs = vec![String::from("https://[::1]")];
    listen.extend_from_urls(&addrs, "/run/melia").unwrap();
    assert_eq!(listen.https.len(), 1);
    assert_eq!(listen.https[0].port, 443);
    assert_eq!(listen.https[0].ip, IpAddress::V6(0, 0, 0, 0, 0, 0, 0, 1));
}

#[test]
fn http_with_domain_host_is_fatal() {
    let mut listen = Listen::empty();
    let addrs = vec![String::from("http://example.com")];
    let err = listen.extend_from_urls(&addrs, "/run/melia").unwrap_err();
    assert!(matches!(err.variant, ConfigErrorVariant::InvalidUrlHost));
    assert_eq!(err.path.as_deref(), Some("http://example.com"));
}

#[test]
fn unix_relative_path_resolves_against_runtime_dir() {
    let r = resolve_listen_address("unix:nginx?user=nginx,group=melia,mode=0660", "/run/melia");
    match r.unwrap() {
        ListenTarget::Unix(sock) => {
            assert_eq!(sock.path, "/run/melia/nginx");
            assert_eq!(sock.user.as_deref(), Some("nginx"));
            assert_eq!(sock.group.as_deref(), Some("melia"));
            assert_eq!(sock.mode, 0o660);
        }
        other => panic!("expected a unix target, got {:?}", other),
    }
}

#[test]
fn unix_absolute_path_is_kept_and_mode_defaults() {
    let r = resolve_listen_address("unix:///run/melia/nginx", "/ignored");
    match r.unwrap() {
        ListenTarget::Unix(sock) => {
            assert_eq!(sock.path, "/run/melia/nginx");
            assert_eq!(sock.user, None);
            assert_eq!(sock.group, None);
            assert_eq!(sock.mode, DEFAULT_SOCKET_MODE);
            assert_eq!(sock.mode, 0o666);
        }
        other => panic!("expected a unix target, got {:?}", other),
    }
}

#[test]
fn unix_root_component_becomes_leading_path_segment() {
    let r = resolve_listen_address("unix://run/melia.sock", "/ignored");
    match r.unwrap() {
        ListenTarget::Unix(sock) => {
            assert_eq!(sock.path, "/run/melia.sock");
        }
        other => panic!("expected a unix target, got {:?}", other),
    }
}

#[test]
fn unknown_scheme_is_rejected_with_its_name() {
    let err = resolve_listen_address("ftp://127.0.0.1", "/run/melia").unwrap_err();
    match err {
        ConfigErrorVariant::UnsupportedScheme(s) => assert_eq!(s, "ftp"),
        other => panic!("expected an unsupported-scheme error, got {:?}", other),
    }
}

#[test]
fn malformed_url_is_rejected_with_the_text() {
    let err = resolve_listen_address("not a url", "/run/melia").unwrap_err();
    match err {
        ConfigErrorVariant::Url(s) => assert_eq!(s, "not a url"),
        other => panic!("expected a url error, got {:?}", other),
    }
}

#[test]
fn unix_with_ip_host_is_rejected() {
    let err = resolve_listen_address("unix://[::1]/sock", "/run/melia").unwrap_err();
    assert!(matches!(err, ConfigErrorVariant::InvalidUrlHost));
}

#[test]
fn unix_duplicate_parameter_is_rejected() {
    let err = resolve_listen_address("unix:/tmp/s?user=a,user=b", "/run/melia").unwrap_err();
    match err {
        ConfigErrorVariant::Url(q) => assert_eq!(q, "user=a,user=b"),
        other => panic!("expected a url error, got {:?}", other),
    }
}

#[test]
fn unix_unknown_parameter_is_rejected() {
    let err = resolve_listen_address("unix:/tmp/s?owner=a", "/run/melia").unwrap_err();
    assert!(matches!(err, ConfigErrorVariant::Url(_)));
}

#[test]
fn unix_bad_mode_is_rejected() {
    assert!(resolve_listen_address("unix:/tmp/s?mode=0998", "/run/melia").is_err());
    assert!(resolve_listen_address("unix:/tmp/s?mode=", "/run/melia").is_err());
}

#[test]
fn classify_rejects_empty_unix_path() {
    let parts = UrlParts {
        scheme: String::from("unix"),
        host: UrlHost::Absent,
        port: None,
        path: String::new(),
        query: None,
    };
    let err = classify_url(parts, "/run/melia").unwrap_err();
    assert!(matches!(err, ConfigErrorVariant::InvalidUrlHost));
}

#[test]
fn classify_rejects_http_without_host() {
    let parts = UrlParts {
        scheme: String::from("http"),
        host: UrlHost::Absent,
        port: Some(80),
        path: String::from("/"),
        query: None,
    };
    let err = classify_url(parts, "/run/melia").unwrap_err();
    assert!(matches!(err, ConfigErrorVariant::InvalidUrlHost));
}

#[test]
fn parse_url_decomposes_components() {
    let parts = parse_url("http://10.1.2.3:81/x?y=z").unwrap();
    assert_eq!(parts.scheme, "http");
    assert!(matches!(parts.host, UrlHost::Ip(IpAddress::V4(10, 1, 2, 3))));
    assert_eq!(parts.port, Some(81));
    assert_eq!(parts.path, "/x");
    assert_eq!(parts.query.as_deref(), Some("y=z"));
}

#[test]
fn params_accept_any_order_and_each_key_once() {
    let p = parse_unix_params("mode=0700,user=www").unwrap();
    assert_eq!(p.user.as_deref(), Some("www"));
    assert_eq!(p.group, None);
    assert_eq!(p.mode, Some(0o700));
    assert!(parse_unix_params("").is_none());
    assert!(parse_unix_params("user").is_none());
    assert!(parse_unix_params("mode=0660,mode=0661").is_none());
}

#[test]
fn first_failing_address_is_reported() {
    let mut listen = Listen::empty();
    let addrs = vec![
        String::from("http://127.0.0.1:8080"),
        String::from("gopher://127.0.0.1"),
        String::from("https://127.0.0.1"),
    ];
    let err = listen.extend_from_urls(&addrs, "/run/melia").unwrap_err();
    assert_eq!(err.path.as_deref(), Some("gopher://127.0.0.1"));
}
