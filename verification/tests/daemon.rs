use melia::config::Listen;
use melia::config::address::IpAddress;
use melia::config::address::SocketAddress;
use melia::config::address::UnixSocket;
use melia::daemon::ListenerBinding;
use melia::daemon::build_listener_plan;
use melia::daemon::service::HttpMethod;
use melia::daemon::service::RouteAction;
use melia::daemon::service::ServiceConfig;
use melia::daemon::service::control_query_target;
use melia::daemon::service::route;
use melia::daemon::service::usage_text;
use melia::io::SocketFormat;
use melia::io::SystemdError;
use melia::io::SystemdSocket;
use melia::io::SystemdSocketType;

fn unix_stream_socket(fd: i32) -> SystemdSocket {
    SystemdSocket {
        fd,
        name: String::new(),
        ty: SystemdSocketType::Unix,
        format: SocketFormat::Stream { listening: true },
    }
}

fn inet_stream_socket(fd: i32, name: &str) -> SystemdSocket {
    SystemdSocket {
        fd,
        name: String::from(name),
        ty: SystemdSocketType::INet,
        format: SocketFormat::Stream { listening: true },
    }
}

fn sample_listen() -> Listen {
    let mut listen = Listen::empty();
    listen.record_http(SocketAddress { ip: IpAddress::V4(0, 0, 0, 0), port: 80 });
    listen.record_https(SocketAddress { ip: IpAddress::V4(0, 0, 0, 0), port: 443 });
    listen.record_unix(UnixSocket {
        path: String::from("/run/melia/ctl"),
        user: None,
        group: None,
        mode: 0o660,
    });
    listen
}

#[test]
fn plan_tags_every_listener_with_its_capability_profile() {
    let sockets = vec![unix_stream_socket(3), inet_stream_socket(4, "https"), inet_stream_socket(5, "")];
    let listen = sample_listen();
    let plan = build_listener_plan(&sockets, &listen).unwrap();
    assert_eq!(plan.len(), 6);

    assert!(matches!(plan[0].binding, ListenerBinding::InheritedUnix { fd: 3 }));
    assert_eq!(plan[0].profile, ServiceConfig { tls: false, allow_ctl: true });

    assert!(matches!(plan[1].binding, ListenerBinding::InheritedTcp { fd: 4 }));
    assert_eq!(plan[1].profile, ServiceConfig { tls: true, allow_ctl: false });

    assert!(matches!(plan[2].binding, ListenerBinding::InheritedTcp { fd: 5 }));
    assert_eq!(plan[2].profile, ServiceConfig { tls: false, allow_ctl: false });

    assert!(matches!(plan[3].binding, ListenerBinding::BindTcp { addr } if addr.port == 80));
    assert_eq!(plan[3].profile, ServiceConfig { tls: false, allow_ctl: false });

    assert!(matches!(plan[4].binding, ListenerBinding::BindTcp { addr } if addr.port == 443));
    assert_eq!(plan[4].profile, ServiceConfig { tls: true, allow_ctl: false });

    assert!(matches!(&plan[5].binding, ListenerBinding::BindUnix { socket } if socket.path == "/run/melia/ctl"));
    assert_eq!(plan[5].profile, ServiceConfig { tls: false, allow_ctl: true });

    // control capability is granted exactly to the Unix-domain listeners
    for entry in &plan {
        let unix_kind = matches!(
            entry.binding,
            ListenerBinding::InheritedUnix { .. } | ListenerBinding::BindUnix { .. }
        );
        assert_eq!(entry.profile.allow_ctl, unix_kind);
        if entry.profile.allow_ctl {
            assert!(!entry.profile.tls);
        }
    }
}

#[test]
fn inherited_datagram_socket_fails_the_plan() {
    let sockets = vec![SystemdSocket {
        fd: 3,
        name: String::new(),
        ty: SystemdSocketType::INet,
        format: SocketFormat::Datagram,
    }];
    let err = build_listener_plan(&sockets, &Listen::empty()).unwrap_err();
    assert!(matches!(err, SystemdError::UnsupportedSocketFormat));
}

#[test]
fn inherited_descriptor_of_wrong_kind_fails_the_plan() {
    let sockets = vec![SystemdSocket {
        fd: 3,
        name: String::new(),
        ty: SystemdSocketType::Fifo,
        format: SocketFormat::Stream { listening: true },
    }];
    let err = build_listener_plan(&sockets, &Listen::empty()).unwrap_err();
    assert!(matches!(err, SystemdError::UnsupportedSocketType(SystemdSocketType::Fifo)));
}

#[test]
fn profiles_carry_the_fixed_capabilities() {
    assert_eq!(ServiceConfig::unix(), ServiceConfig { tls: false, allow_ctl: true });
    assert_eq!(ServiceConfig::http(), ServiceConfig { tls: false, allow_ctl: false });
    assert_eq!(ServiceConfig::https(), ServiceConfig { tls: true, allow_ctl: false });
}

#[test]
fn routes_dispatch_by_method_and_path() {
    assert_eq!(route(HttpMethod::Get, "/", None, false), RouteAction::Usage);
    assert_eq!(route(HttpMethod::Post, "/", None, false), RouteAction::NotFound);
    assert_eq!(route(HttpMethod::Post, "/echo", None, false), RouteAction::Echo);
    assert_eq!(route(HttpMethod::Post, "/echo", None, true), RouteAction::Echo);
    assert_eq!(route(HttpMethod::Post, "/echo", Some("x"), true), RouteAction::Echo);
    assert_eq!(route(HttpMethod::Get, "/echo", None, true), RouteAction::NotFound);
    assert_eq!(route(HttpMethod::Get, "/nowhere", None, true), RouteAction::NotFound);
}

#[test]
fn control_route_needs_the_capability() {
    assert_eq!(route(HttpMethod::Get, "/api", Some("config"), true), RouteAction::ShowConfig);
    assert_eq!(route(HttpMethod::Get, "/api", Some("config"), false), RouteAction::NotFound);
    assert_eq!(route(HttpMethod::Post, "/api", Some("config"), true), RouteAction::NotFound);
    assert_eq!(route(HttpMethod::Get, "/api", Some("other"), true), RouteAction::NotFound);
    assert_eq!(route(HttpMethod::Get, "/api", None, true), RouteAction::NotFound);
}

#[test]
fn status_codes_follow_the_action() {
    assert_eq!(RouteAction::Usage.status_code(), 200);
    assert_eq!(RouteAction::Echo.status_code(), 200);
    assert_eq!(RouteAction::ShowConfig.status_code(), 200);
    assert_eq!(RouteAction::NotFound.status_code(), 404);
}

#[test]
fn fixed_texts_are_exact() {
    assert_eq!(
        usage_text(),
        "Try POSTing data to /echo (ex. `curl localhost:8080/echo -XPOST -d \"Hello, World\"`)"
    );
    assert_eq!(control_query_target(), "/api?config");
}

#[test]
fn recording_appends_to_the_right_bucket() {
    let mut listen = Listen::empty();
    listen.record_http(SocketAddress { ip: IpAddress::V4(127, 0, 0, 1), port: 8080 });
    listen.record_http(SocketAddress { ip: IpAddress::V4(127, 0, 0, 1), port: 8081 });
    assert_eq!(listen.http.len(), 2);
    assert_eq!(listen.http[1].port, 8081);
    assert!(listen.https.is_empty());
    assert!(listen.unix.is_empty());
}
