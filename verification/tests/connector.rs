use async_patterns::connector::{
    choose_address, plan_connection, plan_request, ConnectError, ConnectPlan, Upgrade, UriParts, HTTPS_PORT, HTTP_PORT,
};
use async_patterns::stream::{finish_read, ReadOutcome, ReadReport};
use tokio::io::ReadBuf;

fn parts(scheme: Option<&str>, host: Option<&str>, port: Option<u16>) -> UriParts {
    UriParts { scheme: scheme.map(str::to_string), host: host.map(str::to_string), port }
}

fn plan(scheme: Option<&str>, host: Option<&str>, port: Option<u16>) -> Result<ConnectPlan, ConnectError> {
    plan_connection(parts(scheme, host, port))
}

#[test]
fn http_goes_in_the_clear() {
    let plan = plan(Some("http"), Some("example.org"), None).unwrap();
    assert_eq!((plan.host.as_str(), plan.port, plan.tls), ("example.org", 80, false));
    assert!(matches!(plan.upgrade(), Upgrade::Plain));
    assert_eq!((HTTP_PORT, HTTPS_PORT), (80, 443));
}

#[test]
fn https_goes_over_tls() {
    let plan = plan(Some("https"), Some("example.org"), None).unwrap();
    assert_eq!((plan.host.as_str(), plan.port, plan.tls), ("example.org", 443, true));
    assert!(matches!(plan.upgrade(), Upgrade::Handshake(host) if host == "example.org"));
}

#[test]
fn named_ports_are_kept() {
    assert_eq!(plan(Some("http"), Some("a"), Some(8080)).unwrap().port, 8080);
    assert_eq!(plan(Some("https"), Some("a"), Some(80)).unwrap().port, 80);
}

#[test]
fn missing_host_is_reported_before_the_scheme() {
    assert!(matches!(plan(Some("https"), None, None), Err(ConnectError::NoHost)));
    assert!(matches!(plan(Some("ftp"), None, None), Err(ConnectError::NoHost)));
    assert!(matches!(plan(None, None, Some(1)), Err(ConnectError::NoHost)));
}

#[test]
fn other_schemes_are_not_supported() {
    for scheme in ["ftp", "HTTP", "httpss", "htt", ""] {
        match plan(Some(scheme), Some("a"), None) {
            Err(ConnectError::UnsupportedScheme(Some(named))) => assert_eq!(named, scheme),
            other => panic!("{:?}", other),
        }
    }
    assert!(matches!(plan(None, Some("a"), None), Err(ConnectError::UnsupportedScheme(None))));
}

fn plan_text(text: &str) -> Result<ConnectPlan, ConnectError> {
    let uri: http::Uri = text.parse().unwrap();
    plan_request(&uri)
}

#[test]
fn uris_are_planned_by_their_parts() {
    let plan = plan_text("https://www.rust-lang.org").unwrap();
    assert_eq!((plan.host.as_str(), plan.port, plan.tls), ("www.rust-lang.org", 443, true));
    let plan = plan_text("http://user@example.org:8080/path?query").unwrap();
    assert_eq!((plan.host.as_str(), plan.port, plan.tls), ("example.org", 8080, false));
    let plan = plan_text("HTTP://[::1]/").unwrap();
    assert_eq!((plan.host.as_str(), plan.port, plan.tls), ("[::1]", 80, false));
    let plan = plan_text("https://example.org:8443/x").unwrap();
    assert_eq!((plan.host.as_str(), plan.port, plan.tls), ("example.org", 8443, true));
    for text in ["/hello/world", "*"] {
        assert!(matches!(plan_text(text), Err(ConnectError::NoHost)));
    }
    assert!(matches!(plan_text("example.org:80"), Err(ConnectError::UnsupportedScheme(None))));
    assert!(matches!(plan_text("ftp://example.org/"), Err(ConnectError::UnsupportedScheme(Some(s))) if s == "ftp"));
}

#[test]
fn errors_say_what_went_wrong() {
    assert_eq!(plan_text("/x").unwrap_err().message(), "cannot parse host");
    assert_eq!(plan_text("ftp://b.c").unwrap_err().message(), "unsupported scheme: Some(\"ftp\")");
    assert_eq!(plan_text("a+b-c.d~1://b.c").unwrap_err().message(), "unsupported scheme: Some(\"a+b-c.d~1\")");
    assert_eq!(plan_text("b.c:80").unwrap_err().message(), "unsupported scheme: None");
    let scheme = Some("a\"b".to_string());
    let message = ConnectError::UnsupportedScheme(scheme).message();
    assert_eq!(message, "unsupported scheme: Some(\"a\\\"b\")");
    assert_eq!(choose_address::<u8>(vec![]).unwrap_err().message(), "cannot resolve address");
}

#[test]
fn first_address_is_chosen() {
    assert_eq!(choose_address(vec![3, 1, 2]).unwrap(), 3);
    assert!(matches!(choose_address::<u8>(vec![]), Err(ConnectError::Unresolved)));
}

#[test]
fn bytes_read_count_as_filled() {
    let mut bytes = *b"abcdefgh";
    let mut buf = ReadBuf::new(&mut bytes);
    assert!(matches!(finish_read::<()>(&mut buf, ReadOutcome::Read(3)), ReadReport::Done));
    assert_eq!(buf.filled(), b"abc");
    assert!(matches!(finish_read::<()>(&mut buf, ReadOutcome::Read(0)), ReadReport::Done));
    assert_eq!(buf.filled(), b"abc");
    assert!(matches!(finish_read::<()>(&mut buf, ReadOutcome::Read(5)), ReadReport::Done));
    assert_eq!(buf.filled(), b"abcdefgh");
    assert_eq!(buf.capacity(), 8);
}

#[test]
fn reads_without_bytes_leave_the_buffer_alone() {
    let mut bytes = *b"abcdefgh";
    let mut buf = ReadBuf::new(&mut bytes);
    buf.advance(2);
    assert!(matches!(finish_read::<u8>(&mut buf, ReadOutcome::Pending), ReadReport::Pending));
    assert!(matches!(finish_read(&mut buf, ReadOutcome::Failed(9)), ReadReport::Failed(9)));
    assert!(matches!(finish_read::<u8>(&mut buf, ReadOutcome::Read(7)), ReadReport::Overrun));
    assert!(matches!(finish_read::<u8>(&mut buf, ReadOutcome::Read(usize::MAX)), ReadReport::Overrun));
    assert_eq!(buf.filled(), b"ab");
    assert_eq!(buf.initialized(), b"abcdefgh");
}
