use async_patterns::server::{
    Readiness, ServerAction, ServerEvent, ServerFuture, CLIENT, EVENT_CAPACITY, POLL_TIMEOUT_MILLIS, READ_BUFFER_LEN,
    SERVER,
};

fn event(token: usize, readable: bool, writable: bool) -> Readiness {
    Readiness { token, readable, writable }
}

fn read(server: &mut ServerFuture, bytes: &[u8]) -> ServerAction {
    server.poll(ServerEvent::Read(bytes.to_vec()))
}

#[test]
fn server_constants() {
    assert_eq!((SERVER, CLIENT), (0, 1));
    assert_eq!((POLL_TIMEOUT_MILLIS, EVENT_CAPACITY, READ_BUFFER_LEN), (200, 1, 1024));
}

#[test]
fn only_a_readable_listening_socket_is_for_the_server() {
    assert!(event(SERVER, true, false).is_for_server());
    assert!(!event(SERVER, false, true).is_for_server());
    assert!(!event(CLIENT, true, true).is_for_server());
    assert!(event(CLIENT, false, true).is_for_client());
    assert!(!event(CLIENT, true, false).is_for_client());
    assert!(!event(SERVER, true, true).is_for_client());
}

#[test]
fn server_accepts_only_a_waiting_connection() {
    let mut server = ServerFuture::new();
    assert!(matches!(server.poll(ServerEvent::Polled(vec![])), ServerAction::Retry));
    let other = vec![event(CLIENT, true, true), event(SERVER, false, true)];
    assert!(matches!(server.poll(ServerEvent::Polled(other)), ServerAction::Retry));
    let waiting = vec![event(CLIENT, true, true), event(SERVER, true, false)];
    assert!(matches!(server.poll(ServerEvent::Polled(waiting)), ServerAction::Accept));
    assert!(matches!(server.poll(ServerEvent::Accepted), ServerAction::Read));
}

#[test]
fn server_answers_with_everything_read() {
    let mut server = ServerFuture::new();
    assert!(matches!(read(&mut server, b"that's so "), ServerAction::Read));
    assert!(matches!(read(&mut server, b"dingo!\n"), ServerAction::Read));
    match read(&mut server, b"") {
        ServerAction::Ready(text) => assert_eq!(text, "that's so dingo!\n"),
        action => panic!("{:?}", action),
    }
    assert!(matches!(read(&mut server, b""), ServerAction::Retry));
}

#[test]
fn server_answers_with_what_came_before_a_failure() {
    let mut server = ServerFuture::new();
    assert!(matches!(read(&mut server, b"half"), ServerAction::Read));
    match server.poll(ServerEvent::ReadFailed) {
        ServerAction::Ready(text) => assert_eq!(text, "half"),
        action => panic!("{:?}", action),
    }
    assert!(matches!(server.poll(ServerEvent::ReadFailed), ServerAction::Retry));
}

#[test]
fn server_starts_every_poll_afresh() {
    let mut server = ServerFuture::new();
    assert!(matches!(read(&mut server, b"old"), ServerAction::Read));
    assert!(matches!(server.poll(ServerEvent::Polled(vec![event(SERVER, true, false)])), ServerAction::Accept));
    assert!(matches!(read(&mut server, b"new"), ServerAction::Read));
    match read(&mut server, b"") {
        ServerAction::Ready(text) => assert_eq!(text, "new"),
        action => panic!("{:?}", action),
    }
}

#[test]
fn bytes_that_are_no_text_are_replaced() {
    let mut server = ServerFuture::new();
    assert!(matches!(read(&mut server, b"a\xffb\xc3"), ServerAction::Read));
    assert!(matches!(read(&mut server, b"\xa9"), ServerAction::Read));
    match read(&mut server, b"") {
        ServerAction::Ready(text) => assert_eq!(text, "a\u{fffd}b\u{e9}"),
        action => panic!("{:?}", action),
    }
}

#[test]
fn answers_are_never_empty() {
    for bytes in [&b"\xff"[..], &b"\xc3"[..], &b"\0"[..], &b"\xf0\x9f"[..]] {
        let mut server = ServerFuture::new();
        assert!(matches!(read(&mut server, bytes), ServerAction::Read));
        match read(&mut server, b"") {
            ServerAction::Ready(text) => assert_eq!(text.chars().count(), 1),
            action => panic!("{:?}", action),
        }
    }
}
