use async_patterns::data_file::{data_or_empty, load_map, read_data, write_data, DataError, JsonFault};
use async_patterns::data_map::{copy_bytes, DataMap};
use async_patterns::heartbeat::{HeartbeatAction, HeartbeatActor, HeartbeatEvent, SILENCE_LIMIT_NANOS};
use async_patterns::key_value::{KeyValueAction, KeyValueActor, KeyValueEvent, Undelivered};
use async_patterns::messages::{
    delete, get, ActorType, KeyValueMessage, RoutingMessage, CHANNEL_CAPACITY, RECV_TIMEOUT_MILLIS,
};
use async_patterns::router::{route, RouterAction};
use async_patterns::writer::{Writer, WriterAction, WriterEvent, WriterLogMessage, DATA_FILE};
use tokio::sync::oneshot;

fn unrouted(message: RoutingMessage) -> KeyValueMessage {
    match route(Some(message)) {
        RouterAction::ForwardKeyValue(message) => message,
        action => panic!("{:?}", action),
    }
}

fn serve(actor: &mut KeyValueActor, message: RoutingMessage) -> Option<WriterLogMessage> {
    match actor.step(KeyValueEvent::Message(unrouted(message))) {
        KeyValueAction::Serve { log, reply } => {
            assert!(reply.deliver().is_ok());
            log
        }
        action => panic!("{:?}", action),
    }
}

fn do_set(actor: &mut KeyValueActor, key: &str, value: &[u8]) -> Option<WriterLogMessage> {
    let (message, mut answer) = async_patterns::messages::set(key.to_string(), value.to_vec());
    let log = serve(actor, message);
    assert_eq!(answer.try_recv(), Ok(()));
    log
}

fn do_delete(actor: &mut KeyValueActor, key: &str) -> Option<WriterLogMessage> {
    let (message, mut answer) = delete(key.to_string());
    let log = serve(actor, message);
    assert_eq!(answer.try_recv(), Ok(()));
    log
}

fn do_get(actor: &mut KeyValueActor, key: &str) -> Option<Vec<u8>> {
    let (message, mut answer) = get(key.to_string());
    assert!(serve(actor, message).is_none());
    answer.try_recv().unwrap()
}

fn value(map: &DataMap, key: &str) -> Option<Vec<u8>> {
    map.get(&key.to_string())
}

fn write(writer: &mut Writer, message: WriterLogMessage) -> String {
    match writer.step(WriterEvent::Message(message)) {
        WriterAction::Rewrite { reply, contents } => {
            assert!(reply.is_none());
            contents
        }
        action => panic!("{:?}", action),
    }
}

fn put(key: &str, value: &[u8]) -> WriterLogMessage {
    WriterLogMessage::Put(key.to_string(), value.to_vec())
}

#[test]
fn service_constants() {
    assert_eq!((CHANNEL_CAPACITY, RECV_TIMEOUT_MILLIS), (32, 200));
    assert_eq!(DATA_FILE, "./data.json");
    assert_eq!(SILENCE_LIMIT_NANOS, 500_000_000);
}

#[test]
fn map_holds_what_was_put_last() {
    let mut map = DataMap::new();
    assert_eq!(value(&map, "a"), None);
    map.insert("a".to_string(), vec![1]);
    map.insert("b".to_string(), vec![2]);
    map.insert("a".to_string(), vec![3, 4]);
    assert_eq!(value(&map, "a"), Some(vec![3, 4]));
    assert_eq!(value(&map, "b"), Some(vec![2]));
    assert_eq!(map.entries().len(), 2);
    let copy = map.snapshot();
    map.remove(&"a".to_string());
    map.remove(&"missing".to_string());
    assert_eq!(value(&map, "a"), None);
    assert_eq!(value(&map, "b"), Some(vec![2]));
    assert_eq!(value(&copy, "a"), Some(vec![3, 4]));
    assert_eq!(value(&copy, "b"), Some(vec![2]));
    assert_eq!(copy_bytes(&vec![7, 8]), vec![7, 8]);
}

#[test]
fn map_can_be_made_of_entries() {
    let map = DataMap::from_entries(vec![("x".to_string(), vec![1]), ("".to_string(), vec![])]);
    assert_eq!(value(&map, "x"), Some(vec![1]));
    assert_eq!(value(&map, ""), Some(vec![]));
    assert_eq!(value(&map, "y"), None);
}

#[test]
fn written_data_is_read_back() {
    let mut map = DataMap::new();
    assert_eq!(write_data(&map), "{}");
    map.insert("hello".to_string(), b"world".to_vec());
    assert_eq!(write_data(&map), "{\"hello\":[119,111,114,108,100]}");
    map.insert("quote \" slash \\ line \n \u{1f980}".to_string(), vec![0, 255]);
    map.insert("".to_string(), vec![]);
    let back = load_map(Some(write_data(&map)));
    assert_eq!(back.entries().len(), 3);
    for (key, bytes) in map.entries() {
        assert_eq!(back.get(key).as_ref(), Some(bytes));
    }
}

#[test]
fn data_is_read_from_json() {
    let map = read_data("{ \"a\" : [1, 2], \"b\": [], \"a\": [3] }").unwrap();
    assert_eq!(map.entries().len(), 2);
    assert_eq!(value(&map, "a"), Some(vec![3]));
    assert_eq!(value(&map, "b"), Some(vec![]));
}

#[test]
fn other_texts_are_no_data() {
    for text in ["[]", "{\"a\":[256]}", "{\"a\":\"b\"}", "{\"a\":[1]} x", "null", "not json"] {
        assert!(matches!(read_data(text), Err(DataError::InvalidData(_))), "{:?}", text);
    }
    match read_data("{\"a\":[1]} x") {
        Err(DataError::InvalidData(message)) => assert_eq!(message, "trailing characters at line 1 column 11"),
        other => panic!("{:?}", other),
    }
}

#[test]
fn texts_that_end_too_early_are_told_apart() {
    for text in ["", " ", "{", "{\"a", "{\"a\":", "{\"a\":[1", "{\"a\":[1]"] {
        assert!(matches!(read_data(text), Err(DataError::UnexpectedEof(_))), "{:?}", text);
    }
    match read_data("") {
        Err(DataError::UnexpectedEof(message)) => assert_eq!(message, "EOF while parsing a value at line 1 column 0"),
        other => panic!("{:?}", other),
    }
}

#[test]
fn faults_become_errors_of_their_kind() {
    let fault = |cut_short| JsonFault { cut_short, message: "why".to_string() };
    assert!(matches!(DataError::from_fault(fault(true)), DataError::UnexpectedEof(why) if why == "why"));
    assert!(matches!(DataError::from_fault(fault(false)), DataError::InvalidData(why) if why == "why"));
}

#[test]
fn without_data_the_map_starts_empty() {
    assert!(load_map(None).entries().is_empty());
    assert!(load_map(Some("".to_string())).entries().is_empty());
    assert!(load_map(Some("not json".to_string())).entries().is_empty());
    assert!(data_or_empty(Err(DataError::UnexpectedEof("why".to_string()))).entries().is_empty());
    assert!(data_or_empty(Err(DataError::InvalidData("why".to_string()))).entries().is_empty());
    assert!(data_or_empty(Err(DataError::Unreadable)).entries().is_empty());
    let map = DataMap::from_entries(vec![("k".to_string(), vec![9])]);
    assert_eq!(value(&data_or_empty(Ok(map)), "k"), Some(vec![9]));
}

#[test]
fn values_are_read_back() {
    let mut actor = KeyValueActor::new();
    assert_eq!(do_get(&mut actor, "hello"), None);
    do_set(&mut actor, "hello", b"world");
    assert_eq!(do_get(&mut actor, "hello"), Some(b"world".to_vec()));
    assert_eq!(do_get(&mut actor, "hello"), Some(b"world".to_vec()));
    do_set(&mut actor, "test", b"world");
    do_set(&mut actor, "hello", b"again");
    assert_eq!(do_get(&mut actor, "hello"), Some(b"again".to_vec()));
    do_delete(&mut actor, "hello");
    do_delete(&mut actor, "never there");
    assert_eq!(do_get(&mut actor, "hello"), None);
    assert_eq!(do_get(&mut actor, "test"), Some(b"world".to_vec()));
}

#[test]
fn a_restart_forgets_what_was_put() {
    let mut actor = KeyValueActor::new();
    do_set(&mut actor, "hello", b"world");
    match route(Some(RoutingMessage::Reset(ActorType::KeyValue))) {
        RouterAction::Restart { capacity, pause_millis } => assert_eq!((capacity, pause_millis), (32, 100)),
        action => panic!("{:?}", action),
    }
    actor = KeyValueActor::new();
    assert_eq!(do_get(&mut actor, "hello"), None);
    do_set(&mut actor, "test", b"one");
    assert_eq!(do_get(&mut actor, "test"), Some(b"one".to_vec()));
    assert_eq!(do_get(&mut actor, "hello"), None);
    actor = KeyValueActor::new();
    do_set(&mut actor, "hello", b"two");
    assert_eq!(do_get(&mut actor, "test"), None);
    assert_eq!(do_get(&mut actor, "hello"), Some(b"two".to_vec()));
}

#[test]
fn changes_are_logged_and_questions_are_not() {
    let (message, _answer) = get("k".to_string());
    assert!(WriterLogMessage::from_key_value_message(&unrouted(message)).is_none());
    let (message, _answer) = delete("k".to_string());
    match WriterLogMessage::from_key_value_message(&unrouted(message)) {
        Some(WriterLogMessage::Delete(key)) => assert_eq!(key, "k"),
        other => panic!("{:?}", other),
    }
    let (message, _answer) = async_patterns::messages::set("k".to_string(), vec![1, 2]);
    match WriterLogMessage::from_key_value_message(&unrouted(message)) {
        Some(WriterLogMessage::Put(key, value)) => assert_eq!((key.as_str(), value), ("k", vec![1, 2])),
        other => panic!("{:?}", other),
    }
}

#[test]
fn idle_actors_report_and_closed_actors_stop() {
    let mut actor = KeyValueActor::new();
    match actor.step(KeyValueEvent::TimedOut) {
        KeyValueAction::Beat(RoutingMessage::Heartbeat(who)) => assert_eq!(who, ActorType::KeyValue),
        action => panic!("{:?}", action),
    }
    assert!(matches!(actor.step(KeyValueEvent::Closed), KeyValueAction::Stop));
    let mut writer = Writer::new(load_map(None));
    match writer.step(WriterEvent::TimedOut) {
        WriterAction::Beat(RoutingMessage::Heartbeat(who)) => assert_eq!(who, ActorType::Writer),
        action => panic!("{:?}", action),
    }
    assert!(matches!(writer.step(WriterEvent::Closed), WriterAction::Stop));
}

#[test]
fn answers_that_nobody_awaits_come_back() {
    let mut actor = KeyValueActor::new();
    do_set(&mut actor, "k", b"v");
    let (message, answer) = get("k".to_string());
    drop(answer);
    match actor.step(KeyValueEvent::Message(unrouted(message))) {
        KeyValueAction::Serve { reply, .. } => match reply.deliver() {
            Err(Undelivered::Value(value)) => assert_eq!(value, Some(b"v".to_vec())),
            other => panic!("{:?}", other),
        },
        action => panic!("{:?}", action),
    }
    let (message, answer) = delete("k".to_string());
    drop(answer);
    match actor.step(KeyValueEvent::Message(unrouted(message))) {
        KeyValueAction::Serve { reply, .. } => assert!(matches!(reply.deliver(), Err(Undelivered::Done))),
        action => panic!("{:?}", action),
    }
    assert_eq!(do_get(&mut actor, "k"), None);
}

#[test]
fn writer_rewrites_the_file_after_every_message() {
    let mut writer = Writer::new(load_map(Some("{\"old\":[1]}".to_string())));
    let contents = write(&mut writer, put("new", &[2]));
    let map = read_data(&contents).unwrap();
    assert_eq!((value(&map, "old"), value(&map, "new")), (Some(vec![1]), Some(vec![2])));
    let contents = write(&mut writer, WriterLogMessage::Delete("old".to_string()));
    assert_eq!(contents, "{\"new\":[2]}");
}

#[test]
fn writer_gives_out_all_its_data() {
    let mut writer = Writer::new(load_map(Some("{\"a\":[1],\"b\":[2]}".to_string())));
    let (sender, mut receiver) = oneshot::channel();
    match writer.step(WriterEvent::Message(WriterLogMessage::Get(sender))) {
        WriterAction::Rewrite { reply, contents } => {
            assert!(reply.unwrap().deliver().is_ok());
            assert_eq!(read_data(&contents).unwrap().entries().len(), 2);
        }
        action => panic!("{:?}", action),
    }
    let map = receiver.try_recv().unwrap();
    assert_eq!((value(&map, "a"), value(&map, "b")), (Some(vec![1]), Some(vec![2])));
    let (sender, receiver) = oneshot::channel();
    drop(receiver);
    match writer.step(WriterEvent::Message(WriterLogMessage::Get(sender))) {
        WriterAction::Rewrite { reply, .. } => {
            let back = reply.unwrap().deliver().unwrap_err();
            assert_eq!(value(&back, "a"), Some(vec![1]));
        }
        action => panic!("{:?}", action),
    }
}

#[test]
fn data_file_outlives_the_writer() {
    let mut actor = KeyValueActor::new();
    let mut writer = Writer::new(load_map(Some("{\"kept\":[7],\"gone\":[8]}".to_string())));
    let mut contents = String::new();
    let logs = vec![
        do_set(&mut actor, "hello", b"world"),
        do_delete(&mut actor, "gone"),
        do_set(&mut actor, "hello", b"again"),
    ];
    for log in logs {
        contents = write(&mut writer, log.unwrap());
    }
    let map = load_map(Some(contents));
    assert_eq!(map.entries().len(), 2);
    assert_eq!(value(&map, "hello"), Some(b"again".to_vec()));
    assert_eq!(value(&map, "hello"), do_get(&mut actor, "hello"));
    assert_eq!(value(&map, "kept"), Some(vec![7]));
    assert_eq!(value(&map, "gone"), None);
}

#[test]
fn router_hands_messages_on() {
    assert!(matches!(route(None), RouterAction::Stop));
    for actor in [ActorType::KeyValue, ActorType::Writer] {
        match route(Some(RoutingMessage::Heartbeat(actor))) {
            RouterAction::ForwardHeartbeat(who) => assert_eq!(who, actor),
            action => panic!("{:?}", action),
        }
        assert!(matches!(route(Some(RoutingMessage::Reset(actor))), RouterAction::Restart { .. }));
    }
    let (message, _answer) = get("k".to_string());
    assert!(matches!(unrouted(message), KeyValueMessage::Get(message) if message.key == "k"));
}

fn beat(heartbeats: &mut HeartbeatActor, actor: ActorType, millis: u64) -> HeartbeatAction {
    let now = millis * 1_000_000;
    heartbeats.step(HeartbeatEvent::Beat { actor, heard_at: now, checked_at: now })
}

#[test]
fn reporting_actors_are_left_alone() {
    let mut heartbeats = HeartbeatActor::new();
    for round in 0..20 {
        assert!(matches!(beat(&mut heartbeats, ActorType::KeyValue, round * 200), HeartbeatAction::Wait));
        assert!(matches!(beat(&mut heartbeats, ActorType::Writer, round * 200 + 50), HeartbeatAction::Wait));
    }
}

#[test]
fn silence_leads_to_a_reset() {
    for (silent, other) in [(ActorType::KeyValue, ActorType::Writer), (ActorType::Writer, ActorType::KeyValue)] {
        let mut heartbeats = HeartbeatActor::new();
        assert!(matches!(beat(&mut heartbeats, silent, 0), HeartbeatAction::Wait));
        assert!(matches!(beat(&mut heartbeats, other, 500), HeartbeatAction::Wait));
        match beat(&mut heartbeats, other, 501) {
            HeartbeatAction::Reset(message) => {
                assert!(matches!(message, RoutingMessage::Reset(ActorType::KeyValue)));
                assert!(matches!(route(Some(message)), RouterAction::Restart { .. }));
            }
            action => panic!("{:?}", action),
        }
        assert!(matches!(beat(&mut heartbeats, other, 10_000), HeartbeatAction::Wait));
        assert!(matches!(beat(&mut heartbeats, other, 20_000), HeartbeatAction::Wait));
    }
}

#[test]
fn silence_is_noticed_only_when_somebody_reports() {
    let mut heartbeats = HeartbeatActor::new();
    assert!(matches!(beat(&mut heartbeats, ActorType::Writer, 0), HeartbeatAction::Wait));
    assert!(matches!(heartbeats.step(HeartbeatEvent::TimedOut), HeartbeatAction::Wait));
    assert!(matches!(beat(&mut heartbeats, ActorType::Writer, 9_000), HeartbeatAction::Wait));
    let late = HeartbeatEvent::Beat { actor: ActorType::Writer, heard_at: 0, checked_at: SILENCE_LIMIT_NANOS + 1 };
    assert!(matches!(heartbeats.step(late), HeartbeatAction::Reset(_)));
    assert!(matches!(heartbeats.step(HeartbeatEvent::Closed), HeartbeatAction::Stop));
}

#[test]
fn steady_actors_are_never_started_anew() {
    let mut heartbeats = HeartbeatActor::new();
    let mut now = 0;
    for pause in [500, 0, 250, 250, 1, 499] {
        now += pause;
        assert!(matches!(beat(&mut heartbeats, ActorType::KeyValue, now), HeartbeatAction::Wait));
        assert!(matches!(beat(&mut heartbeats, ActorType::Writer, now), HeartbeatAction::Wait));
    }
}

#[test]
fn only_the_last_report_counts() {
    let mut heartbeats = HeartbeatActor::new();
    for (actor, at) in [(ActorType::Writer, 0), (ActorType::Writer, 300), (ActorType::KeyValue, 800)] {
        assert!(matches!(beat(&mut heartbeats, actor, at), HeartbeatAction::Wait));
    }
    assert!(matches!(beat(&mut heartbeats, ActorType::KeyValue, 801), HeartbeatAction::Reset(_)));
}

#[test]
fn a_lone_reporter_is_left_alone() {
    for actor in [ActorType::KeyValue, ActorType::Writer] {
        let mut heartbeats = HeartbeatActor::new();
        for at in [0, 1, 9_000, 100_000] {
            let heard_at = at * 1_000_000;
            let checked_at = heard_at + SILENCE_LIMIT_NANOS;
            let event = HeartbeatEvent::Beat { actor, heard_at, checked_at };
            assert!(matches!(heartbeats.step(event), HeartbeatAction::Wait));
        }
    }
    let mut heartbeats = HeartbeatActor::new();
    let late = HeartbeatEvent::Beat { actor: ActorType::Writer, heard_at: 0, checked_at: SILENCE_LIMIT_NANOS + 1 };
    assert!(matches!(heartbeats.step(late), HeartbeatAction::Reset(_)));
    assert!(matches!(beat(&mut heartbeats, ActorType::Writer, 9_000), HeartbeatAction::Wait));
}

#[test]
fn resets_lie_apart() {
    let mut heartbeats = HeartbeatActor::new();
    beat(&mut heartbeats, ActorType::Writer, 0);
    let mut resets = vec![];
    for at in 1..2_000 {
        if let HeartbeatAction::Reset(_) = beat(&mut heartbeats, ActorType::KeyValue, at) {
            resets.push(at);
            beat(&mut heartbeats, ActorType::Writer, at);
        }
    }
    assert_eq!(resets, vec![501, 1_002, 1_503]);
}

#[test]
fn every_actor_reports_before_a_reset() {
    let mut heartbeats = HeartbeatActor::new();
    beat(&mut heartbeats, ActorType::Writer, 0);
    assert!(matches!(beat(&mut heartbeats, ActorType::KeyValue, 600), HeartbeatAction::Reset(_)));
    for at in [700, 5_000, 9_000] {
        assert!(matches!(beat(&mut heartbeats, ActorType::KeyValue, at), HeartbeatAction::Wait));
    }
    assert!(matches!(beat(&mut heartbeats, ActorType::Writer, 9_501), HeartbeatAction::Reset(_)));
}

#[test]
fn resets_are_no_more_than_reports() {
    let mut heartbeats = HeartbeatActor::new();
    let mut reports = 0;
    let mut resets = 0;
    for at in 0..40 {
        assert!(matches!(heartbeats.step(HeartbeatEvent::TimedOut), HeartbeatAction::Wait));
        let actor = if at % 2 == 0 { ActorType::Writer } else { ActorType::KeyValue };
        reports += 1;
        if let HeartbeatAction::Reset(_) = beat(&mut heartbeats, actor, at * 600) {
            resets += 1;
        }
    }
    assert_eq!((reports, resets), (40, 20));
}
