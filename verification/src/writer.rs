//! The writer actor: it keeps the data of the key-value actor in a file.

use tokio::sync::oneshot;
use vstd::prelude::*;

use crate::data_file;
use crate::data_map::copy_bytes;
use crate::data_map::DataMap;
use crate::messages::ActorType;
use crate::messages::KeyValueMessage;
use crate::messages::Request;
use crate::messages::RoutingMessage;

verus! {

/// The file that the data is kept in.
pub const DATA_FILE: &'static str = "./data.json";

/// A message to the writer actor.
#[derive(Debug)]
pub enum WriterLogMessage {
    /// A value was put under a key.
    Put(String, Vec<u8>),
    /// The value under a key was taken away.
    Delete(String),
    /// Asks for all the data.
    Get(oneshot::Sender<DataMap>),
}

/// What a message tells the writer, apart from where an answer goes.
pub enum LogEntry {
    Put(Seq<char>, Seq<u8>),
    Delete(Seq<char>),
    Get,
}

impl LogEntry {
    /// The data after the message.
    pub open spec fn apply(self, map: Map<Seq<char>, Seq<u8>>) -> Map<Seq<char>, Seq<u8>> {
        match self {
            LogEntry::Put(key, value) => map.insert(key, value),
            LogEntry::Delete(key) => map.remove(key),
            LogEntry::Get => map,
        }
    }
}

impl View for WriterLogMessage {
    type V = LogEntry;

    open spec fn view(&self) -> LogEntry {
        match *self {
            WriterLogMessage::Put(key, value) => LogEntry::Put(key@, value@),
            WriterLogMessage::Delete(key) => LogEntry::Delete(key@),
            WriterLogMessage::Get(_) => LogEntry::Get,
        }
    }
}

/// What the writer is told of a request: every change, and nothing of a question.
pub open spec fn log_of(request: Request) -> Option<LogEntry> {
    match request {
        Request::Get(_) => None,
        Request::Delete(key) => Some(LogEntry::Delete(key)),
        Request::Put(key, value) => Some(LogEntry::Put(key, value)),
    }
}

/// What a message that may be missing tells the writer.
pub open spec fn logged(message: Option<WriterLogMessage>) -> Option<LogEntry> {
    match message {
        Some(message) => Some(message@),
        None => None,
    }
}

impl WriterLogMessage {
    /// The message that tells the writer of a request, if there is anything to tell.
    pub fn from_key_value_message(message: &KeyValueMessage) -> (log: Option<WriterLogMessage>)
        ensures
            logged(log) == log_of(message@),
    {
        match message {
            KeyValueMessage::Get(_) => None,
            KeyValueMessage::Delete(message) => Some(WriterLogMessage::Delete(message.key.clone())),
            KeyValueMessage::Put(message) => Some(
                WriterLogMessage::Put(message.key.clone(), copy_bytes(&message.value)),
            ),
        }
    }
}

/// All the data, on its way to who asked for it.
#[derive(Debug)]
pub struct Snapshot {
    pub response: oneshot::Sender<DataMap>,
    pub map: DataMap,
}

impl Snapshot {
    /// Sends the data off to who asked for it. Where nobody waits for it any more, it
    /// comes back.
    pub fn deliver(self) -> (sent: Result<(), DataMap>)
        ensures
            call_ensures(oneshot::Sender::<DataMap>::send, (self.response, self.map), sent),
            sent matches Err(back) ==> back == self.map,
    {
        self.response.send(self.map)
    }
}

/// What happened to the writer since its last step.
#[derive(Debug)]
pub enum WriterEvent {
    /// A message came.
    Message(WriterLogMessage),
    /// No message will come any more.
    Closed,
    /// No message came in time.
    TimedOut,
}

/// What the writer does next.
#[derive(Debug)]
pub enum WriterAction {
    /// Deliver the answer, if there is one, then replace all that the data file holds by
    /// `contents`.
    Rewrite { reply: Option<Snapshot>, contents: String },
    /// Stop.
    Stop,
    /// Send this to the router.
    Beat(RoutingMessage),
}

/// The writer actor, with the data that it keeps.
#[derive(Debug)]
pub struct Writer {
    map: DataMap,
}

impl View for Writer {
    type V = Map<Seq<char>, Seq<u8>>;

    closed spec fn view(&self) -> Map<Seq<char>, Seq<u8>> {
        self.map@
    }
}

impl Writer {
    /// Starts a writer with this data.
    pub fn new(map: DataMap) -> (writer: Writer)
        ensures
            writer@ == map@,
    {
        Writer { map }
    }

    /// Takes in what happened, and says what to do next. After every message the data
    /// file is written anew, so that it holds what the writer holds.
    pub fn step(&mut self, event: WriterEvent) -> (action: WriterAction)
        ensures
            match event {
                WriterEvent::Message(message) => {
                    &&& final(self)@ == message@.apply(old(self)@)
                    &&& action matches WriterAction::Rewrite { reply, contents } && {
                        &&& data_file::holds_data(contents@, final(self)@)
                        &&& match message {
                            WriterLogMessage::Get(response) => reply matches Some(snapshot)
                                && snapshot.response == response && snapshot.map@ == old(self)@,
                            _ => reply is None,
                        }
                    }
                },
                WriterEvent::Closed => final(self)@ == old(self)@ && action is Stop,
                WriterEvent::TimedOut => final(self)@ == old(self)@ && action
                    == WriterAction::Beat(RoutingMessage::Heartbeat(ActorType::Writer)),
            },
    {
        match event {
            WriterEvent::Message(message) => {
                let mut reply: Option<Snapshot> = None;
                match message {
                    WriterLogMessage::Put(key, value) => {
                        self.map.insert(key, value);
                    },
                    WriterLogMessage::Delete(key) => {
                        self.map.remove(&key);
                    },
                    WriterLogMessage::Get(response) => {
                        reply = Some(Snapshot { response, map: self.map.snapshot() });
                    },
                }
                WriterAction::Rewrite { reply, contents: data_file::write_data(&self.map) }
            },
            WriterEvent::Closed => WriterAction::Stop,
            WriterEvent::TimedOut => WriterAction::Beat(
                RoutingMessage::Heartbeat(ActorType::Writer),
            ),
        }
    }
}

/// The writer is told of a put, with its key and its value, and of a delete, with its key;
/// of a question it is told nothing.
pub proof fn writer_is_told_of_changes(message: KeyValueMessage, log: Option<WriterLogMessage>)
    requires
        call_ensures(WriterLogMessage::from_key_value_message, (&message,), log),
    ensures
        message is Get <==> log is None,
        message matches KeyValueMessage::Put(put) ==> (log matches Some(
            WriterLogMessage::Put(key, value),
        ) && key@ == put.key@ && value@ == put.value@),
        message matches KeyValueMessage::Delete(delete) ==> (log matches Some(
            WriterLogMessage::Delete(key),
        ) && key@ == delete.key@),
{
}

/// A put that the writer is told of leaves that value under that key, and a delete nothing;
/// every other key is left alone, and so are all of them by a question. Whatever the message
/// was, the text that the file gets is the JSON of all that the writer holds then. Only a
/// question is answered: to who asked, with all the data.
pub proof fn file_follows_the_writer(
    writer: &mut Writer,
    message: WriterLogMessage,
    action: WriterAction,
)
    requires
        call_ensures(Writer::step, (writer, WriterEvent::Message(message)), action),
    ensures
        match message {
            WriterLogMessage::Put(key, value) => final(writer)@ == old(writer)@.insert(key@, value@),
            WriterLogMessage::Delete(key) => final(writer)@ == old(writer)@.remove(key@),
            WriterLogMessage::Get(_) => final(writer)@ == old(writer)@,
        },
        action matches WriterAction::Rewrite { reply, contents } && {
            &&& data_file::parsed_data(contents@) == Ok::<
                Map<Seq<char>, Seq<u8>>,
                (bool, Seq<char>),
            >(final(writer)@)
            &&& reply is Some <==> message is Get
            &&& message matches WriterLogMessage::Get(response) ==> (reply matches Some(snapshot)
                && snapshot.response == response && snapshot.map@ == old(writer)@)
        },
{
}

/// Without a message nothing changes and nothing is written: a writer that waited in vain
/// reports that it is alive, and one that will hear of nothing any more stops.
pub proof fn idle_writer_only_reports(
    writer: &mut Writer,
    event: WriterEvent,
    action: WriterAction,
)
    requires
        event !is Message,
        call_ensures(Writer::step, (writer, event), action),
    ensures
        final(writer)@ == old(writer)@,
        action is Stop <==> event is Closed,
        event is TimedOut ==> action == WriterAction::Beat(
            RoutingMessage::Heartbeat(ActorType::Writer),
        ),
{
}

} // verus!
