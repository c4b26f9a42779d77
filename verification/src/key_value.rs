//! The key-value actor: it serves requests from memory, and tells the writer of every
//! change.

use tokio::sync::oneshot;
use vstd::prelude::*;

use crate::data_map::DataMap;
use crate::messages::ActorType;
use crate::messages::DeleteKeyValueMessage;
use crate::messages::GetKeyValueMessage;
use crate::messages::KeyValueMessage;
use crate::messages::Request;
use crate::messages::RoutingMessage;
use crate::messages::SetKeyValueMessage;
use crate::writer;
use crate::writer::WriterLogMessage;

verus! {

/// The answer to a request, on its way to who asked.
#[derive(Debug)]
pub enum Reply {
    /// The request was carried out.
    Done(oneshot::Sender<()>),
    /// This is the value under the key, if there is one.
    Value(oneshot::Sender<Option<Vec<u8>>>, Option<Vec<u8>>),
}

/// An answer that nobody waits for any more.
#[derive(Debug)]
pub enum Undelivered {
    Done,
    Value(Option<Vec<u8>>),
}

/// The answer to a request, apart from where it goes.
pub enum Answer {
    Done,
    Value(Option<Seq<u8>>),
}

/// The bytes of a value that may be missing.
pub open spec fn bytes(value: Option<Vec<u8>>) -> Option<Seq<u8>> {
    match value {
        Some(value) => Some(value@),
        None => None,
    }
}

/// The value that a map holds under a key, if any.
pub open spec fn lookup(map: Map<Seq<char>, Seq<u8>>, key: Seq<char>) -> Option<Seq<u8>> {
    if map.contains_key(key) {
        Some(map[key])
    } else {
        None
    }
}

/// The answer to a request, where the actor holds this data.
pub open spec fn answer_of(request: Request, map: Map<Seq<char>, Seq<u8>>) -> Answer {
    match request {
        Request::Get(key) => Answer::Value(lookup(map, key)),
        Request::Delete(_) => Answer::Done,
        Request::Put(_, _) => Answer::Done,
    }
}

impl View for Reply {
    type V = Answer;

    open spec fn view(&self) -> Answer {
        match *self {
            Reply::Done(_) => Answer::Done,
            Reply::Value(_, value) => Answer::Value(bytes(value)),
        }
    }
}

impl Reply {
    /// Whether the answer goes to who sent the request.
    pub open spec fn answers(self, message: KeyValueMessage) -> bool {
        match (self, message) {
            (Reply::Value(response, _), KeyValueMessage::Get(message)) => response
                == message.response,
            (Reply::Done(response), KeyValueMessage::Delete(message)) => response
                == message.response,
            (Reply::Done(response), KeyValueMessage::Put(message)) => response == message.response,
            _ => false,
        }
    }

    /// Sends the answer off to who asked. Where nobody waits for it any more, it comes
    /// back.
    pub fn deliver(self) -> (sent: Result<(), Undelivered>)
        ensures
            match self {
                Reply::Done(response) => exists|result: Result<(), ()>| #[trigger]
                    call_ensures(oneshot::Sender::<()>::send, (response, ()), result) && (sent is Ok
                        <==> result is Ok),
                Reply::Value(response, value) => exists|result: Result<(), Option<Vec<u8>>>|
                    #[trigger]
                    call_ensures(
                        oneshot::Sender::<Option<Vec<u8>>>::send,
                        (response, value),
                        result,
                    ) && (sent is Ok <==> result is Ok),
            },
            sent matches Err(back) ==> (match self {
                Reply::Done(_) => back == Undelivered::Done,
                Reply::Value(_, value) => back == Undelivered::Value(value),
            }),
    {
        match self {
            Reply::Done(response) => match response.send(()) {
                Ok(()) => Ok(()),
                Err(()) => Err(Undelivered::Done),
            },
            Reply::Value(response, value) => match response.send(value) {
                Ok(()) => Ok(()),
                Err(value) => Err(Undelivered::Value(value)),
            },
        }
    }
}

/// What happened to the key-value actor since its last step.
#[derive(Debug)]
pub enum KeyValueEvent {
    /// A request came.
    Message(KeyValueMessage),
    /// No request will come any more.
    Closed,
    /// No request came in time.
    TimedOut,
}

/// What the key-value actor does next.
#[derive(Debug)]
pub enum KeyValueAction {
    /// Send `log` to the writer, if there is anything to tell, then deliver the answer.
    Serve { log: Option<WriterLogMessage>, reply: Reply },
    /// Stop.
    Stop,
    /// Send this to the router.
    Beat(RoutingMessage),
}

/// The key-value actor, with the data that it holds in memory.
#[derive(Debug)]
pub struct KeyValueActor {
    map: DataMap,
}

impl View for KeyValueActor {
    type V = Map<Seq<char>, Seq<u8>>;

    closed spec fn view(&self) -> Map<Seq<char>, Seq<u8>> {
        self.map@
    }
}

impl KeyValueActor {
    /// Starts an actor without data.
    pub fn new() -> (actor: KeyValueActor)
        ensures
            actor@ == Map::<Seq<char>, Seq<u8>>::empty(),
    {
        KeyValueActor { map: DataMap::new() }
    }

    /// Takes in what happened, and says what to do next.
    pub fn step(&mut self, event: KeyValueEvent) -> (action: KeyValueAction)
        ensures
            match event {
                KeyValueEvent::Message(message) => {
                    &&& final(self)@ == message@.apply(old(self)@)
                    &&& action matches KeyValueAction::Serve { log, reply } && {
                        &&& writer::logged(log) == writer::log_of(message@)
                        &&& reply@ == answer_of(message@, old(self)@)
                        &&& reply.answers(message)
                    }
                },
                KeyValueEvent::Closed => final(self)@ == old(self)@ && action is Stop,
                KeyValueEvent::TimedOut => final(self)@ == old(self)@ && action
                    == KeyValueAction::Beat(RoutingMessage::Heartbeat(ActorType::KeyValue)),
            },
    {
        match event {
            KeyValueEvent::Message(message) => {
                let log = WriterLogMessage::from_key_value_message(&message);
                let reply = match message {
                    KeyValueMessage::Get(message) => Reply::Value(
                        message.response,
                        self.map.get(&message.key),
                    ),
                    KeyValueMessage::Delete(message) => {
                        self.map.remove(&message.key);
                        Reply::Done(message.response)
                    },
                    KeyValueMessage::Put(message) => {
                        self.map.insert(message.key, message.value);
                        Reply::Done(message.response)
                    },
                };
                KeyValueAction::Serve { log, reply }
            },
            KeyValueEvent::Closed => KeyValueAction::Stop,
            KeyValueEvent::TimedOut => KeyValueAction::Beat(
                RoutingMessage::Heartbeat(ActorType::KeyValue),
            ),
        }
    }
}

/// To put a value under a key is to have it there and leave every other key alone. The
/// writer is told of that key and that value, and who asked is told that it is done.
pub proof fn put_is_carried_out(
    actor: &mut KeyValueActor,
    message: SetKeyValueMessage,
    action: KeyValueAction,
)
    requires
        call_ensures(
            KeyValueActor::step,
            (actor, KeyValueEvent::Message(KeyValueMessage::Put(message))),
            action,
        ),
    ensures
        final(actor)@ == old(actor)@.insert(message.key@, message.value@),
        action matches KeyValueAction::Serve {
            log: Some(WriterLogMessage::Put(key, value)),
            reply: Reply::Done(response),
        } && key@ == message.key@ && value@ == message.value@ && response == message.response,
{
}

/// To delete a key is to have nothing under it and leave every other key alone. The writer
/// is told of that key, and who asked is told that it is done.
pub proof fn delete_is_carried_out(
    actor: &mut KeyValueActor,
    message: DeleteKeyValueMessage,
    action: KeyValueAction,
)
    requires
        call_ensures(
            KeyValueActor::step,
            (actor, KeyValueEvent::Message(KeyValueMessage::Delete(message))),
            action,
        ),
    ensures
        final(actor)@ == old(actor)@.remove(message.key@),
        action matches KeyValueAction::Serve {
            log: Some(WriterLogMessage::Delete(key)),
            reply: Reply::Done(response),
        } && key@ == message.key@ && response == message.response,
{
}

/// A question changes nothing, is kept from the writer, and is answered, to who asked, with
/// the very bytes under the key, or with nothing exactly where there are none.
pub proof fn question_is_answered(
    actor: &mut KeyValueActor,
    message: GetKeyValueMessage,
    action: KeyValueAction,
)
    requires
        call_ensures(
            KeyValueActor::step,
            (actor, KeyValueEvent::Message(KeyValueMessage::Get(message))),
            action,
        ),
    ensures
        final(actor)@ == old(actor)@,
        action matches KeyValueAction::Serve { log: None, reply: Reply::Value(response, value) } && {
            &&& response == message.response
            &&& value is Some <==> old(actor)@.contains_key(message.key@)
            &&& value matches Some(value) ==> value@ == old(actor)@[message.key@]
        },
{
}

/// Without a request nothing changes: an actor that waited in vain reports that it is alive,
/// and one that will hear of nothing any more stops.
pub proof fn idle_actor_only_reports(
    actor: &mut KeyValueActor,
    event: KeyValueEvent,
    action: KeyValueAction,
)
    requires
        event !is Message,
        call_ensures(KeyValueActor::step, (actor, event), action),
    ensures
        final(actor)@ == old(actor)@,
        action is Stop <==> event is Closed,
        event is TimedOut ==> action == KeyValueAction::Beat(
            RoutingMessage::Heartbeat(ActorType::KeyValue),
        ),
{
}

} // verus!
