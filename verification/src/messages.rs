//! The messages of the key-value service, and the requests that clients send.

use tokio::sync::oneshot;
use vstd::prelude::*;

verus! {

/// The end through which one answer is given. Opaque: it is only passed on.
#[verifier::external_type_specification]
#[verifier::external_body]
#[verifier::reject_recursive_types(T)]
pub struct ExReplySender<T>(oneshot::Sender<T>);

/// The end at which one answer is awaited. Opaque: it is only passed on.
#[verifier::external_type_specification]
#[verifier::external_body]
#[verifier::reject_recursive_types(T)]
pub struct ExReplyReceiver<T>(oneshot::Receiver<T>);

/// What an awaited answer comes to where the sending end went away without giving one.
/// Opaque: the receiving end names it.
#[verifier::external_type_specification]
#[verifier::external_body]
pub struct ExRecvError(oneshot::error::RecvError);

/// `oneshot::channel` makes the two ends of a new channel for one answer. Nothing is
/// claimed of the ends by themselves: what passes between them happens behind both.
pub assume_specification<T>[ oneshot::channel::<T> ]() -> (ends: (
    oneshot::Sender<T>,
    oneshot::Receiver<T>,
));

/// `oneshot::Sender::send` sends an answer. Where the receiving end is gone, the answer
/// comes back unchanged; whether it is gone depends on who awaits it.
pub assume_specification<T>[ oneshot::Sender::<T>::send ](
    sender: oneshot::Sender<T>,
    t: T,
) -> (sent: Result<(), T>)
    ensures
        sent matches Err(back) ==> back == t,
;

/// How many messages a channel between two actors holds.
pub const CHANNEL_CAPACITY: usize = 32;

/// How long an actor waits for a message before it reports that it is alive, in
/// milliseconds.
pub const RECV_TIMEOUT_MILLIS: u64 = 200;

/// Asks to put a value under a key.
#[derive(Debug)]
pub struct SetKeyValueMessage {
    pub key: String,
    pub value: Vec<u8>,
    pub response: oneshot::Sender<()>,
}

/// Asks for the value under a key.
#[derive(Debug)]
pub struct GetKeyValueMessage {
    pub key: String,
    pub response: oneshot::Sender<Option<Vec<u8>>>,
}

/// Asks to take away the value under a key.
#[derive(Debug)]
pub struct DeleteKeyValueMessage {
    pub key: String,
    pub response: oneshot::Sender<()>,
}

/// A request to the key-value actor.
#[derive(Debug)]
pub enum KeyValueMessage {
    Get(GetKeyValueMessage),
    Delete(DeleteKeyValueMessage),
    Put(SetKeyValueMessage),
}

/// What a request asks for, apart from where the answer goes.
pub enum Request {
    Get(Seq<char>),
    Delete(Seq<char>),
    Put(Seq<char>, Seq<u8>),
}

impl Request {
    /// The key that the request is about.
    pub open spec fn key(self) -> Seq<char> {
        match self {
            Request::Get(key) => key,
            Request::Delete(key) => key,
            Request::Put(key, _) => key,
        }
    }

    /// The data after the request was served.
    pub open spec fn apply(self, map: Map<Seq<char>, Seq<u8>>) -> Map<Seq<char>, Seq<u8>> {
        match self {
            Request::Get(_) => map,
            Request::Delete(key) => map.remove(key),
            Request::Put(key, value) => map.insert(key, value),
        }
    }
}

impl View for KeyValueMessage {
    type V = Request;

    open spec fn view(&self) -> Request {
        match *self {
            KeyValueMessage::Get(message) => Request::Get(message.key@),
            KeyValueMessage::Delete(message) => Request::Delete(message.key@),
            KeyValueMessage::Put(message) => Request::Put(message.key@, message.value@),
        }
    }
}

/// The actors that report to the heartbeat actor.
#[derive(Clone, Copy, PartialEq, Eq, Structural, Hash, Debug)]
pub enum ActorType {
    KeyValue,
    Writer,
}

/// A message to the router.
#[derive(Debug)]
pub enum RoutingMessage {
    /// A request for the key-value actor.
    KeyValue(KeyValueMessage),
    /// This actor is alive.
    Heartbeat(ActorType),
    /// This actor is to be started anew.
    Reset(ActorType),
}

/// The request to put a value under a key, and the end at which its answer is awaited: the
/// other end of the channel through which the request is answered.
pub fn set(key: String, value: Vec<u8>) -> (request: (RoutingMessage, oneshot::Receiver<()>))
    ensures
        request.0 matches RoutingMessage::KeyValue(KeyValueMessage::Put(message)) && {
            &&& message.key == key
            &&& message.value == value
            &&& call_ensures(oneshot::channel::<()>, (), (message.response, request.1))
        },
{
    let (response, answer) = oneshot::channel();
    let message = SetKeyValueMessage { key, value, response };
    (RoutingMessage::KeyValue(KeyValueMessage::Put(message)), answer)
}

/// The request for the value under a key, and the end at which its answer is awaited: the
/// other end of the channel through which the request is answered.
pub fn get(key: String) -> (request: (RoutingMessage, oneshot::Receiver<Option<Vec<u8>>>))
    ensures
        request.0 matches RoutingMessage::KeyValue(KeyValueMessage::Get(message)) && {
            &&& message.key == key
            &&& call_ensures(
                oneshot::channel::<Option<Vec<u8>>>,
                (),
                (message.response, request.1),
            )
        },
{
    let (response, answer) = oneshot::channel();
    let message = GetKeyValueMessage { key, response };
    (RoutingMessage::KeyValue(KeyValueMessage::Get(message)), answer)
}

/// The request to take away the value under a key, and the end at which its answer is
/// awaited: the other end of the channel through which the request is answered.
pub fn delete(key: String) -> (request: (RoutingMessage, oneshot::Receiver<()>))
    ensures
        request.0 matches RoutingMessage::KeyValue(KeyValueMessage::Delete(message)) && {
            &&& message.key == key
            &&& call_ensures(oneshot::channel::<()>, (), (message.response, request.1))
        },
{
    let (response, answer) = oneshot::channel();
    let message = DeleteKeyValueMessage { key, response };
    (RoutingMessage::KeyValue(KeyValueMessage::Delete(message)), answer)
}

} // verus!
