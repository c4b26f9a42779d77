//! The router: it hands every message on to the actor that it is for, and starts actors
//! anew.

use vstd::prelude::*;

use crate::messages::ActorType;
use crate::messages::KeyValueMessage;
use crate::messages::RoutingMessage;
use crate::messages::CHANNEL_CAPACITY;

verus! {

/// How long the router pauses after it started an actor anew, in milliseconds.
pub const RESTART_PAUSE_MILLIS: u64 = 100;

/// What the router does next.
#[derive(Debug)]
pub enum RouterAction {
    /// Send this to the key-value actor.
    ForwardKeyValue(KeyValueMessage),
    /// Send this to the heartbeat actor.
    ForwardHeartbeat(ActorType),
    /// Make a channel that holds `capacity` messages, abort the key-value actor, start a
    /// new one that receives from the channel, send to it from now on, and pause.
    Restart { capacity: usize, pause_millis: u64 },
    /// Stop.
    Stop,
}

/// What the router does with what was received.
pub open spec fn route_of(received: Option<RoutingMessage>) -> RouterAction {
    match received {
        Some(RoutingMessage::KeyValue(message)) => RouterAction::ForwardKeyValue(message),
        Some(RoutingMessage::Heartbeat(actor)) => RouterAction::ForwardHeartbeat(actor),
        Some(RoutingMessage::Reset(_)) => RouterAction::Restart {
            capacity: CHANNEL_CAPACITY,
            pause_millis: RESTART_PAUSE_MILLIS,
        },
        None => RouterAction::Stop,
    }
}

/// Says what to do with what was received, where nothing means that no message will come
/// any more. Both actors are started anew together, whichever of them is to be: the
/// writer belongs to the key-value actor.
pub fn route(received: Option<RoutingMessage>) -> (action: RouterAction)
    ensures
        action == route_of(received),
{
    match received {
        Some(message) => match message {
            RoutingMessage::KeyValue(message) => RouterAction::ForwardKeyValue(message),
            RoutingMessage::Heartbeat(actor) => RouterAction::ForwardHeartbeat(actor),
            RoutingMessage::Reset(actor) => match actor {
                ActorType::KeyValue | ActorType::Writer => RouterAction::Restart {
                    capacity: CHANNEL_CAPACITY,
                    pause_millis: RESTART_PAUSE_MILLIS,
                },
            },
        },
        None => RouterAction::Stop,
    }
}

/// The key-value actor is sent a request exactly where that very request was received, and
/// the heartbeat actor a report exactly where that very report was; the actors are started
/// anew, with room for 32 messages and a pause of 100 milliseconds, exactly where any of
/// them is to be; and the router stops exactly where no message will come any more.
pub proof fn messages_are_handed_on_unchanged(
    received: Option<RoutingMessage>,
    action: RouterAction,
    message: KeyValueMessage,
    actor: ActorType,
)
    requires
        call_ensures(route, (received,), action),
    ensures
        action == RouterAction::ForwardKeyValue(message) <==> received == Some(
            RoutingMessage::KeyValue(message),
        ),
        action == RouterAction::ForwardHeartbeat(actor) <==> received == Some(
            RoutingMessage::Heartbeat(actor),
        ),
        action is Restart <==> (received matches Some(RoutingMessage::Reset(_))),
        action matches RouterAction::Restart { capacity, pause_millis } ==> capacity == 32
            && pause_millis == 100,
        action is Stop <==> received is None,
{
}

} // verus!
