//! What the key-value service promises as a whole: what is read back of what was written,
//! in memory and from the data file.

use tokio::sync::oneshot;
use vstd::prelude::*;

use crate::data_file;
use crate::data_map::DataMap;
use crate::heartbeat;
use crate::key_value;
use crate::key_value::KeyValueAction;
use crate::key_value::KeyValueActor;
use crate::key_value::KeyValueEvent;
use crate::key_value::Reply;
use crate::messages;
use crate::messages::ActorType;
use crate::messages::KeyValueMessage;
use crate::messages::Request;
use crate::messages::RoutingMessage;
use crate::router;
use crate::writer;
use crate::writer::LogEntry;
use crate::writer::Writer;
use crate::writer::WriterAction;
use crate::writer::WriterEvent;
use crate::writer::WriterLogMessage;

verus! {

/// The data after some requests were served, one after the other.
pub open spec fn served(
    requests: Seq<Request>,
    map: Map<Seq<char>, Seq<u8>>,
) -> Map<Seq<char>, Seq<u8>>
    decreases requests.len(),
{
    if requests.len() == 0 {
        map
    } else {
        requests.last().apply(served(requests.drop_last(), map))
    }
}

/// What the writer is told of some requests, in their order.
pub open spec fn log(requests: Seq<Request>) -> Seq<LogEntry>
    decreases requests.len(),
{
    if requests.len() == 0 {
        Seq::empty()
    } else {
        match writer::log_of(requests.last()) {
            Some(entry) => log(requests.drop_last()).push(entry),
            None => log(requests.drop_last()),
        }
    }
}

/// The data of the writer after some messages, one after the other.
pub open spec fn kept(
    entries: Seq<LogEntry>,
    map: Map<Seq<char>, Seq<u8>>,
) -> Map<Seq<char>, Seq<u8>>
    decreases entries.len(),
{
    if entries.len() == 0 {
        map
    } else {
        entries.last().apply(kept(entries.drop_last(), map))
    }
}

/// What the last request that changed a key left under it: a value, or nothing. There is
/// no such change where no request put or deleted the key.
pub open spec fn last_change(requests: Seq<Request>, key: Seq<char>) -> Option<Option<Seq<u8>>>
    decreases requests.len(),
{
    if requests.len() == 0 {
        None
    } else {
        match requests.last() {
            Request::Put(changed, value) if changed == key => Some(Some(value)),
            Request::Delete(changed) if changed == key => Some(None),
            _ => last_change(requests.drop_last(), key),
        }
    }
}

/// A question is answered with what the last change left under the key, and, where the
/// key was never changed, with what was there at the start. Other keys have no part in it.
pub proof fn last_change_is_read_back(
    requests: Seq<Request>,
    map: Map<Seq<char>, Seq<u8>>,
    key: Seq<char>,
)
    ensures
        key_value::answer_of(Request::Get(key), served(requests, map))
            == key_value::Answer::Value(
            match last_change(requests, key) {
                Some(value) => value,
                None => key_value::lookup(map, key),
            },
        ),
    decreases requests.len(),
{
    if requests.len() > 0 {
        last_change_is_read_back(requests.drop_last(), map, key);
    }
}

/// What happens to the key-value actor.
pub enum ServiceEvent {
    /// It serves a request.
    Serve(Request),
    /// It is started anew.
    Restart,
}

/// What the key-value actor holds after some events, the first of which found it with nothing.
pub open spec fn memory(events: Seq<ServiceEvent>) -> Map<Seq<char>, Seq<u8>>
    decreases events.len(),
{
    if events.len() == 0 {
        Map::empty()
    } else {
        match events.last() {
            ServiceEvent::Serve(request) => request.apply(memory(events.drop_last())),
            ServiceEvent::Restart => Map::empty(),
        }
    }
}

/// The requests that were served since the last start.
pub open spec fn since_restart(events: Seq<ServiceEvent>) -> Seq<Request>
    decreases events.len(),
{
    if events.len() == 0 {
        Seq::empty()
    } else {
        match events.last() {
            ServiceEvent::Serve(request) => since_restart(events.drop_last()).push(request),
            ServiceEvent::Restart => Seq::empty(),
        }
    }
}

/// Requests and restarts in any order: a question is answered with what the last change
/// since the last start left under the key, and with nothing where there was none. What was
/// put before the last start is never found again.
pub proof fn a_restart_forgets_what_was_put(events: Seq<ServiceEvent>, key: Seq<char>)
    ensures
        memory(events) == served(since_restart(events), Map::empty()),
        key_value::answer_of(Request::Get(key), memory(events)) == key_value::Answer::Value(
            match last_change(since_restart(events), key) {
                Some(value) => value,
                None => None,
            },
        ),
    decreases events.len(),
{
    if events.len() > 0 {
        a_restart_forgets_what_was_put(events.drop_last(), key);
        match events.last() {
            ServiceEvent::Serve(request) => {
                let before = since_restart(events.drop_last());
                assert(before.push(request).drop_last() =~= before);
            },
            ServiceEvent::Restart => {},
        }
    }
    last_change_is_read_back(since_restart(events), Map::empty(), key);
}

/// The writer, told of the requests, changes its data as the requests do.
pub proof fn writer_follows_the_requests(
    requests: Seq<Request>,
    map: Map<Seq<char>, Seq<u8>>,
)
    ensures
        kept(log(requests), map) == served(requests, map),
    decreases requests.len(),
{
    if requests.len() > 0 {
        let before = requests.drop_last();
        writer_follows_the_requests(before, map);
        match writer::log_of(requests.last()) {
            Some(entry) => {
                assert(log(requests).drop_last() =~= log(before));
            },
            None => {},
        }
    }
}

/// Where an actor was started without data and its writer with data of its own, the two
/// hold the same under every key that was changed since, and the writer still holds under
/// every other key what it had.
pub proof fn memory_and_writer_agree_on_changes(
    requests: Seq<Request>,
    map: Map<Seq<char>, Seq<u8>>,
    key: Seq<char>,
)
    ensures
        match last_change(requests, key) {
            Some(value) => {
                &&& key_value::lookup(served(requests, Map::empty()), key) == value
                &&& key_value::lookup(kept(log(requests), map), key) == value
            },
            None => key_value::lookup(kept(log(requests), map), key) == key_value::lookup(map, key),
        },
{
    writer_follows_the_requests(requests, map);
    last_change_is_read_back(requests, map, key);
    last_change_is_read_back(requests, Map::empty(), key);
}

/// The data file outlives the actors: a writer that is started with the text that another
/// has written last holds, under every key, what the last change left there, and, where
/// there was none, what the first writer was started with.
pub proof fn data_file_outlives_the_writer(
    held_before: Option<Seq<char>>,
    requests: Seq<Request>,
    contents: Seq<char>,
    key: Seq<char>,
)
    requires
        data_file::holds_data(contents, kept(log(requests), data_file::loaded(held_before))),
    ensures
        key_value::lookup(data_file::loaded(Some(contents)), key) == (match last_change(
            requests,
            key,
        ) {
            Some(value) => value,
            None => key_value::lookup(data_file::loaded(held_before), key),
        }),
{
    data_file::written_data_is_loaded_back(
        contents,
        kept(log(requests), data_file::loaded(held_before)),
    );
    memory_and_writer_agree_on_changes(requests, data_file::loaded(held_before), key);
}

/// The service mends itself: once an actor has been silent for too long, the next report
/// of the other actor has the router start both anew.
pub proof fn silent_actors_are_started_anew(
    heard: Map<ActorType, u64>,
    reporter: ActorType,
    heard_at: u64,
    checked_at: u64,
    actor: ActorType,
)
    requires
        actor != reporter,
        heard.contains_key(actor),
        heartbeat::is_silent(heard[actor], checked_at),
    ensures
        heartbeat::beat_action(
            heard,
            reporter,
            heard_at,
            checked_at,
        ) matches heartbeat::HeartbeatAction::Reset(message) && router::route_of(Some(message)) is Restart,
{
    heartbeat::silence_leads_to_a_reset(heard, reporter, heard_at, checked_at, actor);
}

/// From a client to the actor: a request that was made to put, to get or to delete reaches
/// the key-value actor through the router as just that request, for that key and, where
/// there is one, that value, and it is answered where the client waits.
pub proof fn requests_reach_the_actor(
    key: String,
    value: Vec<u8>,
    put: (RoutingMessage, oneshot::Receiver<()>),
    put_routed: router::RouterAction,
    get: (RoutingMessage, oneshot::Receiver<Option<Vec<u8>>>),
    get_routed: router::RouterAction,
    delete: (RoutingMessage, oneshot::Receiver<()>),
    delete_routed: router::RouterAction,
)
    requires
        call_ensures(messages::set, (key, value), put),
        call_ensures(router::route, (Some(put.0),), put_routed),
        call_ensures(messages::get, (key,), get),
        call_ensures(router::route, (Some(get.0),), get_routed),
        call_ensures(messages::delete, (key,), delete),
        call_ensures(router::route, (Some(delete.0),), delete_routed),
    ensures
        put_routed matches router::RouterAction::ForwardKeyValue(KeyValueMessage::Put(message)) && {
            &&& message.key@ == key@
            &&& message.value@ == value@
            &&& call_ensures(oneshot::channel::<()>, (), (message.response, put.1))
        },
        get_routed matches router::RouterAction::ForwardKeyValue(KeyValueMessage::Get(message)) && {
            &&& message.key@ == key@
            &&& call_ensures(oneshot::channel::<Option<Vec<u8>>>, (), (message.response, get.1))
        },
        delete_routed matches router::RouterAction::ForwardKeyValue(
            KeyValueMessage::Delete(message),
        ) && {
            &&& message.key@ == key@
            &&& call_ensures(oneshot::channel::<()>, (), (message.response, delete.1))
        },
{
}

/// End to end: once a client's request to put a value under a key has gone through the
/// router and was served, a question about that key that goes the same way is answered, to
/// who asked it, with that very value; and a question about any other key with what was
/// there before.
pub proof fn what_was_put_is_found(
    key: String,
    value: Vec<u8>,
    put: (RoutingMessage, oneshot::Receiver<()>),
    put_message: KeyValueMessage,
    first: &mut KeyValueActor,
    put_served: KeyValueAction,
    asked: String,
    get: (RoutingMessage, oneshot::Receiver<Option<Vec<u8>>>),
    get_message: KeyValueMessage,
    second: &mut KeyValueActor,
    get_served: KeyValueAction,
)
    requires
        call_ensures(messages::set, (key, value), put),
        call_ensures(
            router::route,
            (Some(put.0),),
            router::RouterAction::ForwardKeyValue(put_message),
        ),
        call_ensures(
            KeyValueActor::step,
            (first, KeyValueEvent::Message(put_message)),
            put_served,
        ),
        *old(second) == *final(first),
        call_ensures(messages::get, (asked,), get),
        call_ensures(
            router::route,
            (Some(get.0),),
            router::RouterAction::ForwardKeyValue(get_message),
        ),
        call_ensures(
            KeyValueActor::step,
            (second, KeyValueEvent::Message(get_message)),
            get_served,
        ),
    ensures
        get_served matches KeyValueAction::Serve { log: None, reply: Reply::Value(response, found) }
            && {
            &&& call_ensures(oneshot::channel::<Option<Vec<u8>>>, (), (response, get.1))
            &&& asked@ == key@ ==> (found matches Some(found) && found@ == value@)
            &&& asked@ != key@ ==> {
                &&& found is Some <==> old(first)@.contains_key(asked@)
                &&& found matches Some(found) ==> found@ == old(first)@[asked@]
            }
        },
        final(second)@ == final(first)@,
{
}

/// End to end: once a client's request to delete a key has gone through the router and was
/// served, a question about that key that goes the same way is answered with nothing; and a
/// question about any other key with what was there before.
pub proof fn what_was_deleted_is_gone(
    key: String,
    delete: (RoutingMessage, oneshot::Receiver<()>),
    delete_message: KeyValueMessage,
    first: &mut KeyValueActor,
    delete_served: KeyValueAction,
    asked: String,
    get: (RoutingMessage, oneshot::Receiver<Option<Vec<u8>>>),
    get_message: KeyValueMessage,
    second: &mut KeyValueActor,
    get_served: KeyValueAction,
)
    requires
        call_ensures(messages::delete, (key,), delete),
        call_ensures(
            router::route,
            (Some(delete.0),),
            router::RouterAction::ForwardKeyValue(delete_message),
        ),
        call_ensures(
            KeyValueActor::step,
            (first, KeyValueEvent::Message(delete_message)),
            delete_served,
        ),
        *old(second) == *final(first),
        call_ensures(messages::get, (asked,), get),
        call_ensures(
            router::route,
            (Some(get.0),),
            router::RouterAction::ForwardKeyValue(get_message),
        ),
        call_ensures(
            KeyValueActor::step,
            (second, KeyValueEvent::Message(get_message)),
            get_served,
        ),
    ensures
        get_served matches KeyValueAction::Serve { log: None, reply: Reply::Value(response, found) }
            && {
            &&& call_ensures(oneshot::channel::<Option<Vec<u8>>>, (), (response, get.1))
            &&& asked@ == key@ ==> found is None
            &&& asked@ != key@ ==> {
                &&& found is Some <==> old(first)@.contains_key(asked@)
                &&& found matches Some(found) ==> found@ == old(first)@[asked@]
            }
        },
{
}

/// End to end: whatever request the actor served, the writer that is told of it changes its
/// data under the same key in the same way, and the text that its file gets, loaded by
/// another writer, gives all of that data.
pub proof fn what_was_served_is_kept(
    message: KeyValueMessage,
    actor: &mut KeyValueActor,
    log: WriterLogMessage,
    reply: Reply,
    writer: &mut Writer,
    contents: String,
    loaded: DataMap,
)
    requires
        call_ensures(
            KeyValueActor::step,
            (actor, KeyValueEvent::Message(message)),
            KeyValueAction::Serve { log: Some(log), reply },
        ),
        call_ensures(
            Writer::step,
            (writer, WriterEvent::Message(log)),
            WriterAction::Rewrite { reply: None, contents },
        ),
        call_ensures(data_file::load_map, (Some(contents),), loaded),
    ensures
        loaded@ == final(writer)@,
        message !is Get,
        message matches KeyValueMessage::Put(put) ==> loaded@ == old(writer)@.insert(
            put.key@,
            put.value@,
        ),
        message matches KeyValueMessage::Delete(delete) ==> loaded@ == old(writer)@.remove(
            delete.key@,
        ),
{
}

} // verus!
