//! A server that answers with the text of one connection: the decisions of each poll,
//! from the readiness events to the last byte read.

use vstd::prelude::*;
use vstd::utf8::*;

verus! {

/// The token of the listening socket.
pub const SERVER: usize = 0;

/// The token of the client's socket.
pub const CLIENT: usize = 1;

/// How long a poll waits for readiness events, in milliseconds.
pub const POLL_TIMEOUT_MILLIS: u64 = 200;

/// How many readiness events a poll takes at most.
pub const EVENT_CAPACITY: usize = 1;

/// How many bytes one read asks for.
pub const READ_BUFFER_LEN: usize = 1024;

/// A readiness event: which socket it is about, and what that socket is ready for.
#[derive(Debug, Clone, Copy, PartialEq, Eq, Structural)]
pub struct Readiness {
    pub token: usize,
    pub readable: bool,
    pub writable: bool,
}

impl Readiness {
    /// Whether a connection waits at the listening socket.
    pub open spec fn awaits_server(self) -> bool {
        self.token == SERVER && self.readable
    }

    /// Whether a connection waits at the listening socket.
    pub fn is_for_server(&self) -> (yes: bool)
        ensures
            yes == self.awaits_server(),
    {
        self.token == SERVER && self.readable
    }

    /// Whether the client's socket can be written to.
    pub fn is_for_client(&self) -> (yes: bool)
        ensures
            yes == (self.token == CLIENT && self.writable),
    {
        self.token == CLIENT && self.writable
    }
}

/// What happened to the server since its last step.
#[derive(Debug)]
pub enum ServerEvent {
    /// The poll came back with these readiness events.
    Polled(Vec<Readiness>),
    /// The connection was accepted.
    Accepted,
    /// A read gave these bytes; none at all mean that the peer is done.
    Read(Vec<u8>),
    /// A read failed.
    ReadFailed,
}

/// What the server does next.
#[derive(Debug)]
pub enum ServerAction {
    /// Accept the waiting connection.
    Accept,
    /// Read from the connection.
    Read,
    /// The poll is over, with this text.
    Ready(String),
    /// The poll is over without a result: ask to be polled again.
    Retry,
}

/// What the server does next, with its text as a sequence of characters.
pub enum ServerReply {
    Accept,
    Read,
    Ready(Seq<char>),
    Retry,
}

impl View for ServerAction {
    type V = ServerReply;

    open spec fn view(&self) -> ServerReply {
        match *self {
            ServerAction::Accept => ServerReply::Accept,
            ServerAction::Read => ServerReply::Read,
            ServerAction::Ready(text) => ServerReply::Ready(text@),
            ServerAction::Retry => ServerReply::Retry,
        }
    }
}

/// The text that `String::from_utf8_lossy` makes of some bytes.
pub uninterp spec fn lossy_text(bytes: Seq<u8>) -> Seq<char>;

/// Calls `String::from_utf8_lossy`, which reads bytes as UTF-8 and puts a replacement
/// character where they are not. The text depends on the bytes alone; of bytes that are
/// UTF-8 throughout it is the text that they encode, and only of no bytes it is empty.
#[verifier::external_body]
fn from_utf8_lossy(bytes: &[u8]) -> (text: String)
    ensures
        text@ == lossy_text(bytes@),
        valid_utf8(bytes@) ==> text@ == decode_utf8(bytes@),
        bytes@.len() > 0 ==> text@.len() > 0,
{
    String::from_utf8_lossy(bytes).to_string()
}

/// What the server does with the readiness events of a poll: it looks for a connection
/// that waits.
pub open spec fn after_poll(events: Seq<Readiness>) -> ServerReply {
    if exists|i: int| 0 <= i < events.len() && (#[trigger] events[i]).awaits_server() {
        ServerReply::Accept
    } else {
        ServerReply::Retry
    }
}

/// What the server does when the connection has no more bytes for it.
pub open spec fn after_end(received: Seq<u8>) -> ServerReply {
    if received.len() > 0 {
        ServerReply::Ready(lossy_text(received))
    } else {
        ServerReply::Retry
    }
}

/// What the server holds, and does, after a step.
pub open spec fn server_step(received: Seq<u8>, event: ServerEvent) -> (Seq<u8>, ServerReply) {
    match event {
        ServerEvent::Polled(events) => (seq![], after_poll(events@)),
        ServerEvent::Accepted => (received, ServerReply::Read),
        ServerEvent::Read(bytes) => if bytes@.len() > 0 {
            (received + bytes@, ServerReply::Read)
        } else {
            (seq![], after_end(received))
        },
        ServerEvent::ReadFailed => (seq![], after_end(received)),
    }
}

/// The server's state within one poll: the bytes received so far.
#[derive(Debug)]
pub struct ServerFuture {
    received_data: Vec<u8>,
}

impl View for ServerFuture {
    type V = Seq<u8>;

    closed spec fn view(&self) -> Seq<u8> {
        self.received_data@
    }
}

impl ServerFuture {
    /// A server that has received nothing.
    pub fn new() -> (server: ServerFuture)
        ensures
            server@ == Seq::<u8>::empty(),
    {
        ServerFuture { received_data: Vec::new() }
    }

    /// Takes in what happened, and says what to do next. An answer is never empty.
    pub fn poll(&mut self, event: ServerEvent) -> (action: ServerAction)
        ensures
            (final(self)@, action@) == server_step(old(self)@, event),
            action matches ServerAction::Ready(text) ==> text@.len() > 0,
            action matches ServerAction::Ready(text) ==> valid_utf8(old(self)@) ==> text@
                == decode_utf8(old(self)@),
    {
        match event {
            ServerEvent::Polled(events) => {
                self.received_data = Vec::new();
                if has_waiting(&events) {
                    ServerAction::Accept
                } else {
                    ServerAction::Retry
                }
            },
            ServerEvent::Accepted => ServerAction::Read,
            ServerEvent::Read(bytes) => {
                if bytes.len() > 0 {
                    let mut bytes = bytes;
                    self.received_data.append(&mut bytes);
                    ServerAction::Read
                } else {
                    self.end()
                }
            },
            ServerEvent::ReadFailed => self.end(),
        }
    }

    /// Ends the poll: everything received is the answer, unless that is nothing.
    fn end(&mut self) -> (action: ServerAction)
        ensures
            final(self)@ == Seq::<u8>::empty(),
            action@ == after_end(old(self)@),
            action matches ServerAction::Ready(text) ==> text@.len() > 0,
            action matches ServerAction::Ready(text) ==> valid_utf8(old(self)@) ==> text@
                == decode_utf8(old(self)@),
    {
        let action = if self.received_data.len() > 0 {
            ServerAction::Ready(from_utf8_lossy(self.received_data.as_slice()))
        } else {
            ServerAction::Retry
        };
        self.received_data = Vec::new();
        action
    }
}

/// Whether one of the events says that a connection waits.
fn has_waiting(events: &Vec<Readiness>) -> (yes: bool)
    ensures
        yes == (after_poll(events@) == ServerReply::Accept),
{
    let mut i: usize = 0;
    while i < events.len()
        invariant
            i <= events@.len(),
            forall|j: int| 0 <= j < i ==> !(#[trigger] events@[j]).awaits_server(),
        decreases events@.len() - i,
    {
        if events[i].is_for_server() {
            return true;
        }
        i += 1;
    }
    false
}

/// The bytes of some reads, one after the other.
pub open spec fn joined(reads: Seq<Vec<u8>>) -> Seq<u8> {
    reads.map_values(|bytes: Vec<u8>| bytes@).flatten()
}

/// What the server holds once a fresh poll has taken in these reads.
pub open spec fn after_reads(reads: Seq<Vec<u8>>) -> Seq<u8>
    decreases reads.len(),
{
    if reads.len() == 0 {
        Seq::empty()
    } else {
        server_step(after_reads(reads.drop_last()), ServerEvent::Read(reads.last())).0
    }
}

/// The answer is all that was read, in the order in which it was read, whether the
/// connection was closed or broke off; and a connection that gave nothing is not
/// answered at all.
pub proof fn answer_is_everything_read(reads: Seq<Vec<u8>>, end: ServerEvent)
    requires
        forall|i: int| 0 <= i < reads.len() ==> (#[trigger] reads[i])@.len() > 0,
        end is ReadFailed || (end matches ServerEvent::Read(bytes) && bytes@.len() == 0),
    ensures
        after_reads(reads) == joined(reads),
        server_step(after_reads(reads), end).1 == if reads.len() > 0 {
            ServerReply::Ready(lossy_text(joined(reads)))
        } else {
            ServerReply::Retry
        },
    decreases reads.len(),
{
    let view = |bytes: Vec<u8>| bytes@;
    let all = reads.map_values(view);
    all.lemma_flatten_and_flatten_alt_are_equivalent();
    if reads.len() > 0 {
        let before = reads.drop_last();
        answer_is_everything_read(before, end);
        before.map_values(view).lemma_flatten_and_flatten_alt_are_equivalent();
        assert(all.drop_last() =~= before.map_values(view));
        assert(after_reads(reads) =~= joined(reads));
        assert(joined(reads).len() > 0);
    } else {
        assert(joined(reads) =~= Seq::empty());
    }
}

/// A connection waits at the listening socket where an event bears the token 0 and says that
/// it can be read; the client's socket can be written to where an event bears the token 1
/// and says so.
pub proof fn events_are_told_by_token_and_readiness(event: Readiness, server: bool, client: bool)
    requires
        call_ensures(Readiness::is_for_server, (&event,), server),
        call_ensures(Readiness::is_for_client, (&event,), client),
    ensures
        server <==> event.token == 0 && event.readable,
        client <==> event.token == 1 && event.writable,
{
}

/// A poll begins with nothing received, whatever was held before, and a connection is
/// accepted exactly where one of the events says that one waits.
pub proof fn poll_begins_with_nothing(
    server: &mut ServerFuture,
    events: Vec<Readiness>,
    action: ServerAction,
)
    requires
        call_ensures(ServerFuture::poll, (server, ServerEvent::Polled(events)), action),
    ensures
        final(server)@ == Seq::<u8>::empty(),
        action == (if exists|i: int|
            0 <= i < events@.len() && (#[trigger] events@[i]).token == 0 && events@[i].readable {
            ServerAction::Accept
        } else {
            ServerAction::Retry
        }),
{
    assert forall|i: int| 0 <= i < events@.len() implies (#[trigger] events@[i]).awaits_server()
        == (events@[i].token == 0 && events@[i].readable) by {}
    if exists|i: int|
        0 <= i < events@.len() && (#[trigger] events@[i]).token == 0 && events@[i].readable {
        let i = choose|i: int|
            0 <= i < events@.len() && (#[trigger] events@[i]).token == 0 && events@[i].readable;
        assert(events@[i].awaits_server());
    }
}

/// To accept a connection is to hold on to what is held and to read.
pub proof fn accepting_adds_nothing(server: &mut ServerFuture, action: ServerAction)
    requires
        call_ensures(ServerFuture::poll, (server, ServerEvent::Accepted), action),
    ensures
        final(server)@ == old(server)@,
        action == ServerAction::Read,
{
}

/// What is read is added behind what is held, byte by byte, and then there is more to read.
pub proof fn bytes_are_added_as_they_come(
    server: &mut ServerFuture,
    bytes: Vec<u8>,
    action: ServerAction,
)
    requires
        bytes@.len() > 0,
        call_ensures(ServerFuture::poll, (server, ServerEvent::Read(bytes)), action),
    ensures
        final(server)@ == old(server)@ + bytes@,
        action == ServerAction::Read,
{
}

/// At the end, whether the peer is done or a read failed, the answer is the text of all that
/// is held, and there is none exactly where nothing is.
pub proof fn all_that_is_held_is_the_answer(
    server: &mut ServerFuture,
    end: ServerEvent,
    action: ServerAction,
)
    requires
        end is ReadFailed || (end matches ServerEvent::Read(bytes) && bytes@.len() == 0),
        call_ensures(ServerFuture::poll, (server, end), action),
    ensures
        final(server)@ == Seq::<u8>::empty(),
        if old(server)@.len() > 0 {
            action matches ServerAction::Ready(text) && {
                &&& text@ == lossy_text(old(server)@)
                &&& valid_utf8(old(server)@) ==> text@ == decode_utf8(old(server)@)
                &&& text@.len() > 0
            }
        } else {
            action == ServerAction::Retry
        },
{
}

/// A whole poll, whatever was held before it: a connection waits and is accepted, some reads
/// give bytes, and then the peer is done or a read fails. The answer is the text of exactly
/// the bytes of those reads, in their order, and there is none where there were no reads.
/// `held[i]` is what the server holds just before the event `i`, and `replies[i]` what it
/// does then.
pub proof fn whole_poll_answers_what_was_read(
    ready: Vec<Readiness>,
    reads: Seq<Vec<u8>>,
    events: Seq<ServerEvent>,
    held: Seq<Seq<u8>>,
    replies: Seq<ServerReply>,
)
    requires
        exists|i: int| 0 <= i < ready@.len() && (#[trigger] ready@[i]).token == 0 && ready@[i].readable,
        events.len() == reads.len() + 3,
        events[0] == ServerEvent::Polled(ready),
        events[1] == ServerEvent::Accepted,
        forall|i: int|
            0 <= i < reads.len() ==> (#[trigger] reads[i])@.len() > 0 && events[i + 2]
                == ServerEvent::Read(reads[i]),
        events.last() is ReadFailed || (events.last() matches ServerEvent::Read(bytes)
            && bytes@.len() == 0),
        held.len() == events.len() + 1,
        replies.len() == events.len(),
        forall|i: int|
            0 <= i < events.len() ==> (held[i + 1], #[trigger] replies[i]) == server_step(
                held[i],
                events[i],
            ),
    ensures
        replies[0] == ServerReply::Accept,
        forall|i: int| 1 <= i <= reads.len() + 1 ==> #[trigger] replies[i] == ServerReply::Read,
        held[1].len() == 0 && held[2].len() == 0,
        ({
            let all = reads.map_values(|bytes: Vec<u8>| bytes@).flatten();
            replies.last() == if reads.len() > 0 {
                ServerReply::Ready(lossy_text(all))
            } else {
                ServerReply::Retry
            }
        }),
{
    let i = choose|i: int|
        0 <= i < ready@.len() && (#[trigger] ready@[i]).token == 0 && ready@[i].readable;
    assert(ready@[i].awaits_server());
    assert(replies[0] == server_step(held[0], events[0]).1);
    assert(replies[1] == server_step(held[1], events[1]).1);
    held_follows_the_reads(reads, events, held, replies, reads.len() as int);
    assert forall|i: int| 1 <= i <= reads.len() + 1 implies #[trigger] replies[i]
        == ServerReply::Read by {
        if i > 1 {
            assert(reads[i - 2]@.len() > 0);
        }
    }
    assert(reads.take(reads.len() as int) =~= reads);
    let end = events.last();
    assert(end == events[reads.len() as int + 2]);
    assert(replies[reads.len() as int + 2] == server_step(held[reads.len() as int + 2], end).1);
    answer_is_everything_read(reads, end);
}

/// While a connection is read, what is held is what the reads so far gave.
proof fn held_follows_the_reads(
    reads: Seq<Vec<u8>>,
    events: Seq<ServerEvent>,
    held: Seq<Seq<u8>>,
    replies: Seq<ServerReply>,
    n: int,
)
    requires
        0 <= n <= reads.len(),
        events.len() == reads.len() + 3,
        events[1] == ServerEvent::Accepted,
        forall|i: int|
            0 <= i < reads.len() ==> (#[trigger] reads[i])@.len() > 0 && events[i + 2]
                == ServerEvent::Read(reads[i]),
        held.len() == events.len() + 1,
        replies.len() == events.len(),
        forall|i: int|
            0 <= i < events.len() ==> (held[i + 1], #[trigger] replies[i]) == server_step(
                held[i],
                events[i],
            ),
        held[1] == Seq::<u8>::empty(),
    ensures
        held[n + 2] == after_reads(reads.take(n)),
    decreases n,
{
    if n > 0 {
        held_follows_the_reads(reads, events, held, replies, n - 1);
        assert(reads[n - 1]@.len() > 0);
        assert((held[n + 2], replies[n + 1]) == server_step(held[n + 1], events[n + 1]));
        assert(reads.take(n).drop_last() =~= reads.take(n - 1));
        assert(reads.take(n).last() == reads[n - 1]);
    } else {
        assert((held[2], replies[1]) == server_step(held[1], events[1]));
        assert(reads.take(0) =~= Seq::<Vec<u8>>::empty());
    }
}

} // verus!
