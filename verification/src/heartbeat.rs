//! The heartbeat actor: it notes when each actor was last heard of, and has them started
//! anew once one has been silent for too long.

use vstd::prelude::*;

use crate::messages::ActorType;
use crate::messages::RoutingMessage;

verus! {

/// How long an actor may be silent, in nanoseconds.
pub const SILENCE_LIMIT_NANOS: u64 = 500_000_000;

/// What happened to the heartbeat actor since its last step. Times are in nanoseconds
/// from one fixed moment.
#[derive(Debug, Clone, Copy, PartialEq, Eq, Structural)]
pub enum HeartbeatEvent {
    /// An actor reported that it is alive; it was heard at `heard_at`, and the actors are
    /// looked over at `checked_at`.
    Beat { actor: ActorType, heard_at: u64, checked_at: u64 },
    /// No report will come any more.
    Closed,
    /// No report came in time.
    TimedOut,
}

/// What the heartbeat actor does next.
#[derive(Debug)]
pub enum HeartbeatAction {
    /// Wait for the next report.
    Wait,
    /// Stop.
    Stop,
    /// Send this to the router, then wait for the next report.
    Reset(RoutingMessage),
}

/// Whether an actor that was last heard at `heard_at` has been silent for too long.
pub open spec fn is_silent(heard_at: u64, now: u64) -> bool {
    heard_at + SILENCE_LIMIT_NANOS < now
}

/// Whether some actor has been silent for too long.
pub open spec fn some_silent(heard: Map<ActorType, u64>, now: u64) -> bool {
    exists|actor: ActorType| #[trigger]
        heard.contains_key(actor) && is_silent(heard[actor], now)
}

/// When each actor was last heard of, after a report; all is forgotten where one has been
/// silent for too long.
pub open spec fn after_beat(
    heard: Map<ActorType, u64>,
    actor: ActorType,
    heard_at: u64,
    checked_at: u64,
) -> Map<ActorType, u64> {
    let noted = heard.insert(actor, heard_at);
    if some_silent(noted, checked_at) {
        Map::empty()
    } else {
        noted
    }
}

/// What the heartbeat actor does after a report.
pub open spec fn beat_action(
    heard: Map<ActorType, u64>,
    actor: ActorType,
    heard_at: u64,
    checked_at: u64,
) -> HeartbeatAction {
    if some_silent(heard.insert(actor, heard_at), checked_at) {
        HeartbeatAction::Reset(RoutingMessage::Reset(ActorType::KeyValue))
    } else {
        HeartbeatAction::Wait
    }
}

/// When each actor was last heard of, after an event.
pub open spec fn after_event(heard: Map<ActorType, u64>, event: HeartbeatEvent) -> Map<
    ActorType,
    u64,
> {
    match event {
        HeartbeatEvent::Beat { actor, heard_at, checked_at } => after_beat(
            heard,
            actor,
            heard_at,
            checked_at,
        ),
        HeartbeatEvent::Closed => heard,
        HeartbeatEvent::TimedOut => heard,
    }
}

/// What the heartbeat actor does after an event.
pub open spec fn event_action(
    heard: Map<ActorType, u64>,
    event: HeartbeatEvent,
) -> HeartbeatAction {
    match event {
        HeartbeatEvent::Beat { actor, heard_at, checked_at } => beat_action(
            heard,
            actor,
            heard_at,
            checked_at,
        ),
        HeartbeatEvent::Closed => HeartbeatAction::Stop,
        HeartbeatEvent::TimedOut => HeartbeatAction::Wait,
    }
}

/// The heartbeat actor, with the time at which each actor was last heard of.
#[derive(Debug)]
pub struct HeartbeatActor {
    key_value: Option<u64>,
    writer: Option<u64>,
}

impl View for HeartbeatActor {
    type V = Map<ActorType, u64>;

    closed spec fn view(&self) -> Map<ActorType, u64> {
        Map::new(
            |actor: ActorType| self.heard_at(actor) is Some,
            |actor: ActorType| self.heard_at(actor).unwrap(),
        )
    }
}

impl HeartbeatActor {
    /// When that actor was last heard of.
    closed spec fn heard_at(self, actor: ActorType) -> Option<u64> {
        match actor {
            ActorType::KeyValue => self.key_value,
            ActorType::Writer => self.writer,
        }
    }

    /// Starts an actor that has heard of nobody.
    pub fn new() -> (heartbeats: HeartbeatActor)
        ensures
            heartbeats@ == Map::<ActorType, u64>::empty(),
    {
        let heartbeats = HeartbeatActor { key_value: None, writer: None };
        assert(heartbeats@ =~= Map::<ActorType, u64>::empty());
        heartbeats
    }

    /// Takes in what happened, and says what to do next. The actors are looked over only
    /// when one of them reports.
    pub fn step(&mut self, event: HeartbeatEvent) -> (action: HeartbeatAction)
        ensures
            final(self)@ == after_event(old(self)@, event),
            action == event_action(old(self)@, event),
    {
        match event {
            HeartbeatEvent::Beat { actor, heard_at, checked_at } => {
                let ghost before = self@;
                match actor {
                    ActorType::KeyValue => {
                        self.key_value = Some(heard_at);
                    },
                    ActorType::Writer => {
                        self.writer = Some(heard_at);
                    },
                }
                assert(self@ =~= before.insert(actor, heard_at));
                if silent(self.key_value, checked_at) || silent(self.writer, checked_at) {
                    proof {
                        if self.key_value is Some && is_silent(self.key_value.unwrap(), checked_at) {
                            assert(self@.contains_key(ActorType::KeyValue));
                        } else {
                            assert(self@.contains_key(ActorType::Writer));
                        }
                    }
                    self.key_value = None;
                    self.writer = None;
                    assert(self@ =~= Map::<ActorType, u64>::empty());
                    HeartbeatAction::Reset(RoutingMessage::Reset(ActorType::KeyValue))
                } else {
                    HeartbeatAction::Wait
                }
            },
            HeartbeatEvent::Closed => HeartbeatAction::Stop,
            HeartbeatEvent::TimedOut => HeartbeatAction::Wait,
        }
    }
}

/// Whether an actor was heard of, and has been silent for too long since.
fn silent(heard_at: Option<u64>, now: u64) -> (yes: bool)
    ensures
        yes == (heard_at is Some && is_silent(heard_at.unwrap(), now)),
{
    match heard_at {
        Some(heard_at) => now >= SILENCE_LIMIT_NANOS && heard_at < now - SILENCE_LIMIT_NANOS,
        None => false,
    }
}

/// Whatever the reports were, no actor that is still noted after a report has been
/// silent for too long.
pub proof fn no_silent_actor_is_kept(
    heard: Map<ActorType, u64>,
    reporter: ActorType,
    heard_at: u64,
    checked_at: u64,
    actor: ActorType,
)
    requires
        after_beat(heard, reporter, heard_at, checked_at).contains_key(actor),
    ensures
        !is_silent(after_beat(heard, reporter, heard_at, checked_at)[actor], checked_at),
{
}

/// An actor that has been silent for too long is noticed at the next report of the other
/// actor, and then all is forgotten.
pub proof fn silence_leads_to_a_reset(
    heard: Map<ActorType, u64>,
    reporter: ActorType,
    heard_at: u64,
    checked_at: u64,
    actor: ActorType,
)
    requires
        actor != reporter,
        heard.contains_key(actor),
        is_silent(heard[actor], checked_at),
    ensures
        beat_action(heard, reporter, heard_at, checked_at) == HeartbeatAction::Reset(
            RoutingMessage::Reset(ActorType::KeyValue),
        ),
        after_beat(heard, reporter, heard_at, checked_at) == Map::<ActorType, u64>::empty(),
{
    assert(heard.insert(reporter, heard_at).contains_key(actor));
}

/// As long as every actor that was heard of has been heard of lately, nothing is started
/// anew, and every report is kept.
pub proof fn reporting_actors_are_left_alone(
    heard: Map<ActorType, u64>,
    reporter: ActorType,
    heard_at: u64,
    checked_at: u64,
)
    requires
        !some_silent(heard, checked_at),
        checked_at <= heard_at + SILENCE_LIMIT_NANOS,
    ensures
        beat_action(heard, reporter, heard_at, checked_at) == HeartbeatAction::Wait,
        after_beat(heard, reporter, heard_at, checked_at) == heard.insert(reporter, heard_at),
{
    let noted = heard.insert(reporter, heard_at);
    assert forall|actor: ActorType| #[trigger] noted.contains_key(actor) implies !is_silent(
        noted[actor],
        checked_at,
    ) by {
        if actor != reporter {
            assert(heard.contains_key(actor));
        }
    }
}

/// A report of an actor: which one, when it was heard, and when the actors were looked
/// over after it.
pub struct Beat {
    pub actor: ActorType,
    pub heard_at: u64,
    pub checked_at: u64,
}

/// What is noted just before the report `n` of some reports: all started with nothing noted.
pub open spec fn heard_before(beats: Seq<Beat>, n: int) -> Map<ActorType, u64>
    decreases n,
{
    if n <= 0 {
        Map::empty()
    } else {
        let beat = beats[n - 1];
        after_beat(heard_before(beats, n - 1), beat.actor, beat.heard_at, beat.checked_at)
    }
}

/// What is noted when the actors are looked over after the report `n`.
pub open spec fn noted_at(beats: Seq<Beat>, n: int) -> Map<ActorType, u64> {
    heard_before(beats, n).insert(beats[n].actor, beats[n].heard_at)
}

/// Whether the report `n` of some reports has the actors started anew.
pub open spec fn resets_at(beats: Seq<Beat>, n: int) -> bool {
    let beat = beats[n];
    beat_action(heard_before(beats, n), beat.actor, beat.heard_at, beat.checked_at) is Reset
}

/// Whether the reports from `since` on come after a start, the first or a later one, with no
/// further start before the report `n`.
pub open spec fn started_at(beats: Seq<Beat>, since: int, n: int) -> bool {
    &&& 0 <= since <= n < beats.len()
    &&& since == 0 || resets_at(beats, since - 1)
    &&& forall|i: int| since <= i < n ==> !#[trigger] resets_at(beats, i)
}

/// Whether the report `k` is the last of its actor among the reports from `since` to `n`.
pub open spec fn is_last_report(beats: Seq<Beat>, since: int, n: int, k: int) -> bool {
    &&& since <= k <= n
    &&& forall|i: int| k < i <= n ==> (#[trigger] beats[i]).actor != beats[k].actor
}

/// Whether the reports come one after the other: each is heard before the actors are looked
/// over, and they are looked over before the next is heard.
pub open spec fn in_order(beats: Seq<Beat>) -> bool {
    &&& forall|i: int|
        0 <= i < beats.len() ==> (#[trigger] beats[i]).heard_at <= beats[i].checked_at
    &&& forall|i: int, k: int|
        0 <= i < k < beats.len() ==> (#[trigger] beats[i]).checked_at <= (
        #[trigger] beats[k]).heard_at
}

/// What is noted is the last report of each actor since the last start.
proof fn last_reports_are_noted(beats: Seq<Beat>, since: int, n: int)
    requires
        started_at(beats, since, n),
    ensures
        forall|k: int| #[trigger]
            is_last_report(beats, since, n, k) ==> {
                &&& noted_at(beats, n).contains_key(beats[k].actor)
                &&& noted_at(beats, n)[beats[k].actor] == beats[k].heard_at
            },
        forall|actor: ActorType| #[trigger]
            noted_at(beats, n).contains_key(actor) ==> exists|k: int| #[trigger]
                is_last_report(beats, since, n, k) && beats[k].actor == actor,
    decreases n - since,
{
    let noted = noted_at(beats, n);
    assert(is_last_report(beats, since, n, n));
    if n == since {
        assert(heard_before(beats, n) =~= Map::<ActorType, u64>::empty());
    } else {
        last_reports_are_noted(beats, since, n - 1);
        assert(!resets_at(beats, n - 1));
        assert(heard_before(beats, n) == noted_at(beats, n - 1));
        assert forall|k: int| #[trigger] is_last_report(beats, since, n, k) implies {
            &&& noted.contains_key(beats[k].actor)
            &&& noted[beats[k].actor] == beats[k].heard_at
        } by {
            if k < n {
                assert(beats[n].actor != beats[k].actor);
                assert(is_last_report(beats, since, n - 1, k));
            }
        }
        assert forall|actor: ActorType| #[trigger] noted.contains_key(actor) implies exists|k: int|
            #[trigger] is_last_report(beats, since, n, k) && beats[k].actor == actor by {
            if actor != beats[n].actor {
                assert(noted_at(beats, n - 1).contains_key(actor));
                let k = choose|k: int| #[trigger]
                    is_last_report(beats, since, n - 1, k) && beats[k].actor == actor;
                assert(is_last_report(beats, since, n, k));
            }
        }
    }
}

/// The actors are started anew at a report exactly where one of them reported since the
/// last start, and its last report has been followed by too long a silence.
pub proof fn only_silence_leads_to_a_reset(beats: Seq<Beat>, since: int, n: int)
    requires
        started_at(beats, since, n),
    ensures
        resets_at(beats, n) <==> exists|k: int| #[trigger]
            is_last_report(beats, since, n, k) && is_silent(beats[k].heard_at, beats[n].checked_at),
{
    let noted = noted_at(beats, n);
    last_reports_are_noted(beats, since, n);
    if resets_at(beats, n) {
        let actor = choose|actor: ActorType| #[trigger]
            noted.contains_key(actor) && is_silent(noted[actor], beats[n].checked_at);
        let k = choose|k: int| #[trigger]
            is_last_report(beats, since, n, k) && beats[k].actor == actor;
        assert(is_last_report(beats, since, n, k));
    }
}

/// Where every actor is heard of again in time, nothing is ever started anew: that is, where
/// at each report the last report of each actor so far is recent.
pub proof fn steady_actors_are_never_started_anew(beats: Seq<Beat>, n: int)
    requires
        0 <= n < beats.len(),
        forall|i: int, k: int|
            0 <= i <= n && #[trigger] is_last_report(beats, 0, i, k) ==> !is_silent(
                beats[k].heard_at,
                beats[i].checked_at,
            ),
    ensures
        !resets_at(beats, n),
    decreases n,
{
    assert forall|i: int| 0 <= i < n implies !#[trigger] resets_at(beats, i) by {
        steady_actors_are_never_started_anew(beats, i);
    }
    only_silence_leads_to_a_reset(beats, 0, n);
}

/// An actor that reports alone is not started anew, however long it paused, by a report that
/// is looked at in time.
pub proof fn a_lone_reporter_is_left_alone(beats: Seq<Beat>, actor: ActorType, n: int)
    requires
        0 <= n < beats.len(),
        forall|i: int| 0 <= i <= n ==> (#[trigger] beats[i]).actor == actor,
        beats[n].checked_at <= beats[n].heard_at + SILENCE_LIMIT_NANOS,
    ensures
        !resets_at(beats, n),
{
    if resets_at(beats, n) {
        let other = match actor {
            ActorType::KeyValue => ActorType::Writer,
            ActorType::Writer => ActorType::KeyValue,
        };
        every_actor_reports_before_a_reset(beats, 0, n, other);
    }
}

/// What is noted comes from a report since any of the starts.
proof fn notes_are_newer_than_a_start(beats: Seq<Beat>, since: int, n: int, actor: ActorType)
    requires
        0 <= since <= n < beats.len(),
        since == 0 || resets_at(beats, since - 1),
        noted_at(beats, n).contains_key(actor),
    ensures
        exists|k: int|
            since <= k <= n && (#[trigger] beats[k]).actor == actor && beats[k].heard_at
                == noted_at(beats, n)[actor],
    decreases n - since,
{
    if actor == beats[n].actor {
        assert(noted_at(beats, n)[actor] == beats[n].heard_at);
    } else if n == since {
        assert(heard_before(beats, n) == Map::<ActorType, u64>::empty());
    } else {
        assert(heard_before(beats, n).contains_key(actor));
        assert(heard_before(beats, n) == noted_at(beats, n - 1));
        notes_are_newer_than_a_start(beats, since, n - 1, actor);
    }
}

/// Between two starts more than the whole time passes for which an actor may be silent.
pub proof fn resets_lie_apart(beats: Seq<Beat>, i: int, n: int)
    requires
        in_order(beats),
        0 <= i < n < beats.len(),
        resets_at(beats, i),
        resets_at(beats, n),
    ensures
        beats[i].checked_at + SILENCE_LIMIT_NANOS < beats[n].checked_at,
{
    let noted = noted_at(beats, n);
    let silent = choose|actor: ActorType| #[trigger]
        noted.contains_key(actor) && is_silent(noted[actor], beats[n].checked_at);
    notes_are_newer_than_a_start(beats, i + 1, n, silent);
    let k = choose|k: int|
        i + 1 <= k <= n && (#[trigger] beats[k]).actor == silent && beats[k].heard_at
            == noted[silent];
    assert(beats[i].checked_at <= beats[k].heard_at);
}

/// Before the actors are started anew, each of them has reported since the start before,
/// where the report that leads to it is looked at in time.
pub proof fn every_actor_reports_before_a_reset(
    beats: Seq<Beat>,
    since: int,
    n: int,
    actor: ActorType,
)
    requires
        0 <= since <= n < beats.len(),
        since == 0 || resets_at(beats, since - 1),
        resets_at(beats, n),
        beats[n].checked_at <= beats[n].heard_at + SILENCE_LIMIT_NANOS,
    ensures
        exists|k: int| since <= k <= n && (#[trigger] beats[k]).actor == actor,
{
    let noted = noted_at(beats, n);
    let silent = choose|actor: ActorType| #[trigger]
        noted.contains_key(actor) && is_silent(noted[actor], beats[n].checked_at);
    notes_are_newer_than_a_start(beats, since, n, silent);
    assert(actor == silent || actor == beats[n].actor);
}

/// What is noted after some events: all started with nothing noted.
pub open spec fn heard_after(events: Seq<HeartbeatEvent>) -> Map<ActorType, u64>
    decreases events.len(),
{
    if events.len() == 0 {
        Map::empty()
    } else {
        after_event(heard_after(events.drop_last()), events.last())
    }
}

/// How often some events have the actors started anew.
pub open spec fn resets_in(events: Seq<HeartbeatEvent>) -> nat
    decreases events.len(),
{
    if events.len() == 0 {
        0
    } else {
        let before = events.drop_last();
        resets_in(before) + if event_action(heard_after(before), events.last()) is Reset {
            1nat
        } else {
            0nat
        }
    }
}

/// The reports among some events.
pub open spec fn beats_of(events: Seq<HeartbeatEvent>) -> Seq<Beat>
    decreases events.len(),
{
    if events.len() == 0 {
        Seq::empty()
    } else {
        match events.last() {
            HeartbeatEvent::Beat { actor, heard_at, checked_at } => beats_of(
                events.drop_last(),
            ).push(Beat { actor, heard_at, checked_at }),
            _ => beats_of(events.drop_last()),
        }
    }
}

/// A further report changes nothing of what was noted before it.
proof fn notes_do_not_look_ahead(beats: Seq<Beat>, beat: Beat, n: int)
    requires
        n <= beats.len(),
    ensures
        heard_before(beats.push(beat), n) == heard_before(beats, n),
    decreases n,
{
    if n > 0 {
        notes_do_not_look_ahead(beats, beat, n - 1);
    }
}

/// Only reports count, and each has the actors started anew once at most.
pub proof fn resets_are_no_more_than_reports(events: Seq<HeartbeatEvent>)
    ensures
        heard_after(events) == heard_before(beats_of(events), beats_of(events).len() as int),
        resets_in(events) <= beats_of(events).len(),
    decreases events.len(),
{
    if events.len() > 0 {
        let before = events.drop_last();
        resets_are_no_more_than_reports(before);
        if let HeartbeatEvent::Beat { actor, heard_at, checked_at } = events.last() {
            let beat = Beat { actor, heard_at, checked_at };
            notes_do_not_look_ahead(beats_of(before), beat, beats_of(before).len() as int);
        }
    }
}

/// A report has the actors started anew, and all forgotten, exactly where, at the moment of
/// the look, it is itself more than 500 milliseconds old or the last report of the other
/// actor is, however much older; otherwise it is noted, and nothing else changes.
pub proof fn half_a_second_decides(
    heartbeats: &mut HeartbeatActor,
    reporter: ActorType,
    other: ActorType,
    heard_at: u64,
    now: u64,
    action: HeartbeatAction,
)
    requires
        other != reporter,
        call_ensures(
            HeartbeatActor::step,
            (heartbeats, HeartbeatEvent::Beat { actor: reporter, heard_at, checked_at: now }),
            action,
        ),
    ensures
        if now > heard_at + 500_000_000 || (old(heartbeats)@.contains_key(other) && now > old(
            heartbeats,
        )@[other] + 500_000_000) {
            &&& action == HeartbeatAction::Reset(RoutingMessage::Reset(ActorType::KeyValue))
            &&& final(heartbeats)@ == Map::<ActorType, u64>::empty()
        } else {
            &&& action == HeartbeatAction::Wait
            &&& final(heartbeats)@ == old(heartbeats)@.insert(reporter, heard_at)
        },
{
    let noted = old(heartbeats)@.insert(reporter, heard_at);
    assert(noted.contains_key(reporter));
    if old(heartbeats)@.contains_key(other) {
        assert(noted.contains_key(other));
    }
    assert forall|actor: ActorType| #[trigger] noted.contains_key(actor) implies actor == reporter
        || (actor == other && old(heartbeats)@.contains_key(other)) by {}
}

/// Without a report nothing changes: the heartbeat actor waits on, and stops exactly where
/// no report will come any more.
pub proof fn without_a_report_nothing_happens(
    heartbeats: &mut HeartbeatActor,
    event: HeartbeatEvent,
    action: HeartbeatAction,
)
    requires
        event !is Beat,
        call_ensures(HeartbeatActor::step, (heartbeats, event), action),
    ensures
        final(heartbeats)@ == old(heartbeats)@,
        action == (if event is Closed {
            HeartbeatAction::Stop
        } else {
            HeartbeatAction::Wait
        }),
{
}

/// From the very start: an actor is heard of, and then nothing but the other actor, more
/// than 500 milliseconds later; so the actors are started anew. Had it been no later than
/// that, they would not be.
pub proof fn two_reports_tell_a_silence(
    fresh: HeartbeatActor,
    first: &mut HeartbeatActor,
    second: &mut HeartbeatActor,
    silent: ActorType,
    other: ActorType,
    t: u64,
    now: u64,
    noted: HeartbeatAction,
    decided: HeartbeatAction,
)
    requires
        silent != other,
        call_ensures(HeartbeatActor::new, (), fresh),
        *old(first) == fresh,
        call_ensures(
            HeartbeatActor::step,
            (first, HeartbeatEvent::Beat { actor: silent, heard_at: t, checked_at: t }),
            noted,
        ),
        *old(second) == *final(first),
        call_ensures(
            HeartbeatActor::step,
            (second, HeartbeatEvent::Beat { actor: other, heard_at: now, checked_at: now }),
            decided,
        ),
    ensures
        noted == HeartbeatAction::Wait,
        decided == (if now > t + 500_000_000 {
            HeartbeatAction::Reset(RoutingMessage::Reset(ActorType::KeyValue))
        } else {
            HeartbeatAction::Wait
        }),
{
    half_a_second_decides(first, silent, other, t, t, noted);
    half_a_second_decides(second, other, silent, now, now, decided);
}

} // verus!
