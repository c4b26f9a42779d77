//! The worker pools of the task executor: a pool is started by the first task of its kind,
//! and one that could not be started never is.

use vstd::prelude::*;

use crate::executor::FutureType;
use crate::runtime;
use crate::runtime::SettingError;

verus! {

/// What became of a pool so far.
#[derive(Debug, Clone, Copy, PartialEq, Eq, Structural)]
pub enum PoolState {
    /// Nobody has asked for it yet.
    Idle,
    /// Its workers were started.
    Running,
    /// Its workers could not be started.
    Failed,
}

/// Why a task cannot have its pool.
#[derive(Debug, Clone, Copy, PartialEq, Eq, Structural)]
pub enum PoolError {
    /// The number of workers could not be read.
    Setting(SettingError),
    /// The pool could not be started for an earlier task.
    Poisoned,
}

/// What is to be done for a task before it can be queued.
#[derive(Debug, Clone, Copy, PartialEq, Eq, Structural)]
pub enum PoolStep {
    /// Nothing: the workers of the pool were started before.
    Ready,
    /// Start this many workers.
    Start(usize),
    /// Give the task up.
    Fail(PoolError),
}

/// What is to be done for a task, where its pool is in this state and the environment
/// variable for the number of workers holds this text, or is not set.
pub open spec fn step_for(state: PoolState, setting: Option<Seq<char>>) -> PoolStep {
    match state {
        PoolState::Idle => match runtime::worker_count_of(setting) {
            Ok(count) => PoolStep::Start(count),
            Err(error) => PoolStep::Fail(PoolError::Setting(error)),
        },
        PoolState::Running => PoolStep::Ready,
        PoolState::Failed => PoolStep::Fail(PoolError::Poisoned),
    }
}

/// What becomes of the pool of a task.
pub open spec fn state_after(state: PoolState, setting: Option<Seq<char>>) -> PoolState {
    match step_for(state, setting) {
        PoolStep::Ready => PoolState::Running,
        PoolStep::Start(_) => PoolState::Running,
        PoolStep::Fail(_) => PoolState::Failed,
    }
}

/// The two pools of the executor.
#[derive(Debug)]
pub struct WorkerPools {
    high: PoolState,
    low: PoolState,
}

impl WorkerPools {
    /// The state of the pool of a kind.
    pub closed spec fn state_of(self, kind: FutureType) -> PoolState {
        match kind {
            FutureType::High => self.high,
            FutureType::Low => self.low,
        }
    }

    /// Two pools that nobody has asked for.
    pub fn new() -> (pools: WorkerPools)
        ensures
            forall|kind: FutureType| #[trigger] pools.state_of(kind) == PoolState::Idle,
    {
        WorkerPools { high: PoolState::Idle, low: PoolState::Idle }
    }

    /// Asks for the pool of a task, given the value of the environment variable that holds
    /// the number of its workers. The other pool has no part in it.
    pub fn ask(&mut self, kind: FutureType, setting: Option<String>) -> (step: PoolStep)
        ensures
            ({
                let text = match setting {
                    Some(text) => Some(text@),
                    None => None,
                };
                &&& step == step_for(old(self).state_of(kind), text)
                &&& final(self).state_of(kind) == state_after(old(self).state_of(kind), text)
            }),
            final(self).state_of(kind.opposite()) == old(self).state_of(kind.opposite()),
    {
        let state = match kind {
            FutureType::High => self.high,
            FutureType::Low => self.low,
        };
        let step = match state {
            PoolState::Idle => match runtime::worker_count(setting) {
                Ok(count) => PoolStep::Start(count),
                Err(error) => PoolStep::Fail(PoolError::Setting(error)),
            },
            PoolState::Running => PoolStep::Ready,
            PoolState::Failed => PoolStep::Fail(PoolError::Poisoned),
        };
        let after = match step {
            PoolStep::Ready => PoolState::Running,
            PoolStep::Start(_) => PoolState::Running,
            PoolStep::Fail(_) => PoolState::Failed,
        };
        match kind {
            FutureType::High => {
                self.high = after;
            },
            FutureType::Low => {
                self.low = after;
            },
        }
        step
    }
}

/// A task that asks for its pool: its kind, and what the environment variable held then.
pub struct PoolCall {
    pub kind: FutureType,
    pub setting: Option<Seq<char>>,
}

/// The state of the pool of a kind just before the call `n` of some calls.
pub open spec fn state_before(calls: Seq<PoolCall>, kind: FutureType, n: int) -> PoolState
    decreases n,
{
    if n <= 0 {
        PoolState::Idle
    } else {
        let before = state_before(calls, kind, n - 1);
        if calls[n - 1].kind == kind {
            state_after(before, calls[n - 1].setting)
        } else {
            before
        }
    }
}

/// What is to be done at the call `n` of some calls.
pub open spec fn step_at(calls: Seq<PoolCall>, n: int) -> PoolStep {
    step_for(state_before(calls, calls[n].kind, n), calls[n].setting)
}

/// Before the first call of a kind its pool is idle.
proof fn pool_waits_for_its_first_call(calls: Seq<PoolCall>, kind: FutureType, n: int)
    requires
        n <= calls.len(),
        forall|i: int| 0 <= i < n ==> (#[trigger] calls[i]).kind != kind,
    ensures
        state_before(calls, kind, n) == PoolState::Idle,
    decreases n,
{
    if n > 0 {
        assert(calls[n - 1].kind != kind);
        pool_waits_for_its_first_call(calls, kind, n - 1);
    }
}

/// After the first call of a kind its pool stays as that call left it.
proof fn pool_stays_as_it_is(calls: Seq<PoolCall>, kind: FutureType, first: int, n: int)
    requires
        0 <= first < n <= calls.len(),
        calls[first].kind == kind,
        state_before(calls, kind, first) == PoolState::Idle,
    ensures
        state_before(calls, kind, n) == state_after(PoolState::Idle, calls[first].setting),
    decreases n,
{
    if n > first + 1 {
        pool_stays_as_it_is(calls, kind, first, n - 1);
    }
}

/// The first call of a kind decides once and for all. Where the setting then was missing or
/// no number, this call and every later one of the kind fails, whatever the setting has
/// become; otherwise that many workers are started, by the first call alone, and none of the
/// kind ever fails. Calls of the other kind change nothing of it.
pub proof fn first_call_decides(calls: Seq<PoolCall>, first: int, n: int)
    requires
        0 <= first <= n < calls.len(),
        calls[first].kind == calls[n].kind,
        forall|i: int| 0 <= i < first ==> (#[trigger] calls[i]).kind != calls[n].kind,
    ensures
        step_at(calls, n) == (match runtime::worker_count_of(calls[first].setting) {
            Ok(count) => if n == first {
                PoolStep::Start(count)
            } else {
                PoolStep::Ready
            },
            Err(error) => PoolStep::Fail(
                if n == first {
                    PoolError::Setting(error)
                } else {
                    PoolError::Poisoned
                },
            ),
        }),
{
    let kind = calls[n].kind;
    pool_waits_for_its_first_call(calls, kind, first);
    if first < n {
        pool_stays_as_it_is(calls, kind, first, n);
    }
}

/// A pool that nobody has asked for is started with as many workers as the setting says, and
/// fails for good where the setting says nothing; one that runs stays as it is, and one that
/// failed fails again, whatever the setting says. The other pool is left alone.
pub proof fn pool_goes_by_its_first_setting(
    pools: &mut WorkerPools,
    kind: FutureType,
    other: FutureType,
    setting: Option<String>,
    count: Result<usize, SettingError>,
    step: PoolStep,
)
    requires
        other != kind,
        call_ensures(runtime::worker_count, (setting,), count),
        call_ensures(WorkerPools::ask, (pools, kind, setting), step),
    ensures
        final(pools).state_of(other) == old(pools).state_of(other),
        match old(pools).state_of(kind) {
            PoolState::Idle => match count {
                Ok(count) => {
                    &&& step == PoolStep::Start(count)
                    &&& final(pools).state_of(kind) == PoolState::Running
                },
                Err(error) => {
                    &&& step == PoolStep::Fail(PoolError::Setting(error))
                    &&& final(pools).state_of(kind) == PoolState::Failed
                },
            },
            PoolState::Running => {
                &&& step == PoolStep::Ready
                &&& final(pools).state_of(kind) == PoolState::Running
            },
            PoolState::Failed => {
                &&& step == PoolStep::Fail(PoolError::Poisoned)
                &&& final(pools).state_of(kind) == PoolState::Failed
            },
        },
{
    assert(other == kind.opposite());
}

} // verus!
