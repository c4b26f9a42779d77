//! The settings of the task executor: how many workers of each kind it has, and how
//! those numbers reach the place that starts the workers.

use vstd::prelude::*;

use crate::decimal;
use crate::executor::FutureType;

verus! {

/// The environment variable that holds the number of high-priority workers.
pub const HIGH_NUM: &'static str = "HIGH_NUM";

/// The environment variable that holds the number of low-priority workers.
pub const LOW_NUM: &'static str = "LOW_NUM";

/// The number of workers of each kind.
#[derive(Debug, Clone, Copy, PartialEq, Eq, Structural)]
pub struct Runtime {
    pub high_num: usize,
    pub low_num: usize,
}

/// One step of starting the executor.
#[derive(Debug)]
pub enum LaunchStep {
    /// Set the environment variable `name` to `value`.
    SetVar { name: &'static str, value: String },
    /// Spawn an empty task of this priority, which starts the workers of that kind.
    Spawn(FutureType),
    /// Wait for every task spawned so far, in the order in which they were spawned.
    Join,
}

/// Why no number of workers could be read.
#[derive(Debug, Clone, Copy, PartialEq, Eq, Structural)]
pub enum SettingError {
    /// The environment variable is not set.
    Missing,
    /// The environment variable does not hold a number.
    NotANumber,
}

impl Runtime {
    /// Settings for a machine with `num_cores` processors: one low-priority worker, and
    /// high-priority workers on all processors but two.
    pub fn new(num_cores: usize) -> (runtime: Runtime)
        requires
            num_cores >= 2,
        ensures
            runtime == (Runtime { high_num: (num_cores - 2) as usize, low_num: 1 }),
    {
        Runtime { high_num: num_cores - 2, low_num: 1 }
    }

    /// The same settings with another number of high-priority workers.
    pub fn with_high_num(self, num: usize) -> (runtime: Runtime)
        ensures
            runtime == (Runtime { high_num: num, ..self }),
    {
        Runtime { high_num: num, ..self }
    }

    /// The same settings with another number of low-priority workers.
    pub fn with_low_num(self, num: usize) -> (runtime: Runtime)
        ensures
            runtime == (Runtime { low_num: num, ..self }),
    {
        Runtime { low_num: num, ..self }
    }

    /// Starts the executor: both numbers go into the environment, then one empty task
    /// of each priority is run to its end.
    pub fn run(&self) -> (steps: Vec<LaunchStep>)
        ensures
            steps@.len() == 5,
            steps@[0] matches LaunchStep::SetVar { name, value } && name@ == HIGH_NUM@ && value@
                == decimal::decimal(self.high_num as nat),
            steps@[1] matches LaunchStep::SetVar { name, value } && name@ == LOW_NUM@ && value@
                == decimal::decimal(self.low_num as nat),
            steps@[2] == LaunchStep::Spawn(FutureType::High),
            steps@[3] == LaunchStep::Spawn(FutureType::Low),
            steps@[4] == LaunchStep::Join,
    {
        let mut steps: Vec<LaunchStep> = Vec::new();
        steps.push(
            LaunchStep::SetVar { name: HIGH_NUM, value: decimal::decimal_text(self.high_num as u64) },
        );
        steps.push(
            LaunchStep::SetVar { name: LOW_NUM, value: decimal::decimal_text(self.low_num as u64) },
        );
        steps.push(LaunchStep::Spawn(FutureType::High));
        steps.push(LaunchStep::Spawn(FutureType::Low));
        steps.push(LaunchStep::Join);
        steps
    }
}

/// The environment variable that holds the number of workers of a kind.
pub fn setting_name(worker: FutureType) -> (name: &'static str)
    ensures
        name@ == (match worker {
            FutureType::High => HIGH_NUM@,
            FutureType::Low => LOW_NUM@,
        }),
{
    match worker {
        FutureType::High => HIGH_NUM,
        FutureType::Low => LOW_NUM,
    }
}

/// The number of workers to start, from the value of the environment variable.
pub open spec fn worker_count_of(setting: Option<Seq<char>>) -> Result<usize, SettingError> {
    match setting {
        None => Err(SettingError::Missing),
        Some(text) => match decimal::parsed_usize(text) {
            Some(count) => Ok(count),
            None => Err(SettingError::NotANumber),
        },
    }
}

/// Reads the number of workers to start from the value of the environment variable.
pub fn worker_count(setting: Option<String>) -> (count: Result<usize, SettingError>)
    ensures
        count == worker_count_of(
            match setting {
                Some(text) => Some(text@),
                None => None,
            },
        ),
{
    match setting {
        None => Err(SettingError::Missing),
        Some(text) => match decimal::parse_usize(text.as_str()) {
            Some(count) => Ok(count),
            None => Err(SettingError::NotANumber),
        },
    }
}

/// The number of workers that is started is the number that the settings name: what
/// [`Runtime::run`] puts into the environment, [`worker_count`] reads back.
pub proof fn launched_workers_match_settings(num: usize)
    ensures
        worker_count_of(Some(decimal::decimal(num as nat))) == Ok::<usize, SettingError>(num),
{
    decimal::usize_text_is_read_back(num);
}

/// A number of workers can be read exactly where the environment variable is set and its
/// text is one or more digits, with nothing else but one plus sign before them, whose
/// positional value fits; and then it is that value. `value` stands for the positional value
/// in base ten: nothing is worth zero, and a further digit makes ten times as much and the
/// digit.
pub proof fn worker_count_is_the_worth_of_its_text(
    setting: Option<String>,
    count: Result<usize, SettingError>,
    digits: Seq<char>,
    value: spec_fn(Seq<char>) -> int,
)
    requires
        value(Seq::<char>::empty()) == 0,
        forall|s: Seq<char>, c: char| #[trigger]
            value(s.push(c)) == 10 * value(s) + (c as int - '0' as int),
        setting matches Some(text) ==> digits == if text@.len() > 0 && text@[0] == '+' {
            text@.skip(1)
        } else {
            text@
        },
        call_ensures(worker_count, (setting,), count),
    ensures
        setting is None <==> count == Err::<usize, SettingError>(SettingError::Missing),
        count is Ok <==> {
            &&& setting is Some
            &&& digits.len() > 0
            &&& forall|k: int|
                0 <= k < digits.len() ==> '0' as int <= (#[trigger] digits[k]) as int <= '9' as int
            &&& value(digits) <= usize::MAX
        },
        count matches Ok(count) ==> count == value(digits),
{
    if setting is Some {
        decimal::parsed_usize_is_the_worth(setting.unwrap()@, digits, value);
    }
}

/// The variables are called `HIGH_NUM` and `LOW_NUM`.
pub proof fn settings_bear_their_names(worker: FutureType, name: &'static str)
    requires
        call_ensures(setting_name, (worker,), name),
    ensures
        worker == FutureType::High ==> name@ == "HIGH_NUM"@,
        worker == FutureType::Low ==> name@ == "LOW_NUM"@,
{
}

/// Settings for a machine leave two processors alone, and give the others to workers for
/// tasks of high priority; one worker is for tasks of low priority. Each number can be
/// replaced without the other.
pub proof fn settings_are_kept_apart(
    num_cores: usize,
    num: usize,
    runtime: Runtime,
    high: Runtime,
    low: Runtime,
)
    requires
        num_cores >= 2,
        call_ensures(Runtime::new, (num_cores,), runtime),
        call_ensures(Runtime::with_high_num, (runtime, num), high),
        call_ensures(Runtime::with_low_num, (runtime, num), low),
    ensures
        runtime.high_num == num_cores - 2 && runtime.low_num == 1,
        high.high_num == num && high.low_num == 1,
        low.high_num == num_cores - 2 && low.low_num == num,
{
}

/// Each variable is set to the text of the number that the settings name, and read back as
/// that number, before any task is spawned; one task of each priority is spawned, and both
/// are waited for.
pub proof fn launch_carries_the_settings(
    runtime: Runtime,
    steps: Vec<LaunchStep>,
    high: Result<usize, SettingError>,
    low: Result<usize, SettingError>,
)
    requires
        call_ensures(Runtime::run, (&runtime,), steps),
        steps@[0] matches LaunchStep::SetVar { name: _, value } ==> call_ensures(
            worker_count,
            (Some(value),),
            high,
        ),
        steps@[1] matches LaunchStep::SetVar { name: _, value } ==> call_ensures(
            worker_count,
            (Some(value),),
            low,
        ),
    ensures
        steps@.len() == 5,
        steps@[0] matches LaunchStep::SetVar { name, value: _ } && name@ == "HIGH_NUM"@,
        high == Ok::<usize, SettingError>(runtime.high_num),
        steps@[1] matches LaunchStep::SetVar { name, value: _ } && name@ == "LOW_NUM"@,
        low == Ok::<usize, SettingError>(runtime.low_num),
        steps@[2] == LaunchStep::Spawn(FutureType::High),
        steps@[3] == LaunchStep::Spawn(FutureType::Low),
        steps@[4] == LaunchStep::Join,
{
    launched_workers_match_settings(runtime.high_num);
    launched_workers_match_settings(runtime.low_num);
}

} // verus!
