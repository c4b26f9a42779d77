use std::sync::atomic::{AtomicUsize, Ordering};
use std::sync::Arc;

use async_patterns::executor::{continue_pass, FutureType, TaskQueues, WorkerStep, IDLE_SLEEP_MILLIS};
use async_patterns::pool::{PoolError, PoolStep, WorkerPools};
use async_patterns::runtime::{setting_name, worker_count, LaunchStep, Runtime, SettingError};
use async_task::Runnable;

fn runnable(counter: &Arc<AtomicUsize>, weight: usize) -> Runnable {
    let counter = counter.clone();
    let (runnable, task) = async_task::spawn(
        async move {
            counter.fetch_add(weight, Ordering::SeqCst);
        },
        |_runnable: Runnable| {},
    );
    task.detach();
    runnable
}

#[test]
fn tasks_are_of_low_priority_by_default() {
    assert_eq!(FutureType::default(), FutureType::Low);
    assert_eq!(FutureType::High.other(), FutureType::Low);
    assert_eq!(FutureType::Low.other(), FutureType::High);
}

#[test]
fn worker_runs_what_it_was_given() {
    match continue_pass(FutureType::High, FutureType::Low, Some(7)) {
        WorkerStep::Run { worker, task, runnable } => {
            assert_eq!((worker, task, runnable), (FutureType::High, FutureType::Low, 7));
        }
        _ => panic!("the worker does not run"),
    }
}

#[test]
fn worker_tries_the_other_queue_and_then_sleeps() {
    for worker in [FutureType::High, FutureType::Low] {
        match continue_pass::<u8>(worker, worker, None) {
            WorkerStep::TryRecv(queue) => assert_eq!(queue, worker.other()),
            _ => panic!("the worker does not try the other queue"),
        }
        match continue_pass::<u8>(worker, worker.other(), None) {
            WorkerStep::Sleep(millis) => assert_eq!(millis, 100),
            _ => panic!("the worker does not sleep"),
        }
    }
    assert_eq!(IDLE_SLEEP_MILLIS, 100);
}

#[test]
fn workers_take_tasks_in_their_order() {
    let counter = Arc::new(AtomicUsize::new(0));
    let queues = TaskQueues::new();
    let mut scheduler = queues.scheduler();
    assert!(scheduler.schedule(FutureType::Low, runnable(&counter, 1)).is_ok());
    assert!(scheduler.schedule(FutureType::Low, runnable(&counter, 10)).is_ok());
    assert!(scheduler.schedule(FutureType::High, runnable(&counter, 100)).is_ok());
    let mut ends = queues.worker_ends();

    let passes = [
        (FutureType::High, FutureType::High, 100),
        (FutureType::High, FutureType::Low, 101),
        (FutureType::Low, FutureType::Low, 111),
    ];
    for (kind, expected, total) in passes {
        match ends.next_step(kind) {
            WorkerStep::Run { worker, task, runnable } => {
                assert_eq!((worker, task), (kind, expected));
                runnable.run();
            }
            _ => panic!("there is a task"),
        }
        assert_eq!(counter.load(Ordering::SeqCst), total);
    }
    for kind in [FutureType::High, FutureType::Low] {
        match ends.next_step(kind) {
            WorkerStep::Sleep(millis) => assert_eq!(millis, 100),
            _ => panic!("both queues are empty"),
        }
    }
}

#[test]
fn low_priority_worker_helps_out_with_high_priority_tasks() {
    let counter = Arc::new(AtomicUsize::new(0));
    let queues = TaskQueues::new();
    assert!(queues.scheduler().schedule(FutureType::High, runnable(&counter, 1)).is_ok());
    match queues.worker_ends().next_step(FutureType::Low) {
        WorkerStep::Run { worker, task, runnable } => {
            assert_eq!((worker, task), (FutureType::Low, FutureType::High));
            runnable.run();
        }
        _ => panic!("there is a task"),
    }
    assert_eq!(counter.load(Ordering::SeqCst), 1);
}

#[test]
fn every_task_is_run_by_one_of_the_workers() {
    let counter = Arc::new(AtomicUsize::new(0));
    let queues = TaskQueues::new();
    for weight in [1, 10, 100, 1_000, 10_000] {
        assert!(queues.scheduler().schedule(FutureType::High, runnable(&counter, weight)).is_ok());
        assert!(queues.scheduler().schedule(FutureType::Low, runnable(&counter, 2 * weight)).is_ok());
    }
    let mut workers = [(FutureType::High, queues.worker_ends()), (FutureType::Low, queues.worker_ends())];
    let mut runs = 0;
    let mut sleeping = 0;
    while sleeping < workers.len() {
        sleeping = 0;
        for (kind, ends) in workers.iter_mut() {
            match ends.next_step(*kind) {
                WorkerStep::Run { runnable, .. } => {
                    runnable.run();
                    runs += 1;
                }
                WorkerStep::Sleep(_) => sleeping += 1,
                WorkerStep::TryRecv(_) => panic!("the pass is not over"),
            }
        }
    }
    assert_eq!((runs, counter.load(Ordering::SeqCst)), (10, 33_333));
}

#[test]
fn runtime_leaves_two_processors_free() {
    assert_eq!(Runtime::new(8), Runtime { high_num: 6, low_num: 1 });
    assert_eq!(Runtime::new(2), Runtime { high_num: 0, low_num: 1 });
}

#[test]
fn runtime_numbers_can_be_replaced() {
    let runtime = Runtime::new(8).with_low_num(2).with_high_num(4);
    assert_eq!(runtime, Runtime { high_num: 4, low_num: 2 });
}

#[test]
fn runtime_starts_with_its_settings_and_two_tasks() {
    let steps = Runtime { high_num: 14, low_num: 2 }.run();
    assert_eq!(steps.len(), 5);
    assert!(matches!(&steps[0], LaunchStep::SetVar { name, value } if *name == "HIGH_NUM" && value == "14"));
    assert!(matches!(&steps[1], LaunchStep::SetVar { name, value } if *name == "LOW_NUM" && value == "2"));
    assert!(matches!(&steps[2], LaunchStep::Spawn(FutureType::High)));
    assert!(matches!(&steps[3], LaunchStep::Spawn(FutureType::Low)));
    assert!(matches!(&steps[4], LaunchStep::Join));
}

#[test]
fn worker_counts_are_read_back_from_the_settings() {
    assert_eq!(setting_name(FutureType::High), "HIGH_NUM");
    assert_eq!(setting_name(FutureType::Low), "LOW_NUM");
    assert_eq!(worker_count(Some("14".to_string())), Ok(14));
    assert_eq!(worker_count(Some("0".to_string())), Ok(0));
    assert_eq!(worker_count(None), Err(SettingError::Missing));
    assert_eq!(worker_count(Some("many".to_string())), Err(SettingError::NotANumber));
    for step in (Runtime { high_num: 3, low_num: 5 }).run() {
        match step {
            LaunchStep::SetVar { name, value } => {
                let expected = if name == setting_name(FutureType::High) { 3 } else { 5 };
                assert_eq!(worker_count(Some(value)), Ok(expected));
            }
            _ => {}
        }
    }
}

fn setting(text: &str) -> Option<String> {
    Some(text.to_string())
}

#[test]
fn pools_are_started_once() {
    let mut pools = WorkerPools::new();
    assert_eq!(pools.ask(FutureType::High, setting("4")), PoolStep::Start(4));
    assert_eq!(pools.ask(FutureType::High, setting("9")), PoolStep::Ready);
    assert_eq!(pools.ask(FutureType::High, None), PoolStep::Ready);
    assert_eq!(pools.ask(FutureType::Low, setting("0")), PoolStep::Start(0));
    assert_eq!(pools.ask(FutureType::Low, setting("many")), PoolStep::Ready);
}

#[test]
fn a_pool_that_failed_to_start_stays_failed() {
    for (bad, error) in [(None, SettingError::Missing), (setting("many"), SettingError::NotANumber)] {
        for kind in [FutureType::High, FutureType::Low] {
            let mut pools = WorkerPools::new();
            assert_eq!(pools.ask(kind, bad.clone()), PoolStep::Fail(PoolError::Setting(error)));
            assert_eq!(pools.ask(kind, setting("2")), PoolStep::Fail(PoolError::Poisoned));
            assert_eq!(pools.ask(kind.other(), setting("3")), PoolStep::Start(3));
            assert_eq!(pools.ask(kind, setting("2")), PoolStep::Fail(PoolError::Poisoned));
            assert_eq!(pools.ask(kind.other(), None), PoolStep::Ready);
        }
    }
}
