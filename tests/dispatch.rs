use radafi::dispatch::{pool_size, MAX_WORKERS};
use radafi::{Dispatch, Message};

/// Runs the workers in turn until the queue is empty; returns the tasks each
/// worker ran.
fn drain(d: &mut Dispatch<u32>) -> Vec<Vec<u32>> {
    let n = d.worker_count();
    let mut ran: Vec<Vec<u32>> = vec![Vec::new(); n];
    let mut w: usize = 0;
    loop {
        let mut live = false;
        for k in 0..n {
            let id = (w + k) % n;
            if d.exited(id) {
                continue;
            }
            live = true;
            match d.take(id) {
                Some(Message::NewTask(t)) => ran[id].push(t),
                Some(Message::Terminate) => {}
                None => return ran,
            }
        }
        if !live {
            return ran;
        }
        w += 1;
    }
}

#[test]
fn pool_size_is_capped_at_ten() {
    assert_eq!(MAX_WORKERS, 10);
    assert_eq!(pool_size(0), 0);
    assert_eq!(pool_size(1), 1);
    assert_eq!(pool_size(7), 7);
    assert_eq!(pool_size(10), 10);
    assert_eq!(pool_size(15), 10);
    assert_eq!(pool_size(usize::MAX), 10);
}

#[test]
fn new_pool_has_its_workers_running() {
    let d: Dispatch<u32> = Dispatch::new(4);
    assert_eq!(d.worker_count(), 4);
    for w in 0..4 {
        assert!(!d.exited(w));
    }
}

#[test]
fn take_on_empty_queue_gives_nothing() {
    let mut d: Dispatch<u32> = Dispatch::new(2);
    assert!(d.take(0).is_none());
    assert!(!d.exited(0));
}

#[test]
fn messages_leave_in_order() {
    let mut d: Dispatch<u32> = Dispatch::new(2);
    d.execute(1);
    d.execute(2);
    d.terminate();
    assert!(matches!(d.take(1), Some(Message::NewTask(1))));
    assert!(matches!(d.take(0), Some(Message::NewTask(2))));
    assert!(matches!(d.take(0), Some(Message::Terminate)));
    assert!(d.exited(0));
    assert!(!d.exited(1));
    assert!(matches!(d.take(1), Some(Message::Terminate)));
    assert!(d.exited(1));
}

#[test]
fn every_task_runs_once_for_every_pool_size() {
    for n in 1..=10usize {
        for m in [0u32, 1, 3, 10, 25] {
            let mut d: Dispatch<u32> = Dispatch::new(n);
            for t in 0..m {
                d.execute(t);
            }
            d.terminate();
            let ran = drain(&mut d);
            let mut all: Vec<u32> = ran.into_iter().flatten().collect();
            all.sort();
            assert_eq!(all, (0..m).collect::<Vec<u32>>());
            for w in 0..n {
                assert!(d.exited(w));
            }
        }
    }
}

#[test]
fn fifteen_streams_on_ten_workers() {
    let streams = 15usize;
    let workers = pool_size(streams);
    assert_eq!(workers, 10);
    let mut d: Dispatch<u32> = Dispatch::new(workers);
    for t in 0..15u32 {
        d.execute(t);
    }
    d.terminate();
    let ran = drain(&mut d);
    assert_eq!(ran.len(), 10);
    assert_eq!(ran.iter().map(|r| r.len()).sum::<usize>(), 15);
    for w in 0..10 {
        assert!(d.exited(w));
    }
}

#[test]
fn a_second_terminate_round_leaves_extra_signals() {
    let mut d: Dispatch<u32> = Dispatch::new(1);
    d.terminate();
    d.terminate();
    assert!(matches!(d.take(0), Some(Message::Terminate)));
    assert!(d.exited(0));
}
