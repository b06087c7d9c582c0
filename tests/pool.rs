use trpl::pool::{Message, PoolError, ThreadPool, Worker, WorkerState};

/// Lets the workers take messages in turn, worker 0 first, until all have
/// stopped; returns the job ids in the order they were handed out, and the
/// worker that took each.
fn drain(pool: &mut ThreadPool) -> (Vec<u64>, Vec<usize>) {
    let mut jobs = Vec::new();
    let mut takers = Vec::new();
    let n = pool.worker_count();
    let mut w = 0;
    while !pool.is_finished() {
        if pool.is_running(w) {
            match pool.next_message(w) {
                Some(Message::NewJob(id)) => {
                    jobs.push(id);
                    takers.push(w);
                }
                Some(Message::Terminate) => {}
                None => panic!("a running worker found the queue empty after shutdown"),
            }
        }
        w = (w + 1) % n;
    }
    (jobs, takers)
}

#[test]
fn new_pool_has_size_running_workers() {
    for size in [1usize, 2, 4, 16] {
        let pool = ThreadPool::new(size);
        assert_eq!(pool.worker_count(), size);
        for w in 0..size {
            assert!(pool.is_running(w));
        }
        assert_eq!(pool.pending(), 0);
        assert!(!pool.is_finished());
        assert!(!pool.is_shutting_down());
    }
}

#[test]
fn worker_starts_running() {
    let w = Worker::new(3);
    assert_eq!(w.id, 3);
    assert_eq!(w.state, WorkerState::Running);
}

#[test]
fn jobs_get_ids_in_order() {
    let mut pool = ThreadPool::new(3);
    assert_eq!(pool.execute(), Ok(0));
    assert_eq!(pool.execute(), Ok(1));
    assert_eq!(pool.execute(), Ok(2));
    assert_eq!(pool.submitted_count(), 3);
    assert_eq!(pool.pending(), 3);
}

#[test]
fn empty_queue_gives_nothing() {
    let mut pool = ThreadPool::new(2);
    assert_eq!(pool.next_message(0), None);
    assert_eq!(pool.next_message(1), None);
    assert!(pool.is_running(0));
}

#[test]
fn fifo_delivery_across_workers() {
    let mut pool = ThreadPool::new(2);
    pool.execute().unwrap();
    pool.execute().unwrap();
    assert_eq!(pool.next_message(1), Some(Message::NewJob(0)));
    assert_eq!(pool.next_message(1), Some(Message::NewJob(1)));
    assert_eq!(pool.next_message(0), None);
}

#[test]
fn five_jobs_on_two_workers_each_run_once() {
    let mut pool = ThreadPool::new(2);
    for i in 0..5u64 {
        assert_eq!(pool.execute(), Ok(i));
    }
    let order = pool.shutdown();
    assert_eq!(order, vec![0, 1]);
    let (mut jobs, _) = drain(&mut pool);
    jobs.sort();
    assert_eq!(jobs, vec![0, 1, 2, 3, 4]);
    assert!(pool.is_finished());
    assert_eq!(pool.pending(), 0);
}

#[test]
fn every_job_dispatched_exactly_once() {
    let mut pool = ThreadPool::new(3);
    for _ in 0..40 {
        pool.execute().unwrap();
    }
    pool.shutdown();
    let (jobs, _) = drain(&mut pool);
    assert_eq!(jobs.len(), 40);
    let mut seen = vec![0u32; 40];
    for id in jobs {
        seen[id as usize] += 1;
    }
    assert!(seen.iter().all(|&c| c == 1));
}

#[test]
fn jobs_leave_before_any_terminate() {
    let mut pool = ThreadPool::new(2);
    for _ in 0..3 {
        pool.execute().unwrap();
    }
    pool.shutdown();
    assert_eq!(pool.pending(), 5);
    assert_eq!(pool.next_message(0), Some(Message::NewJob(0)));
    assert_eq!(pool.next_message(0), Some(Message::NewJob(1)));
    assert_eq!(pool.next_message(1), Some(Message::NewJob(2)));
    assert_eq!(pool.next_message(1), Some(Message::Terminate));
    assert!(!pool.is_running(1));
    assert!(!pool.is_finished());
    assert_eq!(pool.next_message(0), Some(Message::Terminate));
    assert!(pool.is_finished());
    assert_eq!(pool.pending(), 0);
}

#[test]
fn no_job_after_shutdown() {
    let mut pool = ThreadPool::new(2);
    pool.execute().unwrap();
    pool.shutdown();
    assert_eq!(pool.execute(), Err(PoolError::ShutDown));
    assert_eq!(pool.submitted_count(), 1);
    assert_eq!(pool.pending(), 3);
}

#[test]
fn second_shutdown_changes_nothing() {
    let mut pool = ThreadPool::new(3);
    assert_eq!(pool.shutdown(), vec![0, 1, 2]);
    assert_eq!(pool.pending(), 3);
    assert!(pool.shutdown().is_empty());
    assert_eq!(pool.pending(), 3);
    let (jobs, _) = drain(&mut pool);
    assert!(jobs.is_empty());
}

#[test]
fn shutdown_takes_one_message_per_queued_item() {
    let mut pool = ThreadPool::new(4);
    for _ in 0..10 {
        pool.execute().unwrap();
    }
    pool.shutdown();
    let mut receives = 0;
    let mut w = 0;
    while !pool.is_finished() {
        if pool.is_running(w) {
            assert!(pool.next_message(w).is_some());
            receives += 1;
        }
        w = (w + 1) % 4;
    }
    assert_eq!(receives, 14);
}

#[test]
fn interleaved_submitters_lose_nothing() {
    let mut pool = ThreadPool::new(4);
    let mut per_submitter: Vec<Vec<u64>> = vec![Vec::new(); 8];
    for round in 0..100 {
        for s in 0..8 {
            let id = pool.execute().unwrap();
            per_submitter[s].push(id);
            if round % 7 == 0 && s == 3 {
                let _ = pool.next_message(s % 4);
            }
        }
    }
    pool.shutdown();
    let _ = drain(&mut pool);
    assert_eq!(pool.submitted_count(), 800);
    let mut all: Vec<u64> = per_submitter.into_iter().flatten().collect();
    all.sort();
    all.dedup();
    assert_eq!(all.len(), 800);
}
