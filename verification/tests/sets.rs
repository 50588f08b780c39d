use concurrent_jobs::ConcurrentJob;
use concurrent_jobs::Disposal;
use concurrent_jobs::JobToken;
use concurrent_jobs::Jobs;
use concurrent_jobs::Signal;
use crossbeam_channel::after;
use crossbeam_utils::thread::scope;
use std::time::Duration;
use std::time::Instant;

fn pause(millis: u64) {
    let _ = after(Duration::from_millis(millis)).recv();
}

fn fill(jobs: &mut Jobs, n: usize) -> Vec<JobToken> {
    let mut tokens = Vec::new();
    for _ in 0..n {
        let (job, token) = ConcurrentJob::new();
        jobs.add(job);
        tokens.push(token);
    }
    tokens
}

#[test]
fn a_new_set_is_empty() {
    let jobs = Jobs::new();
    assert_eq!(jobs.len(), 0);
    assert!(jobs.is_empty());
}

#[test]
fn waiting_on_an_empty_set_returns() {
    let mut jobs = Jobs::new();
    jobs.wait_for_all();
    assert!(jobs.is_empty());
    jobs.wait_for_all();
    assert_eq!(jobs.len(), 0);
}

#[test]
fn adding_keeps_running_jobs() {
    let mut jobs = Jobs::new();
    let tokens = fill(&mut jobs, 3);
    assert_eq!(jobs.len(), 3);
    assert!(!jobs.is_empty());
    drop(tokens);
    jobs.wait_for_all();
}

#[test]
fn adding_sweeps_completed_jobs() {
    let mut jobs = Jobs::new();
    let mut tokens = fill(&mut jobs, 3);
    assert_eq!(jobs.len(), 3);
    drop(tokens.remove(2));
    drop(tokens.remove(0));
    assert_eq!(jobs.len(), 3);
    let (job, token) = ConcurrentJob::new();
    jobs.add(job);
    assert_eq!(jobs.len(), 2);
    drop(tokens);
    let (job, last) = ConcurrentJob::new();
    jobs.add(job);
    assert_eq!(jobs.len(), 2);
    drop(token);
    drop(last);
    jobs.wait_for_all();
    assert!(jobs.is_empty());
}

#[test]
fn adding_does_not_sweep_the_new_handle() {
    let mut jobs = Jobs::new();
    let (job, token) = ConcurrentJob::new();
    drop(token);
    jobs.add(job);
    assert_eq!(jobs.len(), 1);
    jobs.wait_for_all();
    assert_eq!(jobs.len(), 0);
}

#[test]
fn waiting_ends_once_every_token_is_dropped() {
    let mut jobs = Jobs::new();
    let mut tokens = fill(&mut jobs, 5);
    drop(tokens.remove(3));
    drop(tokens.remove(0));
    drop(tokens.remove(2));
    drop(tokens.remove(1));
    drop(tokens.remove(0));
    assert_eq!(jobs.len(), 5);
    jobs.wait_for_all();
    assert!(jobs.is_empty());
    assert_eq!(jobs.len(), 0);
}

#[test]
fn waiting_follows_the_order_of_completion() {
    let mut jobs = Jobs::new();
    let mut tokens = fill(&mut jobs, 4);
    scope(|s| {
        s.spawn(move |_| {
            for at in [2, 0, 1, 0] {
                pause(15);
                drop(tokens.remove(at));
            }
        });
        jobs.wait_for_all();
    })
    .unwrap();
    assert!(jobs.is_empty());
}

#[test]
fn waiting_ends_when_tokens_are_dropped_concurrently() {
    let mut jobs = Jobs::new();
    let tokens = fill(&mut jobs, 8);
    scope(|s| {
        let mut delay = 5;
        for token in tokens {
            delay = (delay * 7) % 31;
            s.spawn(move |_| {
                pause(delay);
                drop(token);
            });
        }
        jobs.wait_for_all();
    })
    .unwrap();
    assert!(jobs.is_empty());
}

#[test]
fn waiting_for_a_sleeping_worker() {
    let mut jobs = Jobs::new();
    let (job, token) = ConcurrentJob::new();
    jobs.add(job);
    let started = Instant::now();
    scope(|s| {
        s.spawn(move |_| {
            pause(50);
            drop(token);
        });
        jobs.wait_for_all();
    })
    .unwrap();
    let waited = started.elapsed();
    assert!(jobs.is_empty());
    assert!(waited >= Duration::from_millis(40));
    assert!(waited < Duration::from_secs(10));
}

#[test]
fn tearing_down_a_set_with_pending_work_is_quiet() {
    let mut jobs = Jobs::new();
    let (job, token) = ConcurrentJob::new();
    jobs.add(job);
    assert_eq!(jobs.len(), 1);
    jobs.abandon_all();
    assert_eq!(jobs.len(), 0);
    assert!(jobs.is_empty());
    jobs.wait_for_all();
    drop(jobs);
    drop(token);
}

#[test]
fn tearing_down_abandons_what_is_left() {
    let mut jobs = Jobs::new();
    let mut tokens = fill(&mut jobs, 3);
    drop(tokens.remove(0));
    drop(tokens.remove(0));
    assert_eq!(jobs.len(), 3);
    jobs.abandon_all();
    assert_eq!(jobs.len(), 0);
    assert!(jobs.is_empty());
    jobs.wait_for_all();
    drop(jobs);
    assert_eq!(tokens.len(), 1);
}

#[test]
fn tearing_down_an_empty_set() {
    let mut jobs = Jobs::new();
    jobs.abandon_all();
    assert!(jobs.is_empty());
    jobs.abandon_all();
    assert_eq!(jobs.len(), 0);
}

#[test]
fn a_set_takes_handles_again_after_teardown() {
    let mut jobs = Jobs::new();
    let tokens = fill(&mut jobs, 2);
    jobs.abandon_all();
    assert!(jobs.is_empty());
    let (job, token) = ConcurrentJob::new();
    jobs.add(job);
    assert_eq!(jobs.len(), 1);
    drop(token);
    jobs.wait_for_all();
    assert!(jobs.is_empty());
    drop(tokens);
}

#[test]
fn waiting_for_one_takes_out_the_completed_handle() {
    let mut jobs = Jobs::new();
    let mut tokens = fill(&mut jobs, 3);
    drop(tokens.remove(1));
    assert_eq!(jobs.wait_for_one(), Disposal::Quiet);
    assert_eq!(jobs.len(), 2);
    let (job, token) = ConcurrentJob::new();
    jobs.add(job);
    assert_eq!(jobs.len(), 3);
    drop(tokens);
    drop(token);
    jobs.wait_for_all();
    assert!(jobs.is_empty());
}

#[test]
fn waiting_for_one_at_a_time() {
    let mut jobs = Jobs::new();
    let mut tokens = fill(&mut jobs, 2);
    drop(tokens.remove(0));
    assert_eq!(jobs.wait_for_one(), Disposal::Quiet);
    assert_eq!(jobs.len(), 1);
    drop(tokens.remove(0));
    assert_eq!(jobs.wait_for_one(), Disposal::Quiet);
    assert_eq!(jobs.len(), 0);
}

#[test]
fn waiting_for_one_sleeping_worker() {
    let mut jobs = Jobs::new();
    let mut tokens = fill(&mut jobs, 3);
    let late = tokens.remove(2);
    scope(|s| {
        s.spawn(move |_| {
            pause(30);
            drop(late);
        });
        assert_eq!(jobs.wait_for_one(), Disposal::Quiet);
    })
    .unwrap();
    assert_eq!(jobs.len(), 2);
    let (job, token) = ConcurrentJob::new();
    jobs.add(job);
    assert_eq!(jobs.len(), 3);
    jobs.abandon_all();
    assert!(jobs.is_empty());
    drop(tokens);
    drop(token);
}

#[test]
fn retiring_a_running_job_is_reported() {
    let mut jobs = Jobs::new();
    let tokens = fill(&mut jobs, 1);
    assert_eq!(jobs.retire(0, Signal::Open), Disposal::Orphaned);
    assert!(jobs.is_empty());
    drop(tokens);
}

#[test]
fn retiring_a_closed_job_is_quiet() {
    let mut jobs = Jobs::new();
    let tokens = fill(&mut jobs, 2);
    assert_eq!(jobs.retire(1, Signal::Closed), Disposal::Quiet);
    assert_eq!(jobs.len(), 1);
    assert_eq!(jobs.retire(0, Signal::Closed), Disposal::Quiet);
    assert_eq!(jobs.len(), 0);
    drop(tokens);
}

#[test]
fn retiring_moves_the_last_handle_into_the_gap() {
    let mut jobs = Jobs::new();
    let tokens = fill(&mut jobs, 2);
    let (mut marked, token) = ConcurrentJob::new();
    assert!(marked.observe(Signal::Closed));
    jobs.add(marked);
    assert_eq!(jobs.len(), 3);
    assert_eq!(jobs.retire(0, Signal::Open), Disposal::Orphaned);
    assert_eq!(jobs.len(), 2);
    assert_eq!(jobs.retire(0, Signal::Open), Disposal::Quiet);
    assert_eq!(jobs.len(), 1);
    assert_eq!(jobs.retire(0, Signal::Open), Disposal::Orphaned);
    assert_eq!(jobs.len(), 0);
    drop(tokens);
    drop(token);
}
