use std::cell::RefCell;
use std::rc::Rc;

use io_engine::BackendError;
use io_engine::Range;
use io_engine::RebuildBackend;
use io_engine::RebuildDescriptor;
use io_engine::RebuildError;
use io_engine::RebuildJob;
use io_engine::RebuildState;

/// Observable log of what a test backend did, shared with the test.
#[derive(Default)]
struct BackendLog {
    /// Segments submitted, in submission order.
    submitted: Vec<Range>,
    /// Segments that completed successfully.
    copied: Vec<Range>,
}

/// A backend that queues submitted copies and completes them on
/// demand, optionally failing the n-th submitted segment (1-based) or
/// refusing submissions outright.
struct TestBackend {
    log: Rc<RefCell<BackendLog>>,
    pending: Vec<(Range, usize)>,
    submit_count: usize,
    fail_nth: Option<usize>,
    refuse_submit: bool,
    complete_lifo: bool,
    swallow_completions: bool,
}

impl TestBackend {
    fn new(log: Rc<RefCell<BackendLog>>) -> TestBackend {
        TestBackend {
            log,
            pending: Vec::new(),
            submit_count: 0,
            fail_nth: None,
            refuse_submit: false,
            complete_lifo: false,
            swallow_completions: false,
        }
    }
}

impl RebuildBackend for TestBackend {
    fn copy_segment(&mut self, source: Range, target: Range) -> Result<(), BackendError> {
        assert_eq!(source, target);
        if self.refuse_submit {
            return Err(BackendError { code: 7 });
        }
        self.submit_count += 1;
        self.log.borrow_mut().submitted.push(source);
        self.pending.push((source, self.submit_count));
        Ok(())
    }

    fn await_completion(&mut self) -> Option<(Range, Result<(), BackendError>)> {
        if self.swallow_completions || self.pending.is_empty() {
            return None;
        }
        let (rg, nth) = if self.complete_lifo {
            self.pending.pop().unwrap()
        } else {
            self.pending.remove(0)
        };
        if self.fail_nth == Some(nth) {
            Some((rg, Err(BackendError { code: 5 })))
        } else {
            self.log.borrow_mut().copied.push(rg);
            Some((rg, Ok(())))
        }
    }
}

fn job_with_segment(
    backend: TestBackend,
    start: u64,
    end: u64,
    segment_blks: u64,
) -> RebuildJob<TestBackend> {
    let descriptor = RebuildDescriptor::with_segment_size(
        String::from("nvmf://src/s"),
        String::from("nvmf://dst/t"),
        Range::new(start, end),
        512,
        segment_blks,
    )
    .unwrap();
    RebuildJob::new(backend, descriptor)
}

/// Checks that `copied` covers `[start, end)` exactly once.
fn assert_exact_coverage(copied: &[Range], start: u64, end: u64) {
    let mut segs: Vec<Range> = copied.to_vec();
    segs.sort_by_key(|r| r.start);
    let mut cursor = start;
    for s in &segs {
        assert_eq!(s.start, cursor, "gap, overlap or duplicate at {}", cursor);
        assert!(s.end > s.start);
        cursor = s.end;
    }
    assert_eq!(cursor, end);
}

#[test]
fn full_rebuild_completes_with_full_coverage() {
    let log = Rc::new(RefCell::new(BackendLog::default()));
    let backend = TestBackend::new(log.clone());
    let mut job = job_with_segment(backend, 0, 1600, 100);

    job.start().unwrap();
    assert_eq!(job.state(), RebuildState::Running);
    let stats = job.stats();
    assert_eq!(stats.blocks_total, 1600);
    assert_eq!(stats.tasks_active, 16);
    assert_eq!(stats.tasks_total, 16);

    let terminal = job.wait_terminal();
    assert_eq!(terminal, RebuildState::Completed);
    let stats = job.stats();
    assert_eq!(stats.blocks_total, 1600);
    assert_eq!(stats.blocks_recovered, 1600);
    assert_eq!(stats.progress, 100);
    assert_eq!(stats.tasks_total, 16);
    assert_eq!(stats.tasks_active, 0);

    let log = log.borrow();
    assert_eq!(log.submitted.len(), 16);
    assert!(log.submitted.iter().all(|r| r.end - r.start == 100));
    assert_exact_coverage(&log.copied, 0, 1600);
}

#[test]
fn empty_range_rejected_before_any_state() {
    let log = Rc::new(RefCell::new(BackendLog::default()));
    let backend = TestBackend::new(log.clone());
    let r = RebuildJob::create_job(
        backend,
        String::from("nvmf://src/s"),
        String::from("nvmf://dst/t"),
        Range::new(50, 50),
        512,
    );
    match r {
        Err(e) => assert_eq!(e, RebuildError::RangeOutOfBounds),
        Ok(_) => panic!("empty range must be rejected"),
    }
    assert!(log.borrow().submitted.is_empty());
}

#[test]
fn reversed_range_rejected() {
    let r = RebuildDescriptor::with_segment_size(
        String::from("s"),
        String::from("t"),
        Range::new(100, 10),
        512,
        100,
    );
    assert_eq!(r.unwrap_err(), RebuildError::RangeOutOfBounds);
}

#[test]
fn zero_block_size_rejected() {
    let log = Rc::new(RefCell::new(BackendLog::default()));
    let backend = TestBackend::new(log);
    let r = RebuildJob::create_job(
        backend,
        String::from("s"),
        String::from("t"),
        Range::new(0, 100),
        0,
    );
    assert_eq!(r.err(), Some(RebuildError::RangeOutOfBounds));
}

#[test]
fn failure_on_fifth_segment_fails_job_with_partial_progress() {
    let log = Rc::new(RefCell::new(BackendLog::default()));
    let mut backend = TestBackend::new(log.clone());
    backend.fail_nth = Some(5);
    let mut job = job_with_segment(backend, 0, 1600, 100);

    job.start().unwrap();
    let terminal = job.wait_terminal();
    assert_eq!(terminal, RebuildState::Failed);

    let stats = job.stats();
    // every dispatched segment but the failed fifth one completed
    assert_eq!(stats.blocks_recovered, 1500);
    assert_eq!(stats.tasks_active, 0);

    // the terminal outcome carries the failing range and cause
    match job.last_failure() {
        Some(RebuildError::SegmentCopyFailed { range, cause }) => {
            assert_eq!(range, Range::new(400, 500));
            assert_eq!(cause, BackendError { code: 5 });
        }
        other => panic!("unexpected failure {:?}", other),
    }
}

#[test]
fn out_of_order_completions_still_complete() {
    let log = Rc::new(RefCell::new(BackendLog::default()));
    let mut backend = TestBackend::new(log.clone());
    backend.complete_lifo = true;
    let mut job = job_with_segment(backend, 0, 1000, 64);

    job.start().unwrap();
    assert_eq!(job.wait_terminal(), RebuildState::Completed);
    let stats = job.stats();
    assert_eq!(stats.blocks_recovered, 1000);
    assert_eq!(stats.progress, 100);
    assert_exact_coverage(&log.borrow().copied, 0, 1000);
}

#[test]
fn pause_drains_and_resume_continues_without_duplication() {
    let log = Rc::new(RefCell::new(BackendLog::default()));
    let backend = TestBackend::new(log.clone());
    // 30 segments of 100 blocks
    let mut job = job_with_segment(backend, 0, 3000, 100);

    job.start().unwrap();
    assert_eq!(job.stats().tasks_active, 16);

    // work off six completions without dispatching anything new
    for _ in 0..6 {
        assert_eq!(job.await_one().unwrap(), true);
    }
    assert_eq!(job.stats().tasks_active, 10);
    assert_eq!(job.stats().blocks_recovered, 600);

    // pause with 10 of 16 slots in flight: drains them, no new dispatch
    job.pause().unwrap();
    assert_eq!(job.state(), RebuildState::Paused);
    assert_eq!(job.stats().tasks_active, 0);
    assert_eq!(job.stats().blocks_recovered, 1600);
    assert_eq!(log.borrow().submitted.len(), 16);

    // resume continues at the first undispatched offset
    job.resume().unwrap();
    assert_eq!(job.state(), RebuildState::Running);
    {
        let log = log.borrow();
        assert_eq!(log.submitted[16].start, 1600);
    }

    assert_eq!(job.wait_terminal(), RebuildState::Completed);
    let stats = job.stats();
    assert_eq!(stats.blocks_recovered, 3000);
    assert_eq!(stats.progress, 100);
    assert_eq!(stats.tasks_total, 30);
    // full coverage, every segment copied exactly once
    let log = log.borrow();
    assert_eq!(log.submitted.len(), 30);
    assert_exact_coverage(&log.copied, 0, 3000);
}

#[test]
fn stop_drains_and_terminates() {
    let log = Rc::new(RefCell::new(BackendLog::default()));
    let backend = TestBackend::new(log.clone());
    let mut job = job_with_segment(backend, 0, 3000, 100);

    job.start().unwrap();
    job.stop().unwrap();
    assert_eq!(job.state(), RebuildState::Stopped);
    assert_eq!(job.stats().tasks_active, 0);
    // the 16 in-flight segments were awaited, not abandoned
    assert_eq!(job.stats().blocks_recovered, 1600);
    // a stopped job stays stopped
    assert_eq!(job.wait_terminal(), RebuildState::Stopped);
    assert_eq!(job.resume().unwrap_err(), RebuildError::InvalidStateTransition);
}

#[test]
fn stop_from_paused() {
    let log = Rc::new(RefCell::new(BackendLog::default()));
    let backend = TestBackend::new(log);
    let mut job = job_with_segment(backend, 0, 1000, 100);
    job.start().unwrap();
    job.pause().unwrap();
    job.stop().unwrap();
    assert_eq!(job.state(), RebuildState::Stopped);
}

#[test]
fn submission_refusal_fails_job() {
    let log = Rc::new(RefCell::new(BackendLog::default()));
    let mut backend = TestBackend::new(log);
    backend.refuse_submit = true;
    let mut job = job_with_segment(backend, 0, 1000, 100);

    job.start().unwrap();
    assert_eq!(job.state(), RebuildState::Failed);
    match job.last_failure() {
        Some(RebuildError::SegmentCopyFailed { range, cause }) => {
            assert_eq!(range, Range::new(0, 100));
            assert_eq!(cause, BackendError { code: 7 });
        }
        other => panic!("unexpected failure {:?}", other),
    }
}

#[test]
fn backend_losing_tasks_fails_job_as_unavailable() {
    let log = Rc::new(RefCell::new(BackendLog::default()));
    let mut backend = TestBackend::new(log);
    backend.swallow_completions = true;
    let mut job = job_with_segment(backend, 0, 1000, 100);

    job.start().unwrap();
    assert_eq!(job.state(), RebuildState::Running);
    assert_eq!(job.await_one().unwrap(), true);
    assert_eq!(job.state(), RebuildState::Failed);
    assert_eq!(job.last_failure(), Some(RebuildError::BackendUnavailable));
    assert_eq!(job.stats().tasks_active, 0);
}

#[test]
fn progress_is_exact_integer_percentage() {
    let log = Rc::new(RefCell::new(BackendLog::default()));
    let backend = TestBackend::new(log);
    // three segments of one block each
    let mut job = job_with_segment(backend, 0, 3, 1);

    job.start().unwrap();
    assert_eq!(job.stats().progress, 0);
    job.await_one().unwrap();
    assert_eq!(job.stats().blocks_recovered, 1);
    assert_eq!(job.stats().progress, 33);
    job.await_one().unwrap();
    assert_eq!(job.stats().progress, 66);
    job.await_one().unwrap();
    assert_eq!(job.stats().progress, 100);
    assert_eq!(job.state(), RebuildState::Completed);
}

#[test]
fn control_calls_rejected_in_wrong_states() {
    let log = Rc::new(RefCell::new(BackendLog::default()));
    let backend = TestBackend::new(log);
    let mut job = job_with_segment(backend, 0, 1000, 100);

    // from Init only start is legal
    assert_eq!(job.pause().unwrap_err(), RebuildError::InvalidStateTransition);
    assert_eq!(job.resume().unwrap_err(), RebuildError::InvalidStateTransition);
    assert_eq!(job.stop().unwrap_err(), RebuildError::InvalidStateTransition);
    assert_eq!(job.await_one().unwrap_err(), RebuildError::InvalidStateTransition);
    assert_eq!(job.state(), RebuildState::Init);

    job.start().unwrap();
    // from Running, start and resume are illegal
    assert_eq!(job.start().unwrap_err(), RebuildError::InvalidStateTransition);
    assert_eq!(job.resume().unwrap_err(), RebuildError::InvalidStateTransition);
    assert_eq!(job.state(), RebuildState::Running);

    job.pause().unwrap();
    // from Paused, start, pause and await are illegal
    assert_eq!(job.start().unwrap_err(), RebuildError::InvalidStateTransition);
    assert_eq!(job.pause().unwrap_err(), RebuildError::InvalidStateTransition);
    assert_eq!(job.await_one().unwrap_err(), RebuildError::InvalidStateTransition);
    assert_eq!(job.state(), RebuildState::Paused);

    // a terminal job rejects every control call
    let completed = job.wait_terminal();
    assert_eq!(completed, RebuildState::Paused);
    job.resume().unwrap();
    assert_eq!(job.wait_terminal(), RebuildState::Completed);
    assert_eq!(job.start().unwrap_err(), RebuildError::InvalidStateTransition);
    assert_eq!(job.pause().unwrap_err(), RebuildError::InvalidStateTransition);
    assert_eq!(job.resume().unwrap_err(), RebuildError::InvalidStateTransition);
    assert_eq!(job.stop().unwrap_err(), RebuildError::InvalidStateTransition);
    assert_eq!(job.state(), RebuildState::Completed);
}

#[test]
fn wait_terminal_returns_current_state_when_not_running() {
    let log = Rc::new(RefCell::new(BackendLog::default()));
    let backend = TestBackend::new(log);
    let mut job = job_with_segment(backend, 0, 1000, 100);
    assert_eq!(job.wait_terminal(), RebuildState::Init);
}
