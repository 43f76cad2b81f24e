use job_supervisor::job::{numbered_jobs, Job, WORK_MILLIS};
use job_supervisor::join::outcome_of_join;
use job_supervisor::protocol::{Action, Event, Phase, ShutdownSource};
use job_supervisor::status::{JoinOutcome, StatusRecord, TerminalStatus};
use job_supervisor::supervisor::Supervisor;
use std::collections::HashMap;
use std::time::{Duration, Instant};
use tokio::runtime::Builder;
use tokio::sync::mpsc::{unbounded_channel, UnboundedSender};
use tokio::task::JoinHandle;
use tokio::time::{sleep, timeout_at};

struct Notice {
    id: u32,
    to: UnboundedSender<u32>,
}

impl Drop for Notice {
    fn drop(&mut self) {
        let _ = self.to.send(self.id);
    }
}

async fn execute(job: Job, work: Duration, breaks: Option<u32>) -> String {
    if breaks == Some(job.id) {
        panic!("job {} broke", job.id);
    }
    sleep(work).await;
    job.outcome()
}

/// Runs the jobs on tokio under a supervisor. Each job works for `work`,
/// but for the one named by `breaks`, which panics at once; a shutdown is
/// requested after `shutdown_after`, if that is given and the jobs are still
/// at work by then.
async fn run(
    jobs: Vec<Job>,
    work: Duration,
    shutdown_after: Option<Duration>,
    breaks: Option<u32>,
) -> Vec<StatusRecord> {
    let started = tokio::time::Instant::now();
    let mut supervisor = Supervisor::new(jobs).unwrap();
    let mut handles: HashMap<u32, JoinHandle<String>> = HashMap::new();
    let (notice, mut notices) = unbounded_channel::<u32>();
    let mut event = Event::Subscribed;
    loop {
        let (next, action) = supervisor.step(event);
        supervisor = next;
        event = match action {
            Action::Spawn(job) => {
                let id = job.id;
                let notice = Notice { id, to: notice.clone() };
                let handle = tokio::spawn(async move {
                    let _notice = notice;
                    execute(job, work, breaks).await
                });
                handles.insert(id, handle);
                Event::Spawned
            }
            Action::AwaitShutdown => match shutdown_after {
                Some(after) => match timeout_at(started + after, notices.recv()).await {
                    Ok(_) => Event::JobFinished,
                    Err(_) => Event::ShutdownRequested(ShutdownSource::Interrupt),
                },
                None => {
                    notices.recv().await;
                    Event::JobFinished
                }
            },
            Action::Cancel(id) => {
                handles[&id].abort();
                Event::CancelIssued
            }
            Action::Join(id) => {
                let handle = handles.remove(&id).unwrap();
                Event::Joined(outcome_of_join(handle.await))
            }
            Action::Finish => break,
            Action::Abort(_) | Action::Ignored => unreachable!(),
        };
    }
    assert_eq!(supervisor.phase(), Phase::Done);
    assert!(handles.is_empty());
    supervisor.report().clone()
}

fn block_on_run(
    jobs: Vec<Job>,
    work: Duration,
    shutdown_after: Option<Duration>,
) -> Vec<StatusRecord> {
    let runtime = Builder::new_multi_thread().worker_threads(2).enable_all().build().unwrap();
    runtime.block_on(run(jobs, work, shutdown_after, None))
}

fn block_on_run_with_a_broken_job(
    jobs: Vec<Job>,
    work: Duration,
    shutdown_after: Option<Duration>,
    breaks: u32,
) -> Vec<StatusRecord> {
    let runtime = Builder::new_multi_thread().worker_threads(2).enable_all().build().unwrap();
    runtime.block_on(run(jobs, work, shutdown_after, Some(breaks)))
}

#[test]
fn a_task_that_ran_to_its_end_is_finished() {
    let runtime = Builder::new_current_thread().enable_all().build().unwrap();
    let joined = runtime.block_on(async { tokio::spawn(async { "done".to_string() }).await });
    assert_eq!(outcome_of_join(joined), JoinOutcome::Finished("done".to_string()));
}

#[test]
fn a_task_that_was_aborted_is_aborted() {
    let runtime = Builder::new_current_thread().enable_all().build().unwrap();
    let joined = runtime.block_on(async {
        let handle = tokio::spawn(async {
            sleep(Duration::from_secs(3600)).await;
            "never".to_string()
        });
        handle.abort();
        handle.await
    });
    assert!(joined.is_err());
    assert_eq!(outcome_of_join(joined), JoinOutcome::Aborted);
}

#[test]
fn a_task_that_panicked_is_crashed_with_tokio_s_text() {
    let runtime = Builder::new_current_thread().enable_all().build().unwrap();
    let joined = runtime.block_on(async {
        let handle: JoinHandle<String> = tokio::spawn(async {
            if WORK_MILLIS > 0 {
                panic!("the job broke");
            }
            String::new()
        });
        handle.await
    });
    let expected = format!("{:?}", joined.as_ref().unwrap_err());
    assert!(expected.contains("the job broke"));
    assert_eq!(outcome_of_join(joined), JoinOutcome::Crashed(expected));
}

#[test]
fn aborting_a_task_that_has_finished_leaves_it_finished() {
    let runtime = Builder::new_current_thread().enable_all().build().unwrap();
    let joined = runtime.block_on(async {
        let handle = tokio::spawn(async { "early".to_string() });
        sleep(Duration::from_millis(50)).await;
        assert!(handle.is_finished());
        handle.abort();
        handle.await
    });
    assert_eq!(outcome_of_join(joined), JoinOutcome::Finished("early".to_string()));
}

#[test]
fn three_real_jobs_run_to_their_end_without_shutdown() {
    let begun = Instant::now();
    let report = block_on_run(numbered_jobs(3), Duration::from_millis(WORK_MILLIS as u64), None);
    assert!(begun.elapsed() >= Duration::from_millis(WORK_MILLIS as u64));
    assert_eq!(report.len(), 3);
    for (i, record) in report.iter().enumerate() {
        assert_eq!(record.id as usize, i);
        assert_eq!(
            record.status,
            TerminalStatus::Completed(format!("Job {} ran for 5000ms", i))
        );
    }
}

#[test]
fn three_real_jobs_shut_down_after_a_second_are_cancelled_soon() {
    let begun = Instant::now();
    let report = block_on_run(
        numbered_jobs(3),
        Duration::from_millis(WORK_MILLIS as u64),
        Some(Duration::from_secs(1)),
    );
    let took = begun.elapsed();
    assert!(took >= Duration::from_secs(1));
    assert!(took < Duration::from_secs(3));
    assert_eq!(
        report,
        vec![
            StatusRecord { id: 0, status: TerminalStatus::Cancelled },
            StatusRecord { id: 1, status: TerminalStatus::Cancelled },
            StatusRecord { id: 2, status: TerminalStatus::Cancelled },
        ]
    );
}

#[test]
fn ten_real_jobs_shut_down_at_once_are_all_cancelled() {
    let report = block_on_run(
        numbered_jobs(10),
        Duration::from_millis(WORK_MILLIS as u64),
        Some(Duration::ZERO),
    );
    assert_eq!(report.len(), 10);
    for (i, record) in report.iter().enumerate() {
        assert_eq!(record.id as usize, i);
        assert_eq!(record.status, TerminalStatus::Cancelled);
    }
}

#[test]
fn real_jobs_that_finish_before_the_shutdown_complete() {
    let report = block_on_run(
        numbered_jobs(4),
        Duration::from_millis(20),
        Some(Duration::from_secs(10)),
    );
    assert_eq!(report.len(), 4);
    for (i, record) in report.iter().enumerate() {
        assert_eq!(record.id as usize, i);
        assert_eq!(
            record.status,
            TerminalStatus::Completed(format!("Job {} ran for 5000ms", i))
        );
    }
}

#[test]
fn a_real_job_that_breaks_fails_alone() {
    let report =
        block_on_run_with_a_broken_job(numbered_jobs(3), Duration::from_millis(50), None, 1);
    assert_eq!(report.len(), 3);
    assert_eq!(
        report[0],
        StatusRecord {
            id: 0,
            status: TerminalStatus::Completed("Job 0 ran for 5000ms".to_string())
        }
    );
    assert_eq!(report[1].id, 1);
    match &report[1].status {
        TerminalStatus::Failed(cause) => assert!(cause.contains("job 1 broke")),
        other => panic!("job 1 is {:?}", other),
    }
    assert_eq!(
        report[2],
        StatusRecord {
            id: 2,
            status: TerminalStatus::Completed("Job 2 ran for 5000ms".to_string())
        }
    );
}

#[test]
fn a_real_job_that_breaks_stays_failed_through_a_shutdown() {
    let report = block_on_run_with_a_broken_job(
        numbered_jobs(3),
        Duration::from_millis(WORK_MILLIS as u64),
        Some(Duration::from_millis(200)),
        2,
    );
    assert_eq!(report.len(), 3);
    assert_eq!(report[0], StatusRecord { id: 0, status: TerminalStatus::Cancelled });
    assert_eq!(report[1], StatusRecord { id: 1, status: TerminalStatus::Cancelled });
    assert_eq!(report[2].id, 2);
    assert!(matches!(report[2].status, TerminalStatus::Failed(_)));
}
