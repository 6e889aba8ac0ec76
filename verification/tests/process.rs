use tokio::sync::mpsc::unbounded_channel;
use yazi_process::blocker::Blocker;
use yazi_process::op::{ExitStatus, ProcessOpOpen};
use yazi_process::process::Process;
use yazi_process::prog::TaskProg;
use yazi_process::session::{Action, Event, ProcessError};

fn job(id: usize, block: bool, orphan: bool) -> ProcessOpOpen {
    ProcessOpOpen { id, cmd: String::from("echo"), args: vec![String::from("hi")], block, orphan }
}

fn exited(code: i32) -> Event {
    Event::Exited(ExitStatus { success: code == 0, code: Some(code) })
}

#[test]
fn process_reports_echo_hi_on_the_channel() {
    let (tx, mut rx) = unbounded_channel();
    let process = Process::new(tx);
    let (mut session, first) = process.open(job(1, false, false));
    assert!(matches!(first, Action::Spawn(_)));
    assert_eq!(rx.try_recv().ok(), Some(TaskProg::New(1, 0)));
    assert!(rx.try_recv().is_err());

    assert_eq!(process.advance(&mut session, Event::Done), Some(Action::Watch));
    assert_eq!(process.advance(&mut session, Event::Line(String::from("hi"))), Some(Action::Watch));
    assert_eq!(rx.try_recv().ok(), Some(TaskProg::Log(1, String::from("hi"))));
    assert_eq!(process.advance(&mut session, exited(0)), Some(Action::Finish(Ok(()))));
    assert_eq!(
        rx.try_recv().ok(),
        Some(TaskProg::Log(1, String::from("Exited with status code: 0")))
    );
    assert_eq!(rx.try_recv().ok(), Some(TaskProg::Adv(1, 1, 0)));
    assert_eq!(rx.try_recv().ok(), Some(TaskProg::Succ(1)));
    assert!(rx.try_recv().is_err());
    assert!(session.is_finished());
}

#[test]
fn process_reports_a_failed_exit() {
    let (tx, mut rx) = unbounded_channel();
    let process = Process::new(tx);
    let (mut session, _) = process.open(job(2, false, false));
    process.advance(&mut session, Event::Done);
    assert_eq!(process.advance(&mut session, exited(1)), Some(Action::Finish(Ok(()))));
    let mut got = Vec::new();
    while let Ok(msg) = rx.try_recv() {
        got.push(msg);
    }
    assert_eq!(
        got,
        vec![
            TaskProg::New(2, 0),
            TaskProg::Log(2, String::from("Exited with status code: 1")),
            TaskProg::Fail(2, String::from("Process failed")),
        ]
    );
}

#[test]
fn process_reports_a_failed_spawn() {
    let (tx, mut rx) = unbounded_channel();
    let process = Process::new(tx);
    let (mut session, _) = process.open(job(3, false, false));
    assert_eq!(
        process.advance(&mut session, Event::Failed(String::from("not found"))),
        Some(Action::Finish(Ok(())))
    );
    assert_eq!(rx.try_recv().ok(), Some(TaskProg::New(3, 0)));
    assert_eq!(
        rx.try_recv().ok(),
        Some(TaskProg::Fail(3, String::from("Failed to spawn process: not found")))
    );
    assert!(rx.try_recv().is_err());
}

#[test]
fn process_reports_an_orphan() {
    let (tx, mut rx) = unbounded_channel();
    let process = Process::new(tx);
    let (mut session, first) = process.open(job(4, false, true));
    assert!(matches!(first, Action::Spawn(_)));
    assert!(rx.try_recv().is_err());
    assert_eq!(process.advance(&mut session, Event::Done), Some(Action::Finish(Ok(()))));
    assert_eq!(rx.try_recv().ok(), Some(TaskProg::Succ(4)));
    assert!(rx.try_recv().is_err());
}

#[test]
fn process_reports_an_orphan_that_does_not_spawn() {
    let (tx, mut rx) = unbounded_channel();
    let process = Process::new(tx);
    let (mut session, _) = process.open(job(5, false, true));
    assert_eq!(
        process.advance(&mut session, Event::Failed(String::from("denied"))),
        Some(Action::Finish(Ok(())))
    );
    assert_eq!(rx.try_recv().ok(), Some(TaskProg::New(5, 0)));
    assert_eq!(
        rx.try_recv().ok(),
        Some(TaskProg::Fail(5, String::from("Failed to spawn process: denied")))
    );
}

#[test]
fn process_ends_the_job_when_the_channel_is_closed() {
    let (tx, rx) = unbounded_channel();
    drop(rx);
    let process = Process::new(tx);
    let (session, first) = process.open(job(6, false, false));
    assert_eq!(first, Action::Finish(Err(ProcessError::Closed)));
    assert!(session.is_finished());
}

#[test]
fn process_ends_the_job_when_the_channel_closes_half_way() {
    let (tx, mut rx) = unbounded_channel();
    let process = Process::new(tx);
    let (mut session, _) = process.open(job(7, false, false));
    assert_eq!(process.advance(&mut session, Event::Done), Some(Action::Watch));
    assert_eq!(rx.try_recv().ok(), Some(TaskProg::New(7, 0)));
    rx.close();
    assert_eq!(
        process.advance(&mut session, Event::Line(String::from("late"))),
        Some(Action::Finish(Err(ProcessError::Closed)))
    );
    assert!(rx.try_recv().is_err());
    assert_eq!(process.advance(&mut session, Event::Done), None);
}

#[test]
fn process_cancelled_reports_success() {
    let (tx, mut rx) = unbounded_channel();
    let process = Process::new(tx);
    let (mut session, _) = process.open(job(8, false, false));
    process.advance(&mut session, Event::Done);
    assert_eq!(process.advance(&mut session, Event::Cancelled), Some(Action::Kill));
    assert_eq!(process.advance(&mut session, Event::Done), Some(Action::Finish(Ok(()))));
    let mut got = Vec::new();
    while let Ok(msg) = rx.try_recv() {
        got.push(msg);
    }
    assert_eq!(got, vec![TaskProg::New(8, 0), TaskProg::Adv(8, 1, 0), TaskProg::Succ(8)]);
}

#[test]
fn process_blocking_job_with_status_one() {
    let (tx, mut rx) = unbounded_channel();
    let process = Process::new(tx);
    let mut blocker = Blocker::new();
    let (mut session, first) = process.open(job(9, true, false));
    assert_eq!(first, Action::Acquire);
    assert_eq!(process.advance(&mut session, Event::Done), None);
    assert_eq!(process.acquire(&mut blocker, &mut session), Some(Action::Suspend));
    assert!(matches!(process.advance(&mut session, Event::Done), Some(Action::Spawn(_))));
    assert_eq!(process.advance(&mut session, Event::Done), Some(Action::Wait));
    assert_eq!(
        process.advance(&mut session, exited(1)),
        Some(Action::Warn(String::from("echo"), String::from("Process exited with status code: 1")))
    );
    assert_eq!(process.advance(&mut session, Event::Done), Some(Action::Resume));
    assert_eq!(process.advance(&mut session, Event::Done), Some(Action::Release));
    assert!(rx.try_recv().is_err());
    assert_eq!(process.release(&mut blocker, &mut session), Some(Action::Finish(Ok(()))));
    assert_eq!(rx.try_recv().ok(), Some(TaskProg::Succ(9)));
    assert!(rx.try_recv().is_err());
    assert_eq!(blocker.available_permits(), 1);
}

#[test]
fn process_acquire_waits_for_the_permit() {
    let (tx, _rx) = unbounded_channel();
    let process = Process::new(tx);
    let mut blocker = Blocker::new();
    let (mut a, _) = process.open(job(10, true, false));
    let (mut b, _) = process.open(job(11, true, false));
    assert_eq!(process.acquire(&mut blocker, &mut a), Some(Action::Suspend));
    assert_eq!(process.acquire(&mut blocker, &mut b), None);
    assert_eq!(process.release(&mut blocker, &mut b), None);
    assert_eq!(process.release(&mut blocker, &mut a), None);
    assert_eq!(blocker.available_permits(), 0);
}

#[test]
fn process_serves_many_jobs_on_one_channel() {
    let (tx, mut rx) = unbounded_channel();
    let process = Process::new(tx);
    let (mut a, _) = process.open(job(20, false, false));
    let (mut b, _) = process.open(job(21, false, true));
    process.advance(&mut b, Event::Done);
    process.advance(&mut a, Event::Done);
    process.advance(&mut a, exited(0));
    let mut of_a = Vec::new();
    let mut of_b = Vec::new();
    while let Ok(msg) = rx.try_recv() {
        if msg.id() == 20 {
            of_a.push(msg);
        } else {
            of_b.push(msg);
        }
    }
    assert_eq!(
        of_a,
        vec![
            TaskProg::New(20, 0),
            TaskProg::Log(20, String::from("Exited with status code: 0")),
            TaskProg::Adv(20, 1, 0),
            TaskProg::Succ(20),
        ]
    );
    assert_eq!(of_b, vec![TaskProg::Succ(21)]);
}
