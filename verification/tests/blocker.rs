use yazi_process::blocker::Blocker;
use yazi_process::op::{ExitStatus, ProcessOpOpen};
use yazi_process::prog::TaskProg;
use yazi_process::session::{Action, Event, Session};

fn blocking(id: usize) -> ProcessOpOpen {
    ProcessOpOpen { id, cmd: String::from("vi"), args: Vec::new(), block: true, orphan: false }
}

fn streamed(id: usize) -> ProcessOpOpen {
    ProcessOpOpen { id, cmd: String::from("ls"), args: Vec::new(), block: false, orphan: false }
}

#[test]
fn blocker_starts_free() {
    let blocker = Blocker::new();
    assert_eq!(blocker.available_permits(), 1);
}

#[test]
fn permit_is_granted_once() {
    let mut blocker = Blocker::new();
    assert!(blocker.try_acquire(1));
    assert_eq!(blocker.available_permits(), 0);
    assert!(!blocker.try_acquire(2));
    assert!(!blocker.try_acquire(1));
    assert_eq!(blocker.available_permits(), 0);
}

#[test]
fn permit_comes_back_from_its_holder_only() {
    let mut blocker = Blocker::new();
    assert!(!blocker.release(1));
    assert!(blocker.try_acquire(1));
    assert!(!blocker.release(2));
    assert_eq!(blocker.available_permits(), 0);
    assert!(blocker.release(1));
    assert_eq!(blocker.available_permits(), 1);
    assert!(!blocker.release(1));
    assert!(blocker.try_acquire(2));
}

#[test]
fn two_blocking_jobs_take_turns() {
    let mut blocker = Blocker::new();
    let (mut a, first_a) = Session::open(blocking(1));
    let (mut b, first_b) = Session::open(blocking(2));
    assert_eq!(first_a, Action::Acquire);
    assert_eq!(first_b, Action::Acquire);

    assert_eq!(blocker.grant(&mut a), Some(Action::Suspend));
    assert_eq!(blocker.grant(&mut b), None);
    assert!(a.on_terminal() && !b.on_terminal());

    assert!(matches!(a.step(Event::Done), Some(Action::Spawn(_))));
    assert_eq!(blocker.grant(&mut b), None);
    assert_eq!(a.step(Event::Done), Some(Action::Wait));
    assert_eq!(blocker.grant(&mut b), None);
    assert_eq!(
        a.step(Event::Exited(ExitStatus { success: true, code: Some(0) })),
        Some(Action::Resume)
    );
    assert_eq!(blocker.grant(&mut b), None);
    assert_eq!(a.step(Event::Done), Some(Action::Release));
    assert!(!a.on_terminal());
    assert_eq!(blocker.grant(&mut b), None);
    assert!(!b.on_terminal());

    assert_eq!(blocker.reclaim(&mut a), Some(Action::Send(TaskProg::Succ(1))));
    assert_eq!(blocker.grant(&mut b), Some(Action::Suspend));
    assert!(b.on_terminal() && !a.on_terminal());
    assert!(b.holds_permit() && !a.holds_permit());
}

#[test]
fn grant_is_for_sessions_that_ask() {
    let mut blocker = Blocker::new();
    let (mut s, _) = Session::open(streamed(3));
    assert_eq!(blocker.grant(&mut s), None);
    assert_eq!(blocker.available_permits(), 1);
    let (mut t, _) = Session::open(blocking(4));
    assert_eq!(blocker.grant(&mut t), Some(Action::Suspend));
    assert_eq!(blocker.grant(&mut t), None);
}

#[test]
fn reclaim_is_for_the_holder_that_asks() {
    let mut blocker = Blocker::new();
    let (mut s, _) = Session::open(blocking(5));
    assert_eq!(blocker.reclaim(&mut s), None);
    assert_eq!(blocker.grant(&mut s), Some(Action::Suspend));
    assert_eq!(blocker.reclaim(&mut s), None);
    assert_eq!(blocker.available_permits(), 0);
}

#[test]
fn abandon_frees_the_permit_and_asks_for_the_terminal() {
    let mut blocker = Blocker::new();
    let (mut s, _) = Session::open(blocking(6));
    assert_eq!(blocker.grant(&mut s), Some(Action::Suspend));
    assert!(matches!(s.step(Event::Done), Some(Action::Spawn(_))));
    assert!(blocker.abandon(&mut s));
    assert!(s.is_finished());
    assert_eq!(blocker.available_permits(), 1);
    assert!(!blocker.abandon(&mut s));
}

#[test]
fn abandon_leaves_the_permit_of_another_job() {
    let mut blocker = Blocker::new();
    let (mut a, _) = Session::open(blocking(7));
    let (mut b, _) = Session::open(blocking(8));
    assert_eq!(blocker.grant(&mut a), Some(Action::Suspend));
    assert!(!blocker.abandon(&mut b));
    assert!(b.is_finished());
    assert_eq!(blocker.available_permits(), 0);
    let (mut c, _) = Session::open(streamed(9));
    assert!(!blocker.abandon(&mut c));
    assert_eq!(blocker.available_permits(), 0);
}

#[test]
fn abandon_while_giving_the_permit_back() {
    let mut blocker = Blocker::new();
    let (mut s, _) = Session::open(blocking(10));
    blocker.grant(&mut s);
    s.step(Event::Done);
    s.step(Event::Done);
    s.step(Event::Exited(ExitStatus { success: true, code: Some(0) }));
    assert_eq!(s.step(Event::Done), Some(Action::Release));
    assert!(!blocker.abandon(&mut s));
    assert_eq!(blocker.available_permits(), 1);
}
