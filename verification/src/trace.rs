//! Whole runs of a job: every answer that a session was given, and every
//! action that it asked for.

use crate::op::{Mode, ProcessOpOpenView};
use crate::prog::TaskProgView;
use crate::session::{ActionView, EventView, Phase, SessionView};
use crate::text::spawn_failure;
use vstd::prelude::*;

verus! {

/// A run so far: where the session stands, and all that it has asked for,
/// in order. The first action is the one that the job opened with; the
/// action after it answers the first event, and so on.
pub struct Trace {
    pub session: SessionView,
    pub actions: Seq<ActionView>,
}

/// The run of `job` over `events`, or `None` where one of the events is not
/// what the session was waiting for at that point.
pub open spec fn run(job: ProcessOpOpenView, events: Seq<EventView>) -> Option<Trace>
    decreases events.len(),
{
    if events.len() == 0 {
        let opened = SessionView::opened(job);
        Some(Trace { session: opened.0, actions: seq![opened.1] })
    } else {
        match run(job, events.drop_last()) {
            Some(before) => match before.session.next(events.last()) {
                Some(after) => Some(
                    Trace { session: after.0, actions: before.actions.push(after.1) },
                ),
                None => None,
            },
            None => None,
        }
    }
}

/// The messages among the actions, in order.
pub open spec fn messages(actions: Seq<ActionView>) -> Seq<TaskProgView>
    decreases actions.len(),
{
    if actions.len() == 0 {
        Seq::empty()
    } else {
        let earlier = messages(actions.drop_last());
        match actions.last() {
            ActionView::Send(msg) => earlier.push(msg),
            _ => earlier,
        }
    }
}

/// No message ends the task.
pub open spec fn no_terminal(msgs: Seq<TaskProgView>) -> bool {
    forall|i: int| 0 <= i < msgs.len() ==> !(#[trigger] msgs[i]).is_terminal()
}

/// The last message ends the task, and no message before it does.
pub open spec fn ends_terminal(msgs: Seq<TaskProgView>) -> bool {
    &&& msgs.len() > 0
    &&& msgs.last().is_terminal()
    &&& forall|i: int| 0 <= i < msgs.len() - 1 ==> !(#[trigger] msgs[i]).is_terminal()
}

/// The run is over and nothing went wrong on the way: no channel was
/// closed, no wait failed.
pub open spec fn finished_well(t: Trace) -> bool {
    t.actions.len() > 0 && t.actions.last() == ActionView::Finish(Ok(()))
}

/// The phases that a job of each mode can be in.
pub open spec fn phase_of_mode(mode: Mode, phase: Phase) -> bool {
    match mode {
        Mode::Stream => phase is Announcing || phase is Spawning || phase is Watching
            || phase is Logging || phase is Killing || phase is Reporting || phase is Advancing
            || phase is Succeeding || phase is Failing || phase is Finished,
        Mode::Orphan => phase is Spawning || phase is Succeeding || phase is Blaming
            || phase is Failing || phase is Finished,
        Mode::Block => phase is Acquiring || phase is Suspending || phase is Spawning
            || phase is Waiting || phase is Warning || phase is Resuming || phase is Releasing
            || phase is Succeeding || phase is Finished,
    }
}

/// What the messages of a run look like, by the phase that the run is in:
/// whether a terminal message is out, and that nothing follows it.
pub open spec fn terminal_by_phase(t: Trace) -> bool {
    let msgs = messages(t.actions);
    match t.session.phase {
        Phase::Succeeding => ends_terminal(msgs) && msgs.last() is Succ,
        Phase::Failing => ends_terminal(msgs) && msgs.last() is Fail,
        Phase::Finished => if finished_well(t) {
            ends_terminal(msgs)
        } else {
            no_terminal(msgs) || ends_terminal(msgs)
        },
        _ => no_terminal(msgs),
    }
}

/// What the messages of a run look like, by the mode of the job.
pub open spec fn messages_by_mode(t: Trace) -> bool {
    let msgs = messages(t.actions);
    let id = t.session.job.id;
    match t.session.job.mode() {
        Mode::Stream => {
            &&& msgs.len() > 0
            &&& msgs[0] == TaskProgView::New(id, 0)
            &&& forall|i: int| 1 <= i < msgs.len() ==> !((#[trigger] msgs[i]) is New)
        },
        Mode::Orphan => match t.session.phase {
            Phase::Spawning => msgs =~= Seq::empty(),
            Phase::Succeeding => msgs =~= seq![TaskProgView::Succ(id)],
            Phase::Blaming => msgs =~= seq![TaskProgView::New(id, 0)],
            Phase::Failing => msgs =~= seq![
                TaskProgView::New(id, 0),
                TaskProgView::Fail(id, spawn_failure(t.session.reason)),
            ],
            _ => finished_well(t) ==> msgs =~= seq![TaskProgView::Succ(id)] || msgs =~= seq![
                TaskProgView::New(id, 0),
                TaskProgView::Fail(id, spawn_failure(t.session.reason)),
            ],
        },
        Mode::Block => match t.session.phase {
            Phase::Succeeding => msgs =~= seq![TaskProgView::Succ(id)],
            Phase::Finished => if finished_well(t) {
                msgs =~= seq![TaskProgView::Succ(id)]
            } else {
                msgs.len() <= 1
            },
            _ => msgs =~= Seq::empty(),
        },
    }
}

/// What holds of every run, at every point of it.
pub open spec fn fits(job: ProcessOpOpenView, events: Seq<EventView>, t: Trace) -> bool {
    let msgs = messages(t.actions);
    &&& t.session.job == job
    &&& t.actions.len() == events.len() + 1
    &&& t.session.awaits(t.actions.last())
    &&& phase_of_mode(job.mode(), t.session.phase)
    &&& forall|i: int| 0 <= i < msgs.len() ==> (#[trigger] msgs[i]).id() == job.id
    &&& terminal_by_phase(t)
    &&& messages_by_mode(t)
}

/// The messages of a sequence of actions that got one action longer.
pub proof fn lemma_messages_push(actions: Seq<ActionView>, action: ActionView)
    ensures
        messages(actions.push(action)) == match action {
            ActionView::Send(msg) => messages(actions).push(msg),
            _ => messages(actions),
        },
{
    assert(actions.push(action).drop_last() =~= actions);
}

/// A run over some events went through the run over all but the last.
pub proof fn lemma_run_earlier(job: ProcessOpOpenView, events: Seq<EventView>)
    requires
        events.len() > 0,
        run(job, events) is Some,
    ensures
        run(job, events.drop_last()) matches Some(before) && before.session.next(events.last())
            == Some((run(job, events).unwrap().session, run(job, events).unwrap().actions.last()))
            && run(job, events).unwrap().actions == before.actions.push(
            run(job, events).unwrap().actions.last(),
        ),
{
}

proof fn lemma_first_fits(job: ProcessOpOpenView)
    ensures
        fits(job, Seq::empty(), run(job, Seq::empty()).unwrap()),
{
    let opened = SessionView::opened(job);
    let t = run(job, Seq::empty()).unwrap();
    assert(t.actions =~= seq![opened.1]);
    lemma_messages_push(Seq::empty(), opened.1);
    assert(Seq::<ActionView>::empty().push(opened.1) =~= t.actions);
    assert(messages(Seq::<ActionView>::empty()) =~= Seq::empty());
}

proof fn lemma_step_fits(
    job: ProcessOpOpenView,
    events: Seq<EventView>,
    before: Trace,
    event: EventView,
)
    requires
        fits(job, events, before),
        before.session.accepts(event),
    ensures
        fits(
            job,
            events.push(event),
            Trace {
                session: before.session.next(event).unwrap().0,
                actions: before.actions.push(before.session.next(event).unwrap().1),
            },
        ),
{
    let after = before.session.next(event).unwrap();
    lemma_messages_push(before.actions, after.1);
    crate::session::lemma_next_awaits(before.session, event);
}

/// Every run fits, at every point of it.
pub proof fn lemma_run_fits(job: ProcessOpOpenView, events: Seq<EventView>)
    requires
        run(job, events) is Some,
    ensures
        fits(job, events, run(job, events).unwrap()),
    decreases events.len(),
{
    if events.len() == 0 {
        assert(events =~= Seq::empty());
        lemma_first_fits(job);
    } else {
        lemma_run_earlier(job, events);
        let earlier = events.drop_last();
        lemma_run_fits(job, earlier);
        lemma_step_fits(job, earlier, run(job, earlier).unwrap(), events.last());
        assert(earlier.push(events.last()) =~= events);
    }
}

} // verus!
