//! What holds of every run of a job, whatever the process and the channel
//! do.

use crate::op::{Mode, ProcessOpOpenView};
use crate::prog::TaskProgView;
use crate::session::{ActionView, EventView, Phase, SessionView};
use crate::text::exit_line;
use crate::trace::{
    ends_terminal, finished_well, lemma_messages_push, lemma_run_earlier, lemma_run_fits, messages,
    run, Trace,
};
use vstd::prelude::*;

verus! {

/// A job that ends without a closed channel or a failed wait has sent
/// exactly one terminal message, `Succ` or `Fail`, as its last message, and
/// all its messages carry its own identifier. A blocking job has sent
/// `Succ` and nothing else.
pub proof fn law_one_terminal_message(job: ProcessOpOpenView, events: Seq<EventView>)
    requires
        run(job, events) is Some,
        finished_well(run(job, events).unwrap()),
    ensures
        ({
            let msgs = messages(run(job, events).unwrap().actions);
            &&& msgs.len() > 0
            &&& msgs.last().is_terminal()
            &&& forall|i: int| 0 <= i < msgs.len() - 1 ==> !(#[trigger] msgs[i]).is_terminal()
            &&& forall|i: int| 0 <= i < msgs.len() ==> (#[trigger] msgs[i]).id() == job.id
            &&& job.mode() == Mode::Block ==> msgs == seq![TaskProgView::Succ(job.id)]
        }),
{
    lemma_run_fits(job, events);
}

/// At every point of every run, finished or not, a terminal message is the
/// last message sent so far: nothing ever follows `Succ` or `Fail`, and
/// there are never two of them.
pub proof fn law_nothing_follows_terminal(job: ProcessOpOpenView, events: Seq<EventView>)
    requires
        run(job, events) is Some,
    ensures
        ({
            let msgs = messages(run(job, events).unwrap().actions);
            forall|i: int|
                0 <= i < msgs.len() && (#[trigger] msgs[i]).is_terminal() ==> i == msgs.len() - 1
        }),
{
    lemma_run_fits(job, events);
}

/// A streamed job says `New` before anything else, with no progress yet,
/// and never says `New` again.
pub proof fn law_new_comes_first(job: ProcessOpOpenView, events: Seq<EventView>)
    requires
        job.mode() == Mode::Stream,
        run(job, events) is Some,
    ensures
        ({
            let msgs = messages(run(job, events).unwrap().actions);
            &&& msgs.len() > 0
            &&& msgs[0] == TaskProgView::New(job.id, 0)
            &&& forall|i: int| 1 <= i < msgs.len() ==> !((#[trigger] msgs[i]) is New)
        }),
{
    lemma_run_fits(job, events);
}

/// The lines that a streamed job has seen, in order: each line of output,
/// and the line about the exit once the process has exited.
pub open spec fn seen(events: Seq<EventView>) -> Seq<Seq<char>>
    decreases events.len(),
{
    if events.len() == 0 {
        Seq::empty()
    } else {
        let earlier = seen(events.drop_last());
        match events.last() {
            EventView::Line(line) => earlier.push(line),
            EventView::Exited(status) => earlier.push(exit_line(status.code)),
            _ => earlier,
        }
    }
}

/// The lines that `Log` messages carry, in order.
pub open spec fn logged(msgs: Seq<TaskProgView>) -> Seq<Seq<char>>
    decreases msgs.len(),
{
    if msgs.len() == 0 {
        Seq::empty()
    } else {
        let earlier = logged(msgs.drop_last());
        match msgs.last() {
            TaskProgView::Log(_, line) => earlier.push(line),
            _ => earlier,
        }
    }
}

/// A streamed job logs every line that it sees, once, in the order in
/// which the lines came, and logs nothing else.
pub proof fn law_lines_are_logged_in_order(job: ProcessOpOpenView, events: Seq<EventView>)
    requires
        job.mode() == Mode::Stream,
        run(job, events) is Some,
    ensures
        logged(messages(run(job, events).unwrap().actions)) == seen(events),
    decreases events.len(),
{
    lemma_run_fits(job, events);
    let after = run(job, events).unwrap();
    if events.len() == 0 {
        let first = SessionView::opened(job).1;
        assert(after.actions =~= Seq::<ActionView>::empty().push(first));
        lemma_messages_push(Seq::empty(), first);
        assert(messages(Seq::<ActionView>::empty()) =~= Seq::empty());
        let msgs = messages(after.actions);
        assert(msgs =~= seq![TaskProgView::New(job.id, 0)]);
        assert(msgs.drop_last() =~= Seq::empty());
        assert(logged(msgs.drop_last()) =~= Seq::empty());
    } else {
        let earlier = events.drop_last();
        lemma_run_earlier(job, events);
        law_lines_are_logged_in_order(job, earlier);
        lemma_run_fits(job, earlier);
        let before = run(job, earlier).unwrap();
        let asked = after.actions.last();
        lemma_messages_push(before.actions, asked);
        match asked {
            ActionView::Send(msg) => {
                assert(messages(after.actions).drop_last() =~= messages(before.actions));
            },
            _ => {},
        }
    }
}

/// No message says that the task failed.
pub open spec fn no_fail(msgs: Seq<TaskProgView>) -> bool {
    forall|i: int| 0 <= i < msgs.len() ==> !((#[trigger] msgs[i]) is Fail)
}

/// One of the events is the cancellation.
pub open spec fn cancelled(events: Seq<EventView>) -> bool {
    exists|k: int| 0 <= k < events.len() && (#[trigger] events[k]) is Cancelled
}

/// What a cancellation leaves behind in a run.
pub open spec fn cancel_fits(events: Seq<EventView>, t: Trace) -> bool {
    &&& forall|k: int|
        0 <= k < events.len() && (#[trigger] events[k]) is Cancelled ==> t.actions[k + 1] is Kill
    &&& cancelled(events) ==> {
        &&& t.session.job.mode() == Mode::Stream
        &&& t.session.phase is Killing || t.session.phase is Advancing
            || t.session.phase is Succeeding || t.session.phase is Finished
        &&& no_fail(messages(t.actions))
    }
}

proof fn lemma_cancel_fits(job: ProcessOpOpenView, events: Seq<EventView>)
    requires
        run(job, events) is Some,
    ensures
        cancel_fits(events, run(job, events).unwrap()),
    decreases events.len(),
{
    lemma_run_fits(job, events);
    if events.len() > 0 {
        let earlier = events.drop_last();
        lemma_run_earlier(job, events);
        lemma_cancel_fits(job, earlier);
        lemma_run_fits(job, earlier);
        let before = run(job, earlier).unwrap();
        let after = run(job, events).unwrap();
        lemma_messages_push(before.actions, after.actions.last());
        assert forall|k: int| 0 <= k < events.len() && (#[trigger] events[k]) is Cancelled implies
            after.actions[k + 1] is Kill by {
            if k < earlier.len() {
                assert(earlier[k] == events[k]);
            }
        }
        if cancelled(events) {
            let k = choose|k: int| 0 <= k < events.len() && (#[trigger] events[k]) is Cancelled;
            if k < earlier.len() {
                assert(earlier[k] is Cancelled);
                assert(cancelled(earlier));
            }
        }
    }
}

/// Cancelling a streamed job makes the session ask for the kill at once,
/// and the job never reports a failure: neither before the cancellation
/// nor after it is there a `Fail`. Where the run ends without a closed
/// channel, its last message is `Succ`.
pub proof fn law_cancelled_job_succeeds(job: ProcessOpOpenView, events: Seq<EventView>, k: int)
    requires
        run(job, events) is Some,
        0 <= k < events.len(),
        events[k] is Cancelled,
    ensures
        ({
            let t = run(job, events).unwrap();
            let msgs = messages(t.actions);
            &&& job.mode() == Mode::Stream
            &&& t.actions[k + 1] is Kill
            &&& forall|i: int| 0 <= i < msgs.len() ==> !((#[trigger] msgs[i]) is Fail)
            &&& finished_well(t) ==> msgs.len() > 0 && msgs.last() == TaskProgView::Succ(job.id)
        }),
{
    lemma_run_fits(job, events);
    lemma_cancel_fits(job, events);
    assert(cancelled(events));
    let t = run(job, events).unwrap();
    let msgs = messages(t.actions);
    if finished_well(t) {
        assert(ends_terminal(msgs));
        assert(!(msgs[msgs.len() - 1] is Fail));
        assert(msgs[msgs.len() - 1].id() == job.id);
    }
}

/// The action at `at`, and no other, takes the terminal back.
pub open spec fn resume_at(actions: Seq<ActionView>, at: int) -> bool {
    &&& 2 <= at < actions.len()
    &&& actions[at] is Resume
    &&& forall|i: int| 0 <= i < actions.len() && i != at ==> !((#[trigger] actions[i]) is Resume)
}

/// The action at `at`, and no other, gives the permit back.
pub open spec fn release_at(actions: Seq<ActionView>, at: int) -> bool {
    &&& 2 <= at < actions.len()
    &&& actions[at] is Release
    &&& forall|i: int| 0 <= i < actions.len() && i != at ==> !((#[trigger] actions[i]) is Release)
}

/// No action takes the terminal back.
pub open spec fn no_resume(actions: Seq<ActionView>) -> bool {
    forall|i: int| 0 <= i < actions.len() ==> !((#[trigger] actions[i]) is Resume)
}

/// No action gives the permit back.
pub open spec fn no_release(actions: Seq<ActionView>) -> bool {
    forall|i: int| 0 <= i < actions.len() ==> !((#[trigger] actions[i]) is Release)
}

/// Where the four actions on the blocker and on the terminal stand in a run.
pub open spec fn foreground_fits(t: Trace) -> bool {
    let a = t.actions;
    let n = a.len() as int;
    if t.session.job.mode() == Mode::Block {
        &&& a[0] is Acquire
        &&& forall|i: int| 1 <= i < n ==> !((#[trigger] a[i]) is Acquire)
        &&& forall|i: int| 0 <= i < n && i != 1 ==> !((#[trigger] a[i]) is Suspend)
        &&& if t.session.phase is Acquiring {
            n == 1
        } else {
            n >= 2 && a[1] is Suspend
        }
        &&& match t.session.phase {
            Phase::Resuming { .. } => resume_at(a, n - 1) && no_release(a),
            Phase::Releasing { .. } => resume_at(a, n - 2) && release_at(a, n - 1),
            Phase::Succeeding => resume_at(a, n - 3) && release_at(a, n - 2),
            Phase::Finished => (resume_at(a, n - 4) && release_at(a, n - 3)) || (resume_at(
                a,
                n - 3,
            ) && release_at(a, n - 2)),
            _ => no_resume(a) && no_release(a),
        }
    } else {
        forall|i: int|
            0 <= i < n ==> !((#[trigger] a[i]) is Acquire) && !(a[i] is Suspend) && !(a[i]
                is Resume) && !(a[i] is Release)
    }
}

proof fn lemma_foreground_fits(job: ProcessOpOpenView, events: Seq<EventView>)
    requires
        run(job, events) is Some,
    ensures
        foreground_fits(run(job, events).unwrap()),
    decreases events.len(),
{
    lemma_run_fits(job, events);
    if events.len() > 0 {
        let earlier = events.drop_last();
        lemma_run_earlier(job, events);
        lemma_foreground_fits(job, earlier);
        lemma_run_fits(job, earlier);
    }
}

/// Only a blocking job touches the blocker and the terminal. It asks for the
/// permit first and for the terminal second, each once. Whenever it has
/// asked for the terminal and the run is over, it has asked to take the
/// terminal back later on, once, and to give the permit back after that,
/// once: whether the launch failed, the process ended badly, waiting for it
/// failed, or the channel was closed.
pub proof fn law_resume_follows_suspend(job: ProcessOpOpenView, events: Seq<EventView>, i: int)
    requires
        run(job, events) is Some,
        0 <= i < run(job, events).unwrap().actions.len(),
        run(job, events).unwrap().actions[i] is Suspend,
    ensures
        ({
            let t = run(job, events).unwrap();
            &&& job.mode() == Mode::Block
            &&& i == 1
            &&& t.actions[0] is Acquire
            &&& t.session.phase is Finished ==> exists|j: int, k: int|
                i < j < k < t.actions.len() && resume_at(t.actions, j) && release_at(t.actions, k)
        }),
{
    lemma_run_fits(job, events);
    lemma_foreground_fits(job, events);
    let t = run(job, events).unwrap();
    let n = t.actions.len() as int;
    if t.session.phase is Finished {
        if resume_at(t.actions, n - 4) && release_at(t.actions, n - 3) {
            assert(i < n - 4 < n - 3 < n && resume_at(t.actions, n - 4) && release_at(
                t.actions,
                n - 3,
            ));
        } else {
            assert(i < n - 3 < n - 2 < n && resume_at(t.actions, n - 3) && release_at(
                t.actions,
                n - 2,
            ));
        }
    }
}

/// The terminal is with the process of a blocking job from the moment the
/// session asks to hand it over until the moment it asks to give the permit
/// back, which is when the terminal is back; and all that while the session
/// holds the permit.
pub proof fn law_terminal_under_permit(job: ProcessOpOpenView, events: Seq<EventView>)
    requires
        run(job, events) is Some,
    ensures
        ({
            let t = run(job, events).unwrap();
            &&& t.session.on_terminal() <==> (exists|i: int|
                0 <= i < t.actions.len() && (#[trigger] t.actions[i]) is Suspend) && no_release(
                t.actions,
            )
            &&& t.session.on_terminal() ==> t.session.holds_permit()
        }),
{
    lemma_run_fits(job, events);
    lemma_foreground_fits(job, events);
    let t = run(job, events).unwrap();
    if job.mode() == Mode::Block && !(t.session.phase is Acquiring) {
        assert(t.actions[1] is Suspend);
    }
}

/// How many answers a blocking job can still take before it is over.
pub open spec fn steps_left(phase: Phase) -> nat {
    match phase {
        Phase::Acquiring => 8,
        Phase::Suspending => 7,
        Phase::Spawning => 6,
        Phase::Waiting => 5,
        Phase::Warning => 4,
        Phase::Resuming { .. } => 3,
        Phase::Releasing { .. } => 2,
        Phase::Succeeding => 1,
        _ => 0,
    }
}

/// An answer that the session takes in the given phase.
pub open spec fn some_answer(phase: Phase) -> EventView {
    match phase {
        Phase::Watching => EventView::Cancelled,
        Phase::Waiting => EventView::Failed(Seq::empty()),
        _ => EventView::Done,
    }
}

/// A session that is not over always waits for something: there is an
/// answer that it takes.
pub proof fn law_never_stuck(s: SessionView)
    requires
        !(s.phase is Finished),
    ensures
        s.accepts(some_answer(s.phase)),
{
}

/// A blocking job is over after eight answers at most, and after six at
/// most from the moment it has the permit: every answer brings it closer to
/// its end.
pub proof fn law_blocking_job_ends(job: ProcessOpOpenView, events: Seq<EventView>)
    requires
        job.mode() == Mode::Block,
        run(job, events) is Some,
    ensures
        events.len() + steps_left(run(job, events).unwrap().session.phase) <= 8,
    decreases events.len(),
{
    lemma_run_fits(job, events);
    if events.len() > 0 {
        lemma_run_earlier(job, events);
        law_blocking_job_ends(job, events.drop_last());
        lemma_run_fits(job, events.drop_last());
    }
}

} // verus!
