//! The executor: it opens jobs, and reports their progress on the channel
//! to the task tracker.

use crate::blocker::Blocker;
use crate::op::ProcessOpOpen;
use crate::prog::TaskProg;
use crate::session::{Action, ActionView, Event, EventView, Session, SessionView};
use tokio::sync::mpsc::UnboundedSender;
use vstd::prelude::*;

verus! {

/// The sending half of tokio's unbounded channel. Nothing of its inside is
/// known here: the executor holds it and hands it to `send`.
#[verifier::external_type_specification]
#[verifier::external_body]
#[verifier::reject_recursive_types(T)]
pub struct ExUnboundedSender<T>(UnboundedSender<T>);

/// `UnboundedSender::send` of tokio. The call never waits. Whether the
/// message is taken depends on the receiving half, so nothing is promised
/// of that; a message that is not taken comes back as it was given.
#[verifier::external_body]
fn send(prog: &UnboundedSender<TaskProg>, msg: TaskProg) -> (sent: Result<(), TaskProg>)
    ensures
        sent matches Err(back) ==> back == msg,
{
    match prog.send(msg) {
        Ok(()) => Ok(()),
        Err(e) => Err(e.0),
    }
}

/// What the channel said to one message, as an event for the session.
pub open spec fn reply(taken: bool) -> EventView {
    if taken {
        EventView::Done
    } else {
        EventView::Failed(Seq::empty())
    }
}

/// The session and its pending action after the channel has answered, one
/// after the other, to the messages that the session asked to send. An
/// answer counts only while a message is pending.
pub open spec fn settled(s: SessionView, a: ActionView, replies: Seq<bool>) -> (
    SessionView,
    ActionView,
)
    decreases replies.len(),
{
    if replies.len() == 0 {
        (s, a)
    } else {
        let before = settled(s, a, replies.drop_last());
        if before.1 is Send {
            match before.0.next(reply(replies.last())) {
                Some(after) => after,
                None => before,
            }
        } else {
            before
        }
    }
}

/// While a message is pending, the session takes either answer of the
/// channel, and fewer messages can follow afterwards.
pub proof fn lemma_message_is_answered(s: SessionView, a: ActionView, taken: bool)
    requires
        s.awaits(a),
        a is Send,
    ensures
        !s.at_blocker(),
        s.next(reply(taken)) matches Some(after) && after.0.awaits(after.1)
            && after.0.phase.sends_left() < s.phase.sends_left(),
{
}

/// The executor of process jobs.
pub struct Process {
    prog: UnboundedSender<TaskProg>,
}

impl Process {
    /// The channel that the executor reports on.
    pub closed spec fn prog(&self) -> UnboundedSender<TaskProg> {
        self.prog
    }

    /// An executor that reports on `prog`.
    pub fn new(prog: UnboundedSender<TaskProg>) -> (process: Self)
        ensures
            process.prog() == prog,
    {
        Self { prog }
    }

    /// Sends the messages that the session asks for, one after the other,
    /// and tells the session what became of each, until it asks for
    /// something that is not a message.
    fn settle(&self, session: &mut Session, action: Action) -> (next: Action)
        requires
            old(session)@.awaits(action@),
        ensures
            !(next@ is Send),
            final(session)@.awaits(next@),
            exists|replies: Seq<bool>|
                settled(old(session)@, action@, replies) == (final(session)@, next@),
    {
        let ghost start = (session@, action@);
        let ghost mut replies: Seq<bool> = Seq::empty();
        let mut pending = action;
        loop
            invariant
                start == (old(session)@, action@),
                session@.awaits(pending@),
                settled(start.0, start.1, replies) == (session@, pending@),
            decreases session@.phase.sends_left(),
        {
            match pending {
                Action::Send(msg) => {
                    let ghost before = (session@, ActionView::Send(msg@));
                    let taken = send(&self.prog, msg).is_ok();
                    proof {
                        lemma_message_is_answered(before.0, before.1, taken);
                    }
                    let event = if taken {
                        Event::Done
                    } else {
                        Event::Failed(String::new())
                    };
                    assert(event@ == reply(taken));
                    let answered = session.step(event);
                    pending = answered.unwrap();
                    proof {
                        let longer = replies.push(taken);
                        assert(longer.drop_last() =~= replies);
                        replies = longer;
                    }
                },
                other => {
                    assert(settled(old(session)@, action@, replies) == (session@, other@));
                    return other;
                },
            }
        }
    }

    /// Starts a job, and reports what it has to report at once: the
    /// session, and the first thing that it asks for that is not a message.
    pub fn open(&self, task: ProcessOpOpen) -> (started: (Session, Action))
        ensures
            !(started.1@ is Send),
            started.0@.awaits(started.1@),
            exists|replies: Seq<bool>|
                settled(
                    SessionView::opened(task@).0,
                    SessionView::opened(task@).1,
                    replies,
                ) == (started.0@, started.1@),
    {
        let (mut session, first) = Session::open(task);
        let ghost opened = (session@, first@);
        let next = self.settle(&mut session, first);
        proof {
            let replies = choose|replies: Seq<bool>|
                settled(opened.0, opened.1, replies) == (session@, next@);
            assert(settled(SessionView::opened(task@).0, SessionView::opened(task@).1, replies) == (
                session@,
                next@,
            ));
        }
        (session, next)
    }

    /// Hands the session the answer to its last action, reports what the
    /// session has to report next, and returns the first thing that it asks
    /// for that is not a message. An event that the session does not wait
    /// for changes nothing, and `None` comes back.
    pub fn advance(&self, session: &mut Session, event: Event) -> (action: Option<Action>)
        ensures
            action is Some <==> old(session)@.accepts(event@) && !old(session)@.at_blocker(),
            action is None ==> final(session)@ == old(session)@,
            action matches Some(a) ==> {
                &&& !(a@ is Send)
                &&& final(session)@.awaits(a@)
                &&& exists|replies: Seq<bool>|
                    settled(
                        old(session)@.next(event@).unwrap().0,
                        old(session)@.next(event@).unwrap().1,
                        replies,
                    ) == (final(session)@, a@)
            },
    {
        match session.step(event) {
            Some(first) => {
                proof {
                    crate::session::lemma_next_awaits(old(session)@, event@);
                }
                Some(self.settle(session, first))
            },
            None => None,
        }
    }

    /// Takes the permit of the blocker for a session that asks for it. `None`
    /// where the permit is out or the session did not ask: nothing changes.
    pub fn acquire(&self, blocker: &mut Blocker, session: &mut Session) -> (action: Option<Action>)
        ensures
            action is Some <==> old(session)@.phase is Acquiring && old(blocker).holder() is None,
            action is None ==> final(blocker).holder() == old(blocker).holder() && final(session)@ == old(
                session,
            )@,
            action matches Some(a) ==> {
                &&& final(blocker).holder() == Some(old(session)@.job.id)
                &&& old(session)@.next(EventView::Done) == Some((final(session)@, a@))
                &&& a@ is Suspend
            },
    {
        blocker.grant(session)
    }

    /// Gives the permit of the blocker back for a session that asks to, and
    /// reports what the session has to report next. `None` where the
    /// session did not ask or does not hold the permit: nothing changes.
    pub fn release(&self, blocker: &mut Blocker, session: &mut Session) -> (action: Option<Action>)
        ensures
            action is Some <==> old(session)@.phase is Releasing && old(blocker).holder() == Some(
                old(session)@.job.id,
            ),
            action is None ==> final(blocker).holder() == old(blocker).holder() && final(session)@ == old(
                session,
            )@,
            action matches Some(a) ==> {
                &&& final(blocker).holder() is None
                &&& !(a@ is Send)
                &&& final(session)@.awaits(a@)
                &&& exists|replies: Seq<bool>|
                    settled(
                        old(session)@.next(EventView::Done).unwrap().0,
                        old(session)@.next(EventView::Done).unwrap().1,
                        replies,
                    ) == (final(session)@, a@)
            },
    {
        match blocker.reclaim(session) {
            Some(first) => {
                proof {
                    crate::session::lemma_next_awaits(old(session)@, EventView::Done);
                }
                Some(self.settle(session, first))
            },
            None => None,
        }
    }
}

} // verus!
