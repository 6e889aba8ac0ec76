//! The blocker: one permit for the foreground, held by whoever owns the
//! terminal.

use crate::session::{Action, EventView, Phase, Session};
use vstd::prelude::*;

verus! {

/// A pool of one permit. Whoever holds the permit may take the terminal
/// over; everyone else has to wait until the permit is back.
pub struct Blocker {
    holder: Option<usize>,
}

impl Blocker {
    /// The task that holds the permit, if any does.
    pub closed spec fn holder(&self) -> Option<usize> {
        self.holder
    }

    /// The number of permits that are free.
    pub open spec fn permits(&self) -> nat {
        if self.holder() is None {
            1
        } else {
            0
        }
    }

    /// A blocker with its permit free.
    pub fn new() -> (blocker: Self)
        ensures
            blocker.holder() is None,
    {
        Self { holder: None }
    }

    /// The number of permits that are free: one or none.
    pub fn available_permits(&self) -> (n: usize)
        ensures
            n == self.permits(),
    {
        match self.holder {
            None => 1,
            Some(_) => 0,
        }
    }

    /// Takes the permit for `id` if it is free. The permit is never given
    /// twice: while it is out, every attempt fails, the holder's own too.
    pub fn try_acquire(&mut self, id: usize) -> (granted: bool)
        ensures
            granted == (old(self).holder() is None),
            final(self).holder() == if granted {
                Some(id)
            } else {
                old(self).holder()
            },
    {
        match self.holder {
            None => {
                self.holder = Some(id);
                true
            },
            Some(_) => false,
        }
    }

    /// Gives the permit back if `id` holds it. Anyone else changes nothing.
    pub fn release(&mut self, id: usize) -> (released: bool)
        ensures
            released == (old(self).holder() == Some(id)),
            final(self).holder() == if released {
                None
            } else {
                old(self).holder()
            },
    {
        match self.holder {
            Some(holder) => {
                if holder == id {
                    self.holder = None;
                    true
                } else {
                    false
                }
            },
            None => false,
        }
    }

    /// Answers a session that asks for the permit. Where the permit is
    /// free, the session gets it and says what it wants next. Where it is
    /// not, or the session did not ask, nothing changes and `None` comes
    /// back: the caller waits and asks again.
    pub fn grant(&mut self, session: &mut Session) -> (action: Option<Action>)
        ensures
            action is Some <==> old(session)@.phase is Acquiring && old(self).holder() is None,
            action matches Some(a) ==> {
                &&& final(self).holder() == Some(old(session)@.job.id)
                &&& old(session)@.next(EventView::Done) == Some((final(session)@, a@))
            },
            action is None ==> final(self).holder() == old(self).holder() && final(session)@ == old(
                session,
            )@,
    {
        if session.is_acquiring() && self.try_acquire(session.id()) {
            Some(session.granted())
        } else {
            None
        }
    }

    /// Answers a session that gives the permit back. Where the session
    /// holds the permit and asked to give it back, the permit is free again
    /// and the session says what it wants next. Otherwise nothing changes
    /// and `None` comes back.
    pub fn reclaim(&mut self, session: &mut Session) -> (action: Option<Action>)
        ensures
            action is Some <==> old(session)@.phase is Releasing && old(self).holder() == Some(
                old(session)@.job.id,
            ),
            action matches Some(a) ==> {
                &&& final(self).holder() is None
                &&& old(session)@.next(EventView::Done) == Some((final(session)@, a@))
            },
            action is None ==> final(self).holder() == old(self).holder() && final(session)@ == old(
                session,
            )@,
    {
        if session.is_releasing() && self.release(session.id()) {
            Some(session.released())
        } else {
            None
        }
    }

    /// Gives a job up where it stands, as when its caller is dropped half
    /// way: the session is over, and the permit is free again if the
    /// session held it. Returns whether the terminal was with the process
    /// of the job, so that the caller can take it back.
    pub fn abandon(&mut self, session: &mut Session) -> (resume: bool)
        ensures
            resume == old(session)@.on_terminal(),
            final(session)@ == old(session)@.at(Phase::Finished),
            final(self).holder() == if old(session)@.holds_permit() && old(self).holder() == Some(
                old(session)@.job.id,
            ) {
                None
            } else {
                old(self).holder()
            },
    {
        let resume = session.on_terminal();
        if session.holds_permit() {
            self.release(session.id());
        }
        session.abort();
        resume
    }
}

} // verus!
