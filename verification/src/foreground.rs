//! The blocker together with the jobs that share it: at no time are two jobs
//! on the terminal.

use crate::op::ProcessOpOpenView;
use crate::session::{EventView, Phase, SessionView};
use crate::trace::phase_of_mode;
use vstd::prelude::*;

verus! {

/// The blocker and every session that goes through it, by task identifier.
pub struct World {
    /// Who holds the permit of the blocker.
    pub holder: Option<usize>,
    pub sessions: Map<usize, SessionView>,
}

/// One thing that happens to the blocker or to one of the sessions.
pub enum Move {
    /// A job is opened. Its identifier is not in use.
    Open(ProcessOpOpenView),
    /// A session takes the answer to its last action.
    Answer(usize, EventView),
    /// The blocker grants its permit to a session that asked for it.
    Grant(usize),
    /// The blocker takes its permit back from a session that asked to give it.
    Reclaim(usize),
    /// The session of a job that does not hold the permit is dropped.
    Forget(usize),
    /// A job is given up where it stands, and its permit with it.
    Abandon(usize),
    /// Someone takes the permit from the blocker directly.
    Take(usize),
    /// Someone gives the permit back to the blocker directly. No session that
    /// counts on the permit goes by that name.
    Give(usize),
}

/// A session that counts on the permit is the holder that the blocker knows.
pub open spec fn covers(holder: Option<usize>, s: SessionView) -> bool {
    s.holds_permit() ==> holder == Some(s.job.id)
}

/// The world before anything has happened: the permit is free and there is
/// no session.
pub open spec fn first_world() -> World {
    World { holder: None, sessions: Map::empty() }
}

/// The world after a move, or `None` where the move cannot be made.
pub open spec fn moved(w: World, m: Move) -> Option<World> {
    match m {
        Move::Open(job) => if w.sessions.dom().contains(job.id) {
            None
        } else {
            Some(World { sessions: w.sessions.insert(job.id, SessionView::opened(job).0), ..w })
        },
        Move::Answer(id, event) => if w.sessions.dom().contains(id) && w.sessions[id].accepts(event)
            && !w.sessions[id].at_blocker() {
            Some(
                World { sessions: w.sessions.insert(id, w.sessions[id].next(event).unwrap().0), ..w },
            )
        } else {
            None
        },
        Move::Grant(id) => if w.sessions.dom().contains(id) && w.sessions[id].phase is Acquiring
            && w.holder is None {
            Some(
                World {
                    holder: Some(id),
                    sessions: w.sessions.insert(
                        id,
                        w.sessions[id].next(EventView::Done).unwrap().0,
                    ),
                },
            )
        } else {
            None
        },
        Move::Reclaim(id) => if w.sessions.dom().contains(id) && w.sessions[id].phase is Releasing
            && w.holder == Some(id) {
            Some(
                World {
                    holder: None,
                    sessions: w.sessions.insert(
                        id,
                        w.sessions[id].next(EventView::Done).unwrap().0,
                    ),
                },
            )
        } else {
            None
        },
        Move::Forget(id) => if w.sessions.dom().contains(id) && !w.sessions[id].holds_permit() {
            Some(World { sessions: w.sessions.remove(id), ..w })
        } else {
            None
        },
        Move::Abandon(id) => if w.sessions.dom().contains(id) {
            Some(
                World {
                    holder: if w.sessions[id].holds_permit() && w.holder == Some(id) {
                        None
                    } else {
                        w.holder
                    },
                    sessions: w.sessions.insert(id, w.sessions[id].at(Phase::Finished)),
                },
            )
        } else {
            None
        },
        Move::Take(id) => if w.holder is None {
            Some(World { holder: Some(id), ..w })
        } else {
            None
        },
        Move::Give(id) => if w.holder == Some(id) && !(w.sessions.dom().contains(id)
            && w.sessions[id].holds_permit()) {
            Some(World { holder: None, ..w })
        } else {
            None
        },
    }
}

/// A session as it stands in a world that fits: it goes by the identifier
/// of its job, it is in a phase of its mode, and if it counts on the permit
/// it is the holder that the blocker knows.
pub open spec fn session_fits(holder: Option<usize>, id: usize, s: SessionView) -> bool {
    &&& s.job.id == id
    &&& phase_of_mode(s.job.mode(), s.phase)
    &&& covers(holder, s)
}

/// Every session fits.
pub open spec fn world_fits(w: World) -> bool {
    forall|id: usize| #[trigger]
        w.sessions.dom().contains(id) ==> session_fits(w.holder, id, w.sessions[id])
}

/// The world after a sequence of moves, or `None` where one of them cannot
/// be made.
pub open spec fn world_after(moves: Seq<Move>) -> Option<World>
    decreases moves.len(),
{
    if moves.len() == 0 {
        Some(first_world())
    } else {
        match world_after(moves.drop_last()) {
            Some(w) => moved(w, moves.last()),
            None => None,
        }
    }
}

/// A move keeps the blocker and the sessions in agreement.
pub proof fn law_move_keeps_world(w: World, m: Move)
    requires
        world_fits(w),
        moved(w, m) is Some,
    ensures
        world_fits(moved(w, m).unwrap()),
{
    let after = moved(w, m).unwrap();
    assert forall|id: usize| #[trigger] after.sessions.dom().contains(id) implies session_fits(
        after.holder,
        id,
        after.sessions[id],
    ) by {
        match m {
            Move::Open(job) => {
                if id != job.id {
                    assert(w.sessions.dom().contains(id));
                }
            },
            Move::Answer(other, event) => {
                assert(w.sessions.dom().contains(id));
                assert(w.sessions.dom().contains(other));
            },
            Move::Grant(other) => {
                assert(w.sessions.dom().contains(id));
                assert(w.sessions.dom().contains(other));
            },
            Move::Reclaim(other) => {
                assert(w.sessions.dom().contains(id));
                assert(w.sessions.dom().contains(other));
            },
            Move::Forget(other) => {
                assert(w.sessions.dom().contains(id));
            },
            Move::Abandon(other) => {
                assert(w.sessions.dom().contains(id));
                assert(w.sessions.dom().contains(other));
            },
            Move::Take(other) => {
                assert(w.sessions.dom().contains(id));
            },
            Move::Give(other) => {
                assert(w.sessions.dom().contains(id));
            },
        }
    }
}

/// Whatever happens, in whatever order, the blocker and the sessions agree.
pub proof fn law_world_fits(moves: Seq<Move>)
    requires
        world_after(moves) is Some,
    ensures
        world_fits(world_after(moves).unwrap()),
    decreases moves.len(),
{
    if moves.len() > 0 {
        law_world_fits(moves.drop_last());
        law_move_keeps_world(world_after(moves.drop_last()).unwrap(), moves.last());
    }
}

/// The blocker never has its permit out twice: of two jobs, whatever has
/// happened, at most one holds the permit, and at most one is on the
/// terminal. The time that one job has the terminal never overlaps with
/// the time that another has it.
pub proof fn law_one_job_on_terminal(moves: Seq<Move>, a: usize, b: usize)
    requires
        world_after(moves) is Some,
        world_after(moves).unwrap().sessions.dom().contains(a),
        world_after(moves).unwrap().sessions.dom().contains(b),
        a != b,
    ensures
        ({
            let w = world_after(moves).unwrap();
            &&& !(w.sessions[a].holds_permit() && w.sessions[b].holds_permit())
            &&& !(w.sessions[a].on_terminal() && w.sessions[b].on_terminal())
        }),
{
    law_world_fits(moves);
}

} // verus!
