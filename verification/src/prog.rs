//! The progress vocabulary: what a worker tells the task tracker about a job.

use vstd::prelude::*;

verus! {

/// One progress message. Every message carries the identifier of its task.
#[derive(Debug, Clone, PartialEq, Eq)]
pub enum TaskProg {
    /// The task has begun active work; the number is its initial progress.
    New(usize, u64),
    /// Units completed and units in total.
    Adv(usize, u32, u64),
    /// The task is finished and counts as a success.
    Succ(usize),
    /// The task is finished and counts as a failure, for the given reason.
    Fail(usize, String),
    /// One line of captured output.
    Log(usize, String),
}

/// A progress message as a mathematical value.
pub enum TaskProgView {
    New(usize, u64),
    Adv(usize, u32, u64),
    Succ(usize),
    Fail(usize, Seq<char>),
    Log(usize, Seq<char>),
}

impl View for TaskProg {
    type V = TaskProgView;

    open spec fn view(&self) -> TaskProgView {
        match self {
            TaskProg::New(id, init) => TaskProgView::New(*id, *init),
            TaskProg::Adv(id, done, total) => TaskProgView::Adv(*id, *done, *total),
            TaskProg::Succ(id) => TaskProgView::Succ(*id),
            TaskProg::Fail(id, reason) => TaskProgView::Fail(*id, reason@),
            TaskProg::Log(id, line) => TaskProgView::Log(*id, line@),
        }
    }
}

impl TaskProgView {
    /// The task that the message belongs to.
    pub open spec fn id(self) -> usize {
        match self {
            TaskProgView::New(id, _) => id,
            TaskProgView::Adv(id, _, _) => id,
            TaskProgView::Succ(id) => id,
            TaskProgView::Fail(id, _) => id,
            TaskProgView::Log(id, _) => id,
        }
    }

    /// A terminal message ends its task: `Succ` or `Fail`.
    pub open spec fn is_terminal(self) -> bool {
        self is Succ || self is Fail
    }
}

impl TaskProg {
    /// The task that the message belongs to.
    pub fn id(&self) -> (id: usize)
        ensures
            id == self@.id(),
    {
        match self {
            TaskProg::New(id, _) => *id,
            TaskProg::Adv(id, _, _) => *id,
            TaskProg::Succ(id) => *id,
            TaskProg::Fail(id, _) => *id,
            TaskProg::Log(id, _) => *id,
        }
    }

    /// Whether the message ends its task.
    pub fn is_terminal(&self) -> (terminal: bool)
        ensures
            terminal == self@.is_terminal(),
    {
        match self {
            TaskProg::Succ(_) => true,
            TaskProg::Fail(_, _) => true,
            _ => false,
        }
    }
}

} // verus!
