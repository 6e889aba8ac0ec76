//! What a job asks for, and what comes back from the process that runs it.

use vstd::prelude::*;

verus! {

/// The request to run one process.
#[derive(Debug, Clone, PartialEq, Eq)]
pub struct ProcessOpOpen {
    /// The task identifier, unique per job.
    pub id: usize,
    /// The program to run.
    pub cmd: String,
    /// Its arguments, in order.
    pub args: Vec<String>,
    /// Run with the terminal handed over to the process.
    pub block: bool,
    /// Launch and leave: no waiting, no captured output.
    pub orphan: bool,
}

/// A job request as a mathematical value.
pub struct ProcessOpOpenView {
    pub id: usize,
    pub cmd: Seq<char>,
    pub args: Seq<Seq<char>>,
    pub block: bool,
    pub orphan: bool,
}

/// The three ways to run a job.
#[derive(Debug, Clone, Copy, PartialEq, Eq, Structural)]
pub enum Mode {
    /// The process owns the terminal until it exits.
    Block,
    /// The process is launched and left alone.
    Orphan,
    /// The output is captured line by line, and the job can be cancelled.
    Stream,
}

/// The views of a list of strings, in order.
pub open spec fn strings_view(v: Seq<String>) -> Seq<Seq<char>> {
    Seq::new(v.len(), |i: int| v[i]@)
}

impl View for ProcessOpOpen {
    type V = ProcessOpOpenView;

    open spec fn view(&self) -> ProcessOpOpenView {
        ProcessOpOpenView {
            id: self.id,
            cmd: self.cmd@,
            args: strings_view(self.args@),
            block: self.block,
            orphan: self.orphan,
        }
    }
}

impl ProcessOpOpenView {
    /// `block` is looked at first, `orphan` second; a job with neither flag
    /// is streamed.
    pub open spec fn mode(self) -> Mode {
        if self.block {
            Mode::Block
        } else if self.orphan {
            Mode::Orphan
        } else {
            Mode::Stream
        }
    }
}

impl ProcessOpOpen {
    /// The way this job is run.
    pub fn mode(&self) -> (mode: Mode)
        ensures
            mode == self@.mode(),
    {
        if self.block {
            Mode::Block
        } else if self.orphan {
            Mode::Orphan
        } else {
            Mode::Stream
        }
    }
}

/// How a process is to be launched.
#[derive(Debug, Clone, PartialEq, Eq)]
pub struct ShellOpt {
    pub cmd: String,
    pub args: Vec<String>,
    /// Capture standard output and standard error as line streams.
    pub piped: bool,
    /// The process outlives the job.
    pub orphan: bool,
}

/// Launch options as a mathematical value.
pub struct ShellOptView {
    pub cmd: Seq<char>,
    pub args: Seq<Seq<char>>,
    pub piped: bool,
    pub orphan: bool,
}

impl View for ShellOpt {
    type V = ShellOptView;

    open spec fn view(&self) -> ShellOptView {
        ShellOptView {
            cmd: self.cmd@,
            args: strings_view(self.args@),
            piped: self.piped,
            orphan: self.orphan,
        }
    }
}

impl ProcessOpOpenView {
    /// The launch options of this job: output is captured in streamed mode
    /// only.
    pub open spec fn shell(self) -> ShellOptView {
        ShellOptView {
            cmd: self.cmd,
            args: self.args,
            piped: self.mode() == Mode::Stream,
            orphan: self.orphan,
        }
    }
}

/// A copy of a list of strings.
fn clone_strings(v: &Vec<String>) -> (copy: Vec<String>)
    ensures
        strings_view(copy@) == strings_view(v@),
{
    let mut copy: Vec<String> = Vec::new();
    let mut i: usize = 0;
    while i < v.len()
        invariant
            i <= v.len(),
            copy.len() == i,
            forall|k: int| 0 <= k < i ==> copy[k]@ == v[k]@,
        decreases v.len() - i,
    {
        copy.push(v[i].clone());
        i += 1;
    }
    assert(strings_view(copy@) =~= strings_view(v@));
    copy
}

impl ProcessOpOpen {
    /// The launch options of this job.
    pub fn shell(&self) -> (opt: ShellOpt)
        ensures
            opt@ == self@.shell(),
    {
        let piped = !self.block && !self.orphan;
        ShellOpt {
            cmd: self.cmd.clone(),
            args: clone_strings(&self.args),
            piped,
            orphan: self.orphan,
        }
    }
}

/// How a process ended: whether it counts as a success, and its exit code
/// where it has one. A process that a signal ended has no code.
#[derive(Debug, Clone, Copy, PartialEq, Eq)]
pub struct ExitStatus {
    pub success: bool,
    pub code: Option<i32>,
}

} // verus!
