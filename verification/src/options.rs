//! What the commands to open files carry.

use vstd::prelude::*;

verus! {

/// How to open files: the program line of an opener and its flags.
#[derive(Debug, Clone, PartialEq, Eq)]
pub struct Opener {
    /// The program line to run.
    pub run: String,
    /// Run with the terminal handed over to the process.
    pub block: bool,
    /// Launch and leave.
    pub orphan: bool,
    /// What the opener is shown as.
    pub desc: String,
}

/// The request to open the targets with whatever opener fits each.
#[derive(Debug, Clone, PartialEq, Eq)]
pub struct OpenDoOpt {
    /// The file under the cursor.
    pub hovered: String,
    /// The files to open, each with its mime type.
    pub targets: Vec<(String, String)>,
    /// Let the user pick the opener.
    pub interactive: bool,
}

/// The request to open the targets with one given opener.
#[derive(Debug, Clone, PartialEq, Eq)]
pub struct OpenWithOpt {
    /// The files to open.
    pub targets: Vec<String>,
    pub opener: Opener,
}

impl Default for OpenDoOpt {
    fn default() -> (opt: Self)
        ensures
            opt.hovered@.len() == 0,
            opt.targets@.len() == 0,
            !opt.interactive,
    {
        OpenDoOpt { hovered: String::new(), targets: Vec::new(), interactive: false }
    }
}

impl OpenDoOpt {
    /// The request that a command carries, or the empty request where the
    /// command carries none.
    pub fn from_data(data: Option<OpenDoOpt>) -> (opt: OpenDoOpt)
        ensures
            data matches Some(given) ==> opt == given,
            data is None ==> opt.hovered@.len() == 0 && opt.targets@.len() == 0
                && !opt.interactive,
    {
        match data {
            Some(given) => given,
            None => OpenDoOpt::default(),
        }
    }
}

impl OpenWithOpt {
    /// The request that a command carries; a command that carries none is
    /// an error.
    pub fn try_from_data(data: Option<OpenWithOpt>) -> (opt: Result<OpenWithOpt, ()>)
        ensures
            data matches Some(given) ==> opt == Ok::<OpenWithOpt, ()>(given),
            data is None ==> opt is Err,
    {
        data.ok_or(())
    }
}

} // verus!
