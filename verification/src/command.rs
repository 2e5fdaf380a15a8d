//! External tools as values: what is to be run, and what came back.
//!
//! The crate never runs a tool. It says which program is to be run with
//! which arguments, and it interprets the outcome that the caller reports.

use vstd::prelude::*;

verus! {

/// One invocation of an external program.
#[derive(Clone, Debug, PartialEq, Eq)]
pub struct Invocation {
    /// The program to run: a name to look up, or a path.
    pub program: String,
    /// The arguments, in order.
    pub args: Vec<String>,
}

/// Mathematical model of an invocation.
pub struct InvocationModel {
    pub program: Seq<char>,
    pub args: Seq<Seq<char>>,
}

impl DeepView for Invocation {
    type V = InvocationModel;

    open spec fn deep_view(&self) -> InvocationModel {
        InvocationModel { program: self.program@, args: self.args.deep_view() }
    }
}

/// What an invocation came to.
#[derive(Clone, Debug, PartialEq, Eq)]
pub enum CommandOutcome {
    /// The program could not be run or ended with an error status; the
    /// text describes the failure.
    Failed(String),
    /// The program ended well and wrote nothing to its standard output.
    Silent,
    /// The program ended well; the text is its standard output.
    Output(String),
}

/// Appends one argument to a list of arguments.
pub fn push_arg(args: &mut Vec<String>, arg: &str)
    ensures
        final(args).deep_view() == old(args).deep_view().push(arg@),
{
    args.push(arg.to_owned());
}

} // verus!
