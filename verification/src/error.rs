//! The failure half of a wrapped outcome.

use vstd::prelude::*;

verus! {

/// What is left of a command that ended with a code other than zero: the code
/// and everything the command wrote to its two streams.
#[derive(Debug, Clone)]
pub struct Error {
    /// The exit code of the command.
    pub code: i32,
    /// The text written to standard output.
    pub stdout: String,
    /// The text written to standard error.
    pub stderr: String,
}

/// The mathematical value of an [`Error`].
pub struct ErrorView {
    pub code: int,
    pub stdout: Seq<char>,
    pub stderr: Seq<char>,
}

impl View for Error {
    type V = ErrorView;

    open spec fn view(&self) -> ErrorView {
        ErrorView { code: self.code as int, stdout: self.stdout@, stderr: self.stderr@ }
    }
}

impl Error {
    /// A fixed, short description shared by all failures.
    pub fn description(&self) -> (res: &'static str)
        ensures
            res@ == "Unix command failed."@,
    {
        "Unix command failed."
    }

    /// Renders the failure as text, which is exactly what the command wrote to
    /// its error stream, the empty text included.
    pub fn to_string(&self) -> (res: String)
        ensures
            res@ == self.stderr@,
    {
        self.stderr.clone()
    }
}

impl PartialEq for Error {
    fn eq(&self, other: &Self) -> (res: bool) {
        self.code == other.code && self.stdout == other.stdout && self.stderr == other.stderr
    }
}

impl vstd::std_specs::cmp::PartialEqSpecImpl for Error {
    open spec fn obeys_eq_spec() -> bool {
        true
    }

    open spec fn eq_spec(&self, other: &Self) -> bool {
        self@ == other@
    }
}

} // verus!
