//! The normalised result of one run of an interpreter.

use crate::error::Error;
use crate::text::{ascii_text, decode_lossy, is_ascii_bytes, utf8_lossy};
use vstd::prelude::*;
use vstd::utf8::{decode_utf8, valid_utf8};

verus! {

/// The exit code reported when the interpreter could not be started at all,
/// so that no process ever ran. It is 126, the code by which shells say that
/// a command was found but could not be run.
pub const LAUNCH_FAILURE_CODE: i32 = 126;

/// How the operating system reports that a child process ended.
#[derive(Debug, Clone, Copy)]
pub struct Termination {
    /// The numeric exit code, when the process ended with one.
    pub code: Option<i32>,
    /// Whether the operating system counts this ending as a success.
    pub success: bool,
}

impl Termination {
    /// The exit code that stands for this ending: the process's own code
    /// wherever it gave one, else 0 for a successful ending and 1 for any other.
    pub open spec fn spec_exit_code(&self) -> int {
        match self.code {
            Some(code) => code as int,
            None => if self.success { 0 } else { 1 },
        }
    }

    /// Reduces the ending of a process to one exit code. A code that the
    /// process supplied is passed on as it is, negative and large values too.
    pub fn exit_code(&self) -> (res: i32)
        ensures
            res == self.spec_exit_code(),
            self.code matches Some(code) ==> res == code,
            self.code is None ==> (res == 0 || res == 1) && (res == 0 <==> self.success),
    {
        match self.code {
            Some(code) => code,
            None => if self.success { 0 } else { 1 },
        }
    }
}

/// What came of the attempt to run an interpreter.
#[derive(Debug, Clone)]
pub enum Launch {
    /// The process was started and ran to its end.
    Completed {
        /// How it ended.
        status: Termination,
        /// The bytes it wrote to standard output.
        stdout: Vec<u8>,
        /// The bytes it wrote to standard error.
        stderr: Vec<u8>,
    },
    /// The process could not be started.
    Failed {
        /// The operating system's description of what went wrong.
        reason: String,
    },
}

/// The complete observable result of one run: an exit code and the text of
/// the two output streams.
#[derive(Debug, Clone)]
pub struct ExecutionOutcome {
    /// The exit code of the run.
    pub exit_code: i32,
    /// The text written to standard output.
    pub stdout: String,
    /// The text written to standard error.
    pub stderr: String,
}

/// The mathematical value of an [`ExecutionOutcome`].
pub struct OutcomeView {
    pub exit_code: int,
    pub stdout: Seq<char>,
    pub stderr: Seq<char>,
}

impl View for ExecutionOutcome {
    type V = OutcomeView;

    open spec fn view(&self) -> OutcomeView {
        OutcomeView { exit_code: self.exit_code as int, stdout: self.stdout@, stderr: self.stderr@ }
    }
}

impl PartialEq for ExecutionOutcome {
    fn eq(&self, other: &Self) -> (res: bool) {
        self.exit_code == other.exit_code && self.stdout == other.stdout && self.stderr
            == other.stderr
    }
}

impl vstd::std_specs::cmp::PartialEqSpecImpl for ExecutionOutcome {
    open spec fn obeys_eq_spec() -> bool {
        true
    }

    open spec fn eq_spec(&self, other: &Self) -> bool {
        self@ == other@
    }
}

/// The outcome of a process that ended as `status` says after writing the
/// texts `stdout` and `stderr`.
pub open spec fn completed_outcome(
    status: Termination,
    stdout: Seq<char>,
    stderr: Seq<char>,
) -> OutcomeView {
    OutcomeView { exit_code: status.spec_exit_code(), stdout, stderr }
}

/// The outcome that stands for a process that never ran: the sentinel code,
/// nothing on standard output, and the reason in place of standard error.
pub open spec fn launch_failure_outcome(reason: Seq<char>) -> OutcomeView {
    OutcomeView { exit_code: LAUNCH_FAILURE_CODE as int, stdout: Seq::empty(), stderr: reason }
}

impl Launch {
    /// The outcome that this launch is normalised to.
    pub open spec fn spec_outcome(&self) -> OutcomeView {
        match self {
            Launch::Completed { status, stdout, stderr } => completed_outcome(
                *status,
                utf8_lossy(stdout@),
                utf8_lossy(stderr@),
            ),
            Launch::Failed { reason } => launch_failure_outcome(reason@),
        }
    }

    /// Normalises what came of a launch into one outcome. A process that ran
    /// gives its exit code and its two streams decoded as UTF-8, malformed
    /// bytes replaced; one that could not be started gives the sentinel code,
    /// an empty standard output and the reason as its standard error. Neither
    /// is an error of this function, and the outcome depends on this launch
    /// alone.
    pub fn outcome(self) -> (res: ExecutionOutcome)
        ensures
            res@ == self.spec_outcome(),
            self matches Launch::Completed { status, stdout, stderr } ==> {
                &&& status.code matches Some(code) ==> res.exit_code == code
                &&& valid_utf8(stdout@) ==> res.stdout@ == decode_utf8(stdout@)
                &&& valid_utf8(stderr@) ==> res.stderr@ == decode_utf8(stderr@)
                &&& is_ascii_bytes(stdout@) ==> res.stdout@ == ascii_text(stdout@)
                &&& is_ascii_bytes(stderr@) ==> res.stderr@ == ascii_text(stderr@)
            },
            self matches Launch::Failed { reason } ==> {
                &&& res.exit_code == LAUNCH_FAILURE_CODE
                &&& res.exit_code != 0
                &&& res.stdout@.len() == 0
                &&& res.stderr@ == reason@
            },
    {
        match self {
            Launch::Completed { status, stdout, stderr } => {
                let stdout_text = decode_lossy(stdout.as_slice());
                let stderr_text = decode_lossy(stderr.as_slice());
                ExecutionOutcome::completed(status, stdout_text, stderr_text)
            },
            Launch::Failed { reason } => ExecutionOutcome::launch_failure(reason),
        }
    }
}

impl ExecutionOutcome {
    /// The outcome of a process that ended as `status` says, with the decoded
    /// text of its two streams.
    pub fn completed(status: Termination, stdout: String, stderr: String) -> (res: Self)
        ensures
            res@ == completed_outcome(status, stdout@, stderr@),
            res.stdout == stdout,
            res.stderr == stderr,
            status.code matches Some(code) ==> res.exit_code == code,
    {
        ExecutionOutcome { exit_code: status.exit_code(), stdout, stderr }
    }

    /// The outcome reported when the interpreter could not be started, `reason`
    /// being the operating system's description of the failure.
    pub fn launch_failure(reason: String) -> (res: Self)
        ensures
            res@ == launch_failure_outcome(reason@),
            res.exit_code == LAUNCH_FAILURE_CODE,
            res.exit_code != 0,
            res.stdout@.len() == 0,
            res.stderr == reason,
    {
        ExecutionOutcome { exit_code: LAUNCH_FAILURE_CODE, stdout: String::new(), stderr: reason }
    }

    /// Splits the outcome by its exit code: zero is a success that carries
    /// standard output alone, any other code a failure that carries all three
    /// fields unchanged.
    pub fn wrap(self) -> (res: Result<String, Error>)
        ensures
            self.exit_code == 0 ==> res == Ok::<String, Error>(self.stdout),
            self.exit_code != 0 ==> res == Err::<String, Error>(
                (Error { code: self.exit_code, stdout: self.stdout, stderr: self.stderr }),
            ),
            res is Ok <==> self.exit_code == 0,
    {
        if self.exit_code == 0 {
            Ok(self.stdout)
        } else {
            Err(Error { code: self.exit_code, stdout: self.stdout, stderr: self.stderr })
        }
    }

    /// The three fields in the order exit code, standard output, standard
    /// error.
    pub fn into_tuple(self) -> (res: (i32, String, String))
        ensures
            res == (self.exit_code, self.stdout, self.stderr),
    {
        (self.exit_code, self.stdout, self.stderr)
    }
}

} // verus!
