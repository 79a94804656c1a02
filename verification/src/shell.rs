//! The supported interpreters and the command line that runs a script in one.

use vstd::prelude::*;

verus! {

/// A command interpreter that takes a script after the flag `-c`.
#[derive(Debug, Clone, Copy, PartialEq, Eq, Structural)]
pub enum Shell {
    /// The POSIX shell.
    Sh,
    /// The Almquist shell.
    Ash,
    /// The C shell.
    Csh,
    /// The Korn shell.
    Ksh,
    /// The Z shell.
    Zsh,
    /// The Bourne-Again shell.
    Bash,
    /// The Debian Almquist shell.
    Dash,
    /// The Fish shell.
    Fish,
    /// The MirBSD Korn shell.
    Mksh,
    /// The TENEX C shell.
    Tcsh,
}

impl Shell {
    /// The name of the executable of this interpreter.
    pub open spec fn spec_name(&self) -> Seq<char> {
        match self {
            Shell::Sh => "sh"@,
            Shell::Ash => "ash"@,
            Shell::Csh => "csh"@,
            Shell::Ksh => "ksh"@,
            Shell::Zsh => "zsh"@,
            Shell::Bash => "bash"@,
            Shell::Dash => "dash"@,
            Shell::Fish => "fish"@,
            Shell::Mksh => "mksh"@,
            Shell::Tcsh => "tcsh"@,
        }
    }

    /// The name under which this interpreter is looked up and started.
    pub fn name(&self) -> (res: &'static str)
        ensures
            res@ == self.spec_name(),
    {
        match self {
            Shell::Sh => "sh",
            Shell::Ash => "ash",
            Shell::Csh => "csh",
            Shell::Ksh => "ksh",
            Shell::Zsh => "zsh",
            Shell::Bash => "bash",
            Shell::Dash => "dash",
            Shell::Fish => "fish",
            Shell::Mksh => "mksh",
            Shell::Tcsh => "tcsh",
        }
    }

    /// The command line that runs `script` in this interpreter.
    pub fn invocation(&self, script: &str) -> (res: Invocation)
        ensures
            res@ == command_line(self.spec_name(), script@),
    {
        invocation(self.name(), script)
    }
}

/// A program to start and the arguments to hand it.
#[derive(Debug, Clone)]
pub struct Invocation {
    /// The name or path of the executable.
    pub program: String,
    /// Its arguments, in order, each handed over as one argument.
    pub args: Vec<String>,
}

/// The mathematical value of an [`Invocation`].
pub struct InvocationView {
    pub program: Seq<char>,
    pub args: Seq<Seq<char>>,
}

impl View for Invocation {
    type V = InvocationView;

    open spec fn view(&self) -> InvocationView {
        InvocationView { program: self.program@, args: self.args.deep_view() }
    }
}

/// The command line that hands `script` to the interpreter `shell`: the flag
/// `-c`, then the whole script as a single argument, neither split nor
/// escaped.
pub open spec fn command_line(shell: Seq<char>, script: Seq<char>) -> InvocationView {
    InvocationView { program: shell, args: seq!["-c"@, script] }
}

/// Builds the command line that runs `script` in the interpreter found under
/// the name or path `shell`. The script is taken as it is: parsing it is the
/// interpreter's work.
pub fn invocation(shell: &str, script: &str) -> (res: Invocation)
    ensures
        res@ == command_line(shell@, script@),
        res.program@ == shell@,
        res.args@.len() == 2,
        res.args@[0]@ == "-c"@,
        res.args@[1]@ == script@,
{
    let mut args: Vec<String> = Vec::new();
    args.push("-c".to_owned());
    args.push(script.to_owned());
    let res = Invocation { program: shell.to_owned(), args };
    assert(res.args.deep_view() =~= seq!["-c"@, script@]);
    res
}

} // verus!
