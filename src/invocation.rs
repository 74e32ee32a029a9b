use vstd::prelude::*;

verus! {

/// The program and argument vector that run one command line through the
/// system shell.
pub struct ShellInvocation {
    pub program: String,
    pub args: Vec<String>,
}

/// The interpreter that every command line is handed to.
pub open spec fn shell_program() -> Seq<char> {
    seq!['s', 'h']
}

/// The flag that tells the interpreter to read its command line from the next
/// argument.
pub open spec fn command_flag() -> Seq<char> {
    seq!['-', 'c']
}

impl ShellInvocation {
    /// The invocation runs `sh -c <command>`, with `command` passed verbatim as
    /// one argument.
    pub open spec fn runs(&self, command: Seq<char>) -> bool {
        &&& self.program@ == shell_program()
        &&& self.args@.len() == 2
        &&& self.args@[0]@ == command_flag()
        &&& self.args@[1]@ == command
    }
}

/// Plans the run of `command`: the shell, told to interpret the whole string as
/// one command line. The string is neither parsed nor checked.
pub fn shell_invocation(command: &str) -> (r: ShellInvocation)
    ensures
        r.runs(command@),
{
    let program = "sh".to_owned();
    let flag = "-c".to_owned();
    proof {
        reveal_strlit("sh");
        reveal_strlit("-c");
        assert(program@ =~= shell_program());
        assert(flag@ =~= command_flag());
    }
    let mut args: Vec<String> = Vec::new();
    args.push(flag);
    args.push(command.to_owned());
    ShellInvocation { program, args }
}

} // verus!
