//! How a configured command line is run: by the shell, as one argument.

use vstd::prelude::*;

verus! {

/// A program to start and the arguments to start it with.
#[derive(Clone, Debug, PartialEq, Eq)]
pub struct Invocation {
    pub program: String,
    pub arguments: Vec<String>,
}

/// An [`Invocation`] as sequences of characters.
pub struct InvocationView {
    pub program: Seq<char>,
    pub arguments: Seq<Seq<char>>,
}

impl View for Invocation {
    type V = InvocationView;

    open spec fn view(&self) -> InvocationView {
        InvocationView {
            program: self.program@,
            arguments: self.arguments@.map_values(|argument: String| argument@),
        }
    }
}

/// The invocation that runs `line`: the shell, told to read its command from
/// the argument that follows, and the line itself as that argument.
pub open spec fn shell_invocation(line: Seq<char>) -> InvocationView {
    InvocationView { program: "/bin/sh"@, arguments: seq!["-c"@, line] }
}

impl Invocation {
    /// The invocation that runs `line` in the shell. The line is handed over
    /// character for character.
    pub fn shell(line: &str) -> (invocation: Invocation)
        ensures
            invocation@ == shell_invocation(line@),
    {
        let mut arguments: Vec<String> = Vec::new();
        arguments.push("-c".to_owned());
        arguments.push(line.to_owned());
        let invocation = Invocation { program: "/bin/sh".to_owned(), arguments };
        assert(invocation@.arguments =~= seq!["-c"@, line@]);
        invocation
    }
}

} // verus!
