//! One invocation of an external tool, as plain words and as an `xshell::Cmd`.

use vstd::prelude::*;
use vstd::string::*;

verus! {

/// `xshell::Cmd`, a command that is ready to be run. Nothing is known of what
/// is inside one but through [`cmd_words`].
#[verifier::external_type_specification]
#[verifier::external_body]
pub struct ExCmd(xshell::Cmd);

/// The words that an `xshell::Cmd` holds: the program, then the arguments in
/// the order in which they were pushed.
pub uninterp spec fn cmd_words(cmd: xshell::Cmd) -> Seq<Seq<char>>;

/// `xshell::Cmd::new`: a fresh command that holds the program and no argument.
#[verifier::external_body]
fn cmd_new(program: &str) -> (cmd: xshell::Cmd)
    ensures
        cmd_words(cmd) == seq![program@],
{
    xshell::Cmd::new(program)
}

/// `xshell::Cmd::arg`: the same command with one more argument at the end.
#[verifier::external_body]
fn cmd_arg(cmd: xshell::Cmd, arg: &str) -> (out: xshell::Cmd)
    ensures
        cmd_words(out) == cmd_words(cmd).push(arg@),
{
    cmd.arg(arg)
}

/// A program and the arguments it is started with.
#[derive(Clone, Debug, PartialEq, Eq)]
pub struct Invocation {
    pub program: String,
    pub args: Vec<String>,
}

impl View for Invocation {
    type V = Seq<Seq<char>>;

    /// The program followed by the arguments.
    open spec fn view(&self) -> Seq<Seq<char>> {
        seq![self.program@] + self.args.deep_view()
    }
}

impl Invocation {
    /// An invocation of `program` without arguments.
    pub fn new(program: &str) -> (invocation: Invocation)
        ensures
            invocation@ == seq![program@],
    {
        let invocation = Invocation { program: String::from_str(program), args: Vec::new() };
        assert(invocation@ =~= seq![program@]);
        invocation
    }

    /// The same invocation with `arg` added at the end.
    pub fn arg(self, arg: &str) -> (invocation: Invocation)
        ensures
            invocation@ == self@.push(arg@),
    {
        let mut invocation = self;
        invocation.args.push(String::from_str(arg));
        assert(invocation@ =~= self@.push(arg@));
        invocation
    }

    /// The command that runs this invocation.
    pub fn command(&self) -> (cmd: xshell::Cmd)
        ensures
            cmd_words(cmd) == self@,
    {
        let mut cmd = cmd_new(self.program.as_str());
        let mut i: usize = 0;
        while i < self.args.len()
            invariant
                i <= self.args.len(),
                cmd_words(cmd) == self@.take(i + 1),
            decreases self.args.len() - i,
        {
            cmd = cmd_arg(cmd, self.args[i].as_str());
            i += 1;
            assert(self@.take(i + 1) =~= self@.take(i as int).push(self.args[i - 1]@));
        }
        assert(self@.take(i + 1) =~= self@);
        cmd
    }
}

} // verus!
