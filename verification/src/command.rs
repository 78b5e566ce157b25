//! The command line that launches the kernel.

use vstd::prelude::*;
use vstd::string::StringExecFns;

verus! {

/// Name of the interpreter that runs the kernel. It is looked up on the
/// search path that the child inherits.
pub const INTERPRETER: &'static str = "python3";

/// Module that holds the kernel.
pub const KERNEL_MODULE: &'static str = "loop";

/// Mode in which the kernel is started: it serves its API.
pub const SERVE_MODE: &'static str = "serve";

/// What is launched: an interpreter, the module it runs and the mode handed
/// to that module.
#[derive(Debug, Clone, PartialEq, Eq)]
pub struct LaunchCommand {
    /// Name or path of the interpreter, as handed to the operating system.
    pub interpreter: String,
    /// Module that the interpreter is started on.
    pub module: String,
    /// Mode that the module is started in.
    pub mode: String,
}

/// The texts of a list of strings, in order.
pub open spec fn texts(strings: Seq<String>) -> Seq<Seq<char>> {
    Seq::new(strings.len(), |i: int| strings[i]@)
}

impl LaunchCommand {
    /// The argument vector as the child sees it: the interpreter, the module
    /// and the mode.
    pub open spec fn argv(self) -> Seq<Seq<char>> {
        seq![self.interpreter@, self.module@, self.mode@]
    }

    /// The arguments that follow the interpreter's name on the command line.
    pub fn arguments(&self) -> (args: Vec<String>)
        ensures
            texts(args@) == seq![self.module@, self.mode@],
            seq![self.interpreter@] + texts(args@) == self.argv(),
    {
        let mut args: Vec<String> = Vec::new();
        args.push(self.module.clone());
        args.push(self.mode.clone());
        assert(texts(args@) =~= seq![self.module@, self.mode@]);
        assert(seq![self.interpreter@] + texts(args@) =~= self.argv());
        args
    }
}

/// The argument vector of the kernel: the interpreter, the kernel's module
/// and the serve mode.
pub open spec fn kernel_argv() -> Seq<Seq<char>> {
    seq![INTERPRETER@, KERNEL_MODULE@, SERVE_MODE@]
}

/// Builds the command that launches the kernel. Nothing in it depends on the
/// caller or on the environment.
pub fn kernel_command() -> (command: LaunchCommand)
    ensures
        command.argv() == kernel_argv(),
{
    LaunchCommand {
        interpreter: String::from_str(INTERPRETER),
        module: String::from_str(KERNEL_MODULE),
        mode: String::from_str(SERVE_MODE),
    }
}

} // verus!
