//! The two tools that can serve the language server.

use vstd::prelude::*;

verus! {

/// The two tools that can serve the language server.
#[derive(Clone, Copy, Debug, PartialEq, Eq, Structural)]
pub enum ToolKind {
    /// Runs the compiler in a container; needs a shell around it.
    FrameworkCli,
    /// The compiler itself, started directly.
    DirectCompiler,
}

impl ToolKind {
    /// The other of the two tools.
    pub open spec fn other(self) -> ToolKind {
        match self {
            ToolKind::FrameworkCli => ToolKind::DirectCompiler,
            ToolKind::DirectCompiler => ToolKind::FrameworkCli,
        }
    }

    /// The other of the two tools.
    pub fn other_tool(self) -> (kind: ToolKind)
        ensures
            kind == self.other(),
    {
        match self {
            ToolKind::FrameworkCli => ToolKind::DirectCompiler,
            ToolKind::DirectCompiler => ToolKind::FrameworkCli,
        }
    }

    /// The name of the tool's executable.
    pub open spec fn name(self) -> Seq<char> {
        match self {
            ToolKind::FrameworkCli => "aztec"@,
            ToolKind::DirectCompiler => "nargo"@,
        }
    }

    /// The name of the tool's executable.
    pub fn executable_name(self) -> (name: &'static str)
        ensures
            name@ == self.name(),
    {
        match self {
            ToolKind::FrameworkCli => "aztec",
            ToolKind::DirectCompiler => "nargo",
        }
    }
}

} // verus!
