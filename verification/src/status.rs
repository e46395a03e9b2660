//! The one failure of a resolution, and the status reports that accompany a
//! resolution.

use crate::substring::{is_substring, occurs_at};
use crate::tool::ToolKind;
use vstd::prelude::*;
use vstd::string::*;

verus! {

/// Neither tool was found. `primary` is the tool that was searched first.
#[derive(Clone, Copy, Debug, PartialEq, Eq, Structural)]
pub struct ToolNotFound {
    pub primary: ToolKind,
}

/// The command that installs the tool of kind `kind`.
pub open spec fn install_command(kind: ToolKind) -> Seq<char> {
    match kind {
        ToolKind::FrameworkCli => "bash -i <(curl -s https://install.aztec.network)"@,
        ToolKind::DirectCompiler => "noirup"@,
    }
}

/// What the remediation message says before the install command.
pub open spec fn message_lead(kind: ToolKind) -> Seq<char> {
    match kind {
        ToolKind::FrameworkCli => "Aztec CLI not found. Install Aztec tooling:\n\n"@,
        ToolKind::DirectCompiler =>
            "nargo not found. Install Noir tooling:\n\ncurl -L https://raw.githubusercontent.com/noir-lang/noirup/main/install | bash\n"@,
    }
}

/// What the remediation message says after the install command.
pub open spec fn message_tail(kind: ToolKind) -> Seq<char> {
    match kind {
        ToolKind::FrameworkCli =>
            "\naztec-up latest\n\nNote: Docker must be running for 'aztec lsp' to work."@,
        ToolKind::DirectCompiler =>
            "\n\nOr for Aztec projects, install Aztec tooling:\nbash -i <(curl -s https://install.aztec.network)"@,
    }
}

/// The remediation message for a search that began with the tool of kind
/// `primary` and found neither tool.
pub open spec fn not_found_message(primary: ToolKind) -> Seq<char> {
    message_lead(primary) + install_command(primary) + message_tail(primary)
}

/// The remediation message names the command that installs the primary tool.
pub proof fn lemma_message_names_install_command(primary: ToolKind)
    ensures
        is_substring(install_command(primary), not_found_message(primary)),
{
    let lead = message_lead(primary);
    let command = install_command(primary);
    let whole = not_found_message(primary);
    let at = lead.len() as int;
    assert(whole.subrange(at, at + command.len()) =~= command);
    assert(occurs_at(command, whole, at));
}

impl ToolNotFound {
    /// The remediation message: what was not found and how to install it.
    pub fn message(&self) -> (text: String)
        ensures
            text@ == not_found_message(self.primary),
    {
        match self.primary {
            ToolKind::FrameworkCli => {
                let mut text = "Aztec CLI not found. Install Aztec tooling:\n\n".to_owned();
                text.append("bash -i <(curl -s https://install.aztec.network)");
                text.append(
                    "\naztec-up latest\n\nNote: Docker must be running for 'aztec lsp' to work.",
                );
                text
            },
            ToolKind::DirectCompiler => {
                let mut text =
                    "nargo not found. Install Noir tooling:\n\ncurl -L https://raw.githubusercontent.com/noir-lang/noirup/main/install | bash\n".to_owned();
                text.append("noirup");
                text.append(
                    "\n\nOr for Aztec projects, install Aztec tooling:\nbash -i <(curl -s https://install.aztec.network)",
                );
                text
            },
        }
    }
}

/// What the host is told about the installation while a resolution runs.
#[derive(Clone, Debug, PartialEq, Eq)]
pub enum InstallationStatus {
    /// A search for a tool begins.
    Searching,
    /// The resolution ended with a launch specification: nothing to report.
    Cleared,
    /// The resolution failed; the text is the remediation message.
    Failed(String),
}

/// The mathematical model of an `InstallationStatus`.
pub enum InstallationStatusView {
    Searching,
    Cleared,
    Failed(Seq<char>),
}

impl View for InstallationStatus {
    type V = InstallationStatusView;

    open spec fn view(&self) -> InstallationStatusView {
        match self {
            InstallationStatus::Searching => InstallationStatusView::Searching,
            InstallationStatus::Cleared => InstallationStatusView::Cleared,
            InstallationStatus::Failed(text) => InstallationStatusView::Failed(text@),
        }
    }
}

impl DeepView for InstallationStatus {
    type V = InstallationStatusView;

    open spec fn deep_view(&self) -> InstallationStatusView {
        self@
    }
}

} // verus!
