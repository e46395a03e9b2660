//! What the host reports to a resolution, and what a resolution asks of the
//! host.

use crate::environment::{env_lookup, get_env_var, home_var, userprofile_var, EnvView};
use crate::launch::LaunchSpecView;
use crate::locator::{located, ToolProbe, ToolProbeView};
use crate::project::{classification, ProjectClassification};
use crate::tool::ToolKind;
use vstd::prelude::*;

verus! {

/// What the user's configuration says of the language server's binary. Each
/// part may be left out.
#[derive(Clone, Debug, PartialEq, Eq)]
pub struct BinarySettings {
    pub path: Option<String>,
    pub arguments: Option<Vec<String>>,
    pub env: Option<Vec<(String, String)>>,
}

/// The mathematical model of `BinarySettings`.
pub struct BinarySettingsView {
    pub path: Option<Seq<char>>,
    pub arguments: Option<Seq<Seq<char>>>,
    pub env: Option<EnvView>,
}

impl View for BinarySettings {
    type V = BinarySettingsView;

    open spec fn view(&self) -> BinarySettingsView {
        BinarySettingsView {
            path: self.path.deep_view(),
            arguments: self.arguments.deep_view(),
            env: self.env.deep_view(),
        }
    }
}

impl DeepView for BinarySettings {
    type V = BinarySettingsView;

    open spec fn deep_view(&self) -> BinarySettingsView {
        self@
    }
}

/// The user's override, if the configuration holds one: binary settings that
/// name a path.
pub open spec fn user_override(binary: Option<BinarySettingsView>) -> Option<BinarySettingsView> {
    match binary {
        Some(b) if b.path is Some => Some(b),
        _ => None,
    }
}

/// The launch specification that an override asks for: its path as it
/// stands, its arguments or else the single argument `lsp`, its environment
/// or else the shell's.
pub open spec fn override_launch(chosen: BinarySettingsView, shell_env: EnvView) -> LaunchSpecView
    recommends
        chosen.path is Some,
{
    LaunchSpecView {
        executable_path: chosen.path->0,
        arguments: match chosen.arguments {
            Some(arguments) => arguments,
            None => seq!["lsp"@],
        },
        environment: match chosen.env {
            Some(env) => env,
            None => shell_env,
        },
    }
}

/// The home directory: the shell's `HOME`, else the shell's `USERPROFILE`,
/// else the process's `HOME`, else the process's `USERPROFILE`.
pub open spec fn resolved_home(
    shell_env: EnvView,
    process_home: Option<Seq<char>>,
    process_userprofile: Option<Seq<char>>,
) -> Option<Seq<char>> {
    if env_lookup(shell_env, home_var()) is Some {
        env_lookup(shell_env, home_var())
    } else if env_lookup(shell_env, userprofile_var()) is Some {
        env_lookup(shell_env, userprofile_var())
    } else if process_home is Some {
        process_home
    } else {
        process_userprofile
    }
}

/// Finds the home directory in the shell's environment or, failing that, in
/// the two variables of the process's own environment.
pub fn resolve_home(
    shell_env: &[(String, String)],
    process_home: Option<String>,
    process_userprofile: Option<String>,
) -> (home: Option<String>)
    ensures
        home.deep_view() == resolved_home(
            shell_env.deep_view(),
            process_home.deep_view(),
            process_userprofile.deep_view(),
        ),
{
    let from_shell = get_env_var(shell_env, "HOME");
    if from_shell.is_some() {
        return from_shell;
    }
    let from_profile = get_env_var(shell_env, "USERPROFILE");
    if from_profile.is_some() {
        return from_profile;
    }
    if process_home.is_some() {
        return process_home;
    }
    process_userprofile
}

/// Everything that the host can report for one resolution.
#[derive(Clone, Debug, PartialEq, Eq)]
pub struct HostSnapshot {
    /// The shell's environment.
    pub shell_env: Vec<(String, String)>,
    /// `HOME` in the process's own environment.
    pub process_home: Option<String>,
    /// `USERPROFILE` in the process's own environment.
    pub process_userprofile: Option<String>,
    /// The binary settings of the user's configuration.
    pub binary: Option<BinarySettings>,
    /// The text of the project's manifest, `None` where it cannot be read.
    pub manifest: Option<String>,
    /// What is known of the framework tool.
    pub aztec: ToolProbe,
    /// What is known of the direct compiler.
    pub nargo: ToolProbe,
}

/// The mathematical model of a `HostSnapshot`.
pub struct HostSnapshotView {
    pub shell_env: EnvView,
    pub process_home: Option<Seq<char>>,
    pub process_userprofile: Option<Seq<char>>,
    pub binary: Option<BinarySettingsView>,
    pub manifest: Option<Seq<char>>,
    pub aztec: ToolProbeView,
    pub nargo: ToolProbeView,
}

impl View for HostSnapshot {
    type V = HostSnapshotView;

    open spec fn view(&self) -> HostSnapshotView {
        HostSnapshotView {
            shell_env: self.shell_env.deep_view(),
            process_home: self.process_home.deep_view(),
            process_userprofile: self.process_userprofile.deep_view(),
            binary: self.binary.deep_view(),
            manifest: self.manifest.deep_view(),
            aztec: self.aztec@,
            nargo: self.nargo@,
        }
    }
}

impl HostSnapshotView {
    /// What the host reports of the tool of kind `kind`.
    pub open spec fn probe(self, kind: ToolKind) -> ToolProbeView {
        match kind {
            ToolKind::FrameworkCli => self.aztec,
            ToolKind::DirectCompiler => self.nargo,
        }
    }

    /// The home directory that the search uses.
    pub open spec fn home(self) -> Option<Seq<char>> {
        resolved_home(self.shell_env, self.process_home, self.process_userprofile)
    }

    /// The project's classification.
    pub open spec fn project(self) -> ProjectClassification {
        classification(self.manifest)
    }

    /// Where the tool of kind `kind` is, if anywhere.
    pub open spec fn located(self, kind: ToolKind) -> Option<Seq<char>> {
        located(kind, self.probe(kind), self.home())
    }
}

/// What the host hands to the selector.
#[derive(Clone, Debug, PartialEq, Eq)]
pub enum HostEvent {
    /// The user's configuration and the two environments.
    Settings {
        binary: Option<BinarySettings>,
        shell_env: Vec<(String, String)>,
        process_home: Option<String>,
        process_userprofile: Option<String>,
    },
    /// The text of the manifest, `None` where it cannot be read.
    Manifest(Option<String>),
    /// What is known of the tool that the selector asked for.
    Located(ToolProbe),
}

/// The mathematical model of a `HostEvent`.
pub enum HostEventView {
    Settings {
        binary: Option<BinarySettingsView>,
        shell_env: EnvView,
        process_home: Option<Seq<char>>,
        process_userprofile: Option<Seq<char>>,
    },
    Manifest(Option<Seq<char>>),
    Located(ToolProbeView),
}

impl View for HostEvent {
    type V = HostEventView;

    open spec fn view(&self) -> HostEventView {
        match self {
            HostEvent::Settings {
                binary,
                shell_env,
                process_home,
                process_userprofile,
            } => HostEventView::Settings {
                binary: binary.deep_view(),
                shell_env: shell_env.deep_view(),
                process_home: process_home.deep_view(),
                process_userprofile: process_userprofile.deep_view(),
            },
            HostEvent::Manifest(text) => HostEventView::Manifest(text.deep_view()),
            HostEvent::Located(probe) => HostEventView::Located(probe@),
        }
    }
}

/// What the selector needs from the host next.
#[derive(Clone, Debug, PartialEq, Eq)]
pub enum HostRequest {
    /// The user's configuration and the two environments.
    Settings,
    /// The text of the project's manifest.
    Manifest,
    /// Where the tool of kind `kind` is: on the shell's search path, and
    /// whether its file is at `well_known`, where a home directory is known.
    Locate { kind: ToolKind, well_known: Option<String> },
    /// Nothing: the resolution has ended.
    Nothing,
}

/// The mathematical model of a `HostRequest`.
pub enum HostRequestView {
    Settings,
    Manifest,
    Locate { kind: ToolKind, well_known: Option<Seq<char>> },
    Nothing,
}

impl View for HostRequest {
    type V = HostRequestView;

    open spec fn view(&self) -> HostRequestView {
        match self {
            HostRequest::Settings => HostRequestView::Settings,
            HostRequest::Manifest => HostRequestView::Manifest,
            HostRequest::Locate { kind, well_known } => HostRequestView::Locate {
                kind: *kind,
                well_known: well_known.deep_view(),
            },
            HostRequest::Nothing => HostRequestView::Nothing,
        }
    }
}

} // verus!
