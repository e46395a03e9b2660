//! The binary selector: the state machine that turns what the host reports
//! into one launch specification, or into the one failure.

use crate::environment::{keys_unique, EnvView};
use crate::host::{
    override_launch, resolve_home, resolved_home, user_override, BinarySettings,
    BinarySettingsView, HostEvent, HostEventView, HostRequest, HostRequestView, HostSnapshot,
    HostSnapshotView,
};
use crate::launch::{launch_for, LaunchSpec, LaunchSpecView};
use crate::locator::{cache_after_search, install_path, located, well_known_path, ToolProbeView};
use crate::project::{classification, classify_project, ProjectClassification};
use crate::resolver::AztecExtension;
use crate::status::{not_found_message, InstallationStatus, InstallationStatusView, ToolNotFound};
use crate::tool::ToolKind;
use vstd::pervasive::unreached;
use vstd::prelude::*;
use vstd::string::*;

verus! {

/// The state of one resolution.
#[derive(Clone, Debug, PartialEq, Eq)]
pub enum Selector {
    /// Nothing is known yet; the user's configuration decides first.
    CheckingUserOverride,
    /// No override: the project is to be classified.
    ClassifyingProject { shell_env: Vec<(String, String)>, home: Option<String> },
    /// The tool that the classification prefers is searched.
    SearchingPrimaryTool {
        shell_env: Vec<(String, String)>,
        home: Option<String>,
        project: ProjectClassification,
    },
    /// The preferred tool was not found; the other one is searched.
    SearchingFallbackTool {
        shell_env: Vec<(String, String)>,
        home: Option<String>,
        project: ProjectClassification,
    },
    /// The resolution ended with a launch specification.
    Resolved(LaunchSpec),
    /// The resolution ended without a tool.
    Unresolved(ToolNotFound),
}

/// The mathematical model of a `Selector`.
pub enum SelectorView {
    CheckingUserOverride,
    ClassifyingProject { shell_env: EnvView, home: Option<Seq<char>> },
    SearchingPrimaryTool {
        shell_env: EnvView,
        home: Option<Seq<char>>,
        project: ProjectClassification,
    },
    SearchingFallbackTool {
        shell_env: EnvView,
        home: Option<Seq<char>>,
        project: ProjectClassification,
    },
    Resolved(LaunchSpecView),
    Unresolved(ToolNotFound),
}

impl View for Selector {
    type V = SelectorView;

    open spec fn view(&self) -> SelectorView {
        match self {
            Selector::CheckingUserOverride => SelectorView::CheckingUserOverride,
            Selector::ClassifyingProject { shell_env, home } => SelectorView::ClassifyingProject {
                shell_env: shell_env.deep_view(),
                home: home.deep_view(),
            },
            Selector::SearchingPrimaryTool {
                shell_env,
                home,
                project,
            } => SelectorView::SearchingPrimaryTool {
                shell_env: shell_env.deep_view(),
                home: home.deep_view(),
                project: *project,
            },
            Selector::SearchingFallbackTool {
                shell_env,
                home,
                project,
            } => SelectorView::SearchingFallbackTool {
                shell_env: shell_env.deep_view(),
                home: home.deep_view(),
                project: *project,
            },
            Selector::Resolved(spec) => SelectorView::Resolved(spec@),
            Selector::Unresolved(error) => SelectorView::Unresolved(*error),
        }
    }
}

/// The request for a search of the tool of kind `kind`.
pub open spec fn locate_request(kind: ToolKind, home: Option<Seq<char>>) -> HostRequestView {
    HostRequestView::Locate {
        kind,
        well_known: match home {
            Some(h) => Some(well_known_path(h, kind)),
            None => None,
        },
    }
}

/// What a selector in state `state` needs from the host.
pub open spec fn pending_request(state: SelectorView) -> HostRequestView {
    match state {
        SelectorView::CheckingUserOverride => HostRequestView::Settings,
        SelectorView::ClassifyingProject { .. } => HostRequestView::Manifest,
        SelectorView::SearchingPrimaryTool { home, project, .. } => locate_request(
            project.primary(),
            home,
        ),
        SelectorView::SearchingFallbackTool { home, project, .. } => locate_request(
            project.fallback(),
            home,
        ),
        SelectorView::Resolved(_) => HostRequestView::Nothing,
        SelectorView::Unresolved(_) => HostRequestView::Nothing,
    }
}

/// What one step yields: the next state, the status to report, if any, and
/// what the resolver remembers afterwards.
pub struct StepView {
    pub next: SelectorView,
    pub status: Option<InstallationStatusView>,
    pub cache: Option<Seq<char>>,
}

/// The step from a search for the tool of kind `kind` that found it at `path`.
pub open spec fn step_found(
    kind: ToolKind,
    path: Seq<char>,
    probe: ToolProbeView,
    shell_env: EnvView,
    home: Option<Seq<char>>,
    cache: Option<Seq<char>>,
) -> StepView {
    StepView {
        next: SelectorView::Resolved(launch_for(kind, path, shell_env, home)),
        status: Some(InstallationStatusView::Cleared),
        cache: cache_after_search(cache, kind, probe, home),
    }
}

/// The transition function of the selector. An override ends the resolution
/// at once. Without one the project is classified, the preferred tool is
/// searched, then the other one; the first tool found ends the resolution,
/// and with neither found it fails. An event that the state did not ask for
/// changes nothing.
pub open spec fn step_spec(
    state: SelectorView,
    event: HostEventView,
    cache: Option<Seq<char>>,
) -> StepView {
    match (state, event) {
        (
            SelectorView::CheckingUserOverride,
            HostEventView::Settings { binary, shell_env, process_home, process_userprofile },
        ) => match user_override(binary) {
            Some(chosen) => StepView {
                next: SelectorView::Resolved(override_launch(chosen, shell_env)),
                status: Some(InstallationStatusView::Cleared),
                cache,
            },
            None => StepView {
                next: SelectorView::ClassifyingProject {
                    shell_env,
                    home: resolved_home(shell_env, process_home, process_userprofile),
                },
                status: None,
                cache,
            },
        },
        (
            SelectorView::ClassifyingProject { shell_env, home },
            HostEventView::Manifest(text),
        ) => StepView {
            next: SelectorView::SearchingPrimaryTool {
                shell_env,
                home,
                project: classification(text),
            },
            status: Some(InstallationStatusView::Searching),
            cache,
        },
        (
            SelectorView::SearchingPrimaryTool { shell_env, home, project },
            HostEventView::Located(probe),
        ) => match located(project.primary(), probe, home) {
            Some(path) => step_found(project.primary(), path, probe, shell_env, home, cache),
            None => StepView {
                next: SelectorView::SearchingFallbackTool { shell_env, home, project },
                status: Some(InstallationStatusView::Searching),
                cache,
            },
        },
        (
            SelectorView::SearchingFallbackTool { shell_env, home, project },
            HostEventView::Located(probe),
        ) => match located(project.fallback(), probe, home) {
            Some(path) => step_found(project.fallback(), path, probe, shell_env, home, cache),
            None => StepView {
                next: SelectorView::Unresolved(ToolNotFound { primary: project.primary() }),
                status: Some(
                    InstallationStatusView::Failed(not_found_message(project.primary())),
                ),
                cache,
            },
        },
        _ => StepView { next: state, status: None, cache },
    }
}

/// The launch specification of the tool of kind `kind` at `path`.
pub fn build_launch(
    kind: ToolKind,
    path: String,
    shell_env: Vec<(String, String)>,
    home: Option<&String>,
) -> (spec: LaunchSpec)
    ensures
        spec@ == launch_for(kind, path@, shell_env.deep_view(), home.deep_view()),
        keys_unique(shell_env.deep_view()) ==> spec@.well_formed(),
{
    match kind {
        ToolKind::FrameworkCli => AztecExtension::aztec_binary(path, shell_env, home),
        ToolKind::DirectCompiler => AztecExtension::nargo_binary(path, shell_env),
    }
}

/// The launch specification that an override with these parts asks for.
pub fn build_override(
    path: String,
    arguments: Option<Vec<String>>,
    env: Option<Vec<(String, String)>>,
    shell_env: Vec<(String, String)>,
) -> (spec: LaunchSpec)
    ensures
        spec@ == override_launch(
            BinarySettingsView {
                path: Some(path@),
                arguments: arguments.deep_view(),
                env: env.deep_view(),
            },
            shell_env.deep_view(),
        ),
        keys_unique(shell_env.deep_view()) && (env is Some ==> keys_unique(env.deep_view()->0))
            ==> spec@.well_formed(),
{
    let arguments = match arguments {
        Some(arguments) => arguments,
        None => {
            let mut arguments: Vec<String> = Vec::new();
            arguments.push("lsp".to_owned());
            assert(arguments.deep_view() =~= seq!["lsp"@]);
            arguments
        },
    };
    let environment = match env {
        Some(env) => env,
        None => shell_env,
    };
    LaunchSpec { executable_path: path, arguments, environment }
}

impl Selector {
    /// The state in which every resolution begins.
    pub fn start() -> (state: Selector)
        ensures
            state@ == SelectorView::CheckingUserOverride,
    {
        Selector::CheckingUserOverride
    }

    /// Whether the resolution has ended.
    pub fn is_finished(&self) -> (finished: bool)
        ensures
            finished == (self@ is Resolved || self@ is Unresolved),
            finished == (pending_request(self@) is Nothing),
    {
        match self {
            Selector::Resolved(_) => true,
            Selector::Unresolved(_) => true,
            _ => false,
        }
    }

    /// What the host has to report next.
    pub fn pending(&self) -> (request: HostRequest)
        ensures
            request@ == pending_request(self@),
    {
        match self {
            Selector::CheckingUserOverride => HostRequest::Settings,
            Selector::ClassifyingProject { .. } => HostRequest::Manifest,
            Selector::SearchingPrimaryTool { home, project, .. } => search_request(
                project.primary_tool(),
                home,
            ),
            Selector::SearchingFallbackTool { home, project, .. } => search_request(
                project.fallback_tool(),
                home,
            ),
            Selector::Resolved(_) => HostRequest::Nothing,
            Selector::Unresolved(_) => HostRequest::Nothing,
        }
    }

    /// The result of a resolution that has ended, `None` while it runs.
    pub fn outcome(self) -> (result: Option<Result<LaunchSpec, ToolNotFound>>)
        ensures
            match self {
                Selector::Resolved(spec) => result == Some(
                    Ok::<LaunchSpec, ToolNotFound>(spec),
                ),
                Selector::Unresolved(error) => result == Some(
                    Err::<LaunchSpec, ToolNotFound>(error),
                ),
                _ => result is None,
            },
    {
        match self {
            Selector::Resolved(spec) => Some(Ok(spec)),
            Selector::Unresolved(error) => Some(Err(error)),
            _ => None,
        }
    }
}

/// The request for a search of the tool of kind `kind`.
fn search_request(kind: ToolKind, home: &Option<String>) -> (request: HostRequest)
    ensures
        request@ == locate_request(kind, home.deep_view()),
{
    let well_known = match home {
        Some(h) => Some(install_path(h, kind)),
        None => None,
    };
    HostRequest::Locate { kind, well_known }
}

impl AztecExtension {
    /// Takes one step of a resolution: from the state `state` and what the
    /// host reports in `event` to the next state and the status to report.
    pub fn step(
        &mut self,
        state: Selector,
        event: HostEvent,
    ) -> (out: (Selector, Option<InstallationStatus>))
        ensures
            out.0@ == step_spec(state@, event@, old(self).cache()).next,
            out.1.deep_view() == step_spec(state@, event@, old(self).cache()).status,
            final(self).cache() == step_spec(state@, event@, old(self).cache()).cache,
    {
        match (state, event) {
            (
                Selector::CheckingUserOverride,
                HostEvent::Settings { binary, shell_env, process_home, process_userprofile },
            ) => {
                match binary {
                    Some(BinarySettings { path: Some(path), arguments, env }) => {
                        let spec = build_override(path, arguments, env, shell_env);
                        (Selector::Resolved(spec), Some(InstallationStatus::Cleared))
                    },
                    _ => {
                        let home = resolve_home(
                            shell_env.as_slice(),
                            process_home,
                            process_userprofile,
                        );
                        (Selector::ClassifyingProject { shell_env, home }, None)
                    },
                }
            },
            (Selector::ClassifyingProject { shell_env, home }, HostEvent::Manifest(text)) => {
                let project = match &text {
                    Some(t) => classify_project(Some(t.as_str())),
                    None => classify_project(None),
                };
                (
                    Selector::SearchingPrimaryTool { shell_env, home, project },
                    Some(InstallationStatus::Searching),
                )
            },
            (
                Selector::SearchingPrimaryTool { shell_env, home, project },
                HostEvent::Located(probe),
            ) => {
                let kind = project.primary_tool();
                match self.locate(kind, probe, home.as_ref()) {
                    Some(path) => {
                        let spec = build_launch(kind, path, shell_env, home.as_ref());
                        (Selector::Resolved(spec), Some(InstallationStatus::Cleared))
                    },
                    None => (
                        Selector::SearchingFallbackTool { shell_env, home, project },
                        Some(InstallationStatus::Searching),
                    ),
                }
            },
            (
                Selector::SearchingFallbackTool { shell_env, home, project },
                HostEvent::Located(probe),
            ) => {
                let kind = project.fallback_tool();
                match self.locate(kind, probe, home.as_ref()) {
                    Some(path) => {
                        let spec = build_launch(kind, path, shell_env, home.as_ref());
                        (Selector::Resolved(spec), Some(InstallationStatus::Cleared))
                    },
                    None => {
                        let error = ToolNotFound { primary: project.primary_tool() };
                        (
                            Selector::Unresolved(error),
                            Some(InstallationStatus::Failed(error.message())),
                        )
                    },
                }
            },
            (state, _) => (state, None),
        }
    }
}

/// The result of a whole resolution against what the host reports in
/// `host`. An override wins over everything else. Without one, the tool that
/// the project's classification prefers is taken if it is found, else the
/// other tool if that is found, each with the launch specification of its
/// kind; with neither found the resolution fails and names the preferred
/// tool.
pub open spec fn resolution(host: HostSnapshotView) -> Result<LaunchSpecView, ToolNotFound> {
    let primary = host.project().primary();
    let fallback = host.project().fallback();
    match user_override(host.binary) {
        Some(chosen) => Ok(override_launch(chosen, host.shell_env)),
        None => match host.located(primary) {
            Some(path) => Ok(launch_for(primary, path, host.shell_env, host.home())),
            None => match host.located(fallback) {
                Some(path) => Ok(launch_for(fallback, path, host.shell_env, host.home())),
                None => Err(ToolNotFound { primary }),
            },
        },
    }
}

/// The status reports of a whole resolution, in order: one for each search
/// that begins, then one for the way the resolution ends.
pub open spec fn status_trace(host: HostSnapshotView) -> Seq<InstallationStatusView> {
    let primary = host.project().primary();
    let fallback = host.project().fallback();
    if user_override(host.binary) is Some {
        seq![InstallationStatusView::Cleared]
    } else if host.located(primary) is Some {
        seq![InstallationStatusView::Searching, InstallationStatusView::Cleared]
    } else if host.located(fallback) is Some {
        seq![
            InstallationStatusView::Searching,
            InstallationStatusView::Searching,
            InstallationStatusView::Cleared,
        ]
    } else {
        seq![
            InstallationStatusView::Searching,
            InstallationStatusView::Searching,
            InstallationStatusView::Failed(not_found_message(primary)),
        ]
    }
}

/// What the resolver remembers after a whole resolution: the path of the
/// tool that was taken, where it was taken from the well-known installation
/// directory, else what it remembered before.
pub open spec fn cache_after_resolution(
    cache: Option<Seq<char>>,
    host: HostSnapshotView,
) -> Option<Seq<char>> {
    let primary = host.project().primary();
    let fallback = host.project().fallback();
    if user_override(host.binary) is Some {
        cache
    } else if host.located(primary) is Some {
        cache_after_search(cache, primary, host.probe(primary), host.home())
    } else {
        cache_after_search(cache, fallback, host.probe(fallback), host.home())
    }
}

/// What a whole resolution hands back.
#[derive(Debug, PartialEq, Eq)]
pub struct Resolution {
    /// The launch specification, or the failure.
    pub outcome: Result<LaunchSpec, ToolNotFound>,
    /// The status reports for the host, in the order in which they are due.
    pub statuses: Vec<InstallationStatus>,
}

/// The mathematical model of a `Resolution`.
pub struct ResolutionView {
    pub outcome: Result<LaunchSpecView, ToolNotFound>,
    pub statuses: Seq<InstallationStatusView>,
}

impl View for Resolution {
    type V = ResolutionView;

    open spec fn view(&self) -> ResolutionView {
        ResolutionView {
            outcome: match self.outcome {
                Ok(spec) => Ok(spec@),
                Err(error) => Err(error),
            },
            statuses: self.statuses.deep_view(),
        }
    }
}

impl AztecExtension {
    /// Takes one step and notes the status that is due, if any.
    fn advance(
        &mut self,
        state: Selector,
        event: HostEvent,
        statuses: &mut Vec<InstallationStatus>,
    ) -> (next: Selector)
        ensures
            next@ == step_spec(state@, event@, old(self).cache()).next,
            final(self).cache() == step_spec(state@, event@, old(self).cache()).cache,
            final(statuses).deep_view() == match step_spec(
                state@,
                event@,
                old(self).cache(),
            ).status {
                Some(status) => old(statuses).deep_view().push(status),
                None => old(statuses).deep_view(),
            },
    {
        let (next, status) = self.step(state, event);
        if let Some(status) = status {
            statuses.push(status);
            assert(statuses.deep_view() =~= old(statuses).deep_view().push(status@));
        }
        next
    }

    /// Resolves the language server's binary from everything that the host
    /// reports: runs the selector from its first state to its end, answering
    /// each of its requests from `host`.
    pub fn language_server_binary(&mut self, host: HostSnapshot) -> (resolved: Resolution)
        ensures
            resolved@ == (ResolutionView {
                outcome: resolution(host@),
                statuses: status_trace(host@),
            }),
            final(self).cache() == cache_after_resolution(old(self).cache(), host@),
    {
        let HostSnapshot {
            shell_env,
            process_home,
            process_userprofile,
            binary,
            manifest,
            aztec,
            nargo,
        } = host;
        let mut statuses: Vec<InstallationStatus> = Vec::new();
        let settings = HostEvent::Settings { binary, shell_env, process_home, process_userprofile };
        let state = self.advance(Selector::start(), settings, &mut statuses);
        let state = if state.is_finished() {
            state
        } else {
            self.advance(state, HostEvent::Manifest(manifest), &mut statuses)
        };
        let state = match state.pending() {
            HostRequest::Locate { kind, .. } => {
                let (first, second) = match kind {
                    ToolKind::FrameworkCli => (aztec, nargo),
                    ToolKind::DirectCompiler => (nargo, aztec),
                };
                let state = self.advance(state, HostEvent::Located(first), &mut statuses);
                if state.is_finished() {
                    state
                } else {
                    self.advance(state, HostEvent::Located(second), &mut statuses)
                }
            },
            _ => state,
        };
        let outcome = match state {
            Selector::Resolved(spec) => Ok(spec),
            Selector::Unresolved(error) => Err(error),
            _ => unreached(),
        };
        let resolved = Resolution { outcome, statuses };
        assert(resolved@.statuses =~= status_trace(host@));
        resolved
    }
}

} // verus!
