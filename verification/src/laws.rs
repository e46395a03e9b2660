//! What holds of every resolution.

use crate::environment::keys_unique;
use crate::host::{user_override, HostEventView, HostRequestView, HostSnapshotView};
use crate::launch::{
    direct_launch, framework_launch, is_direct_form, is_shell_form, launch_for,
    lemma_framework_environment, lemma_launch_forms, LaunchSpecView,
};
use crate::locator::Existence;
use crate::project::ProjectClassification;
use crate::selector::{
    cache_after_resolution, pending_request, resolution, status_trace, step_spec, SelectorView,
};
use crate::status::{
    install_command, lemma_message_names_install_command, not_found_message,
    InstallationStatusView, ToolNotFound,
};
use crate::substring::is_substring;
use crate::tool::ToolKind;
use vstd::prelude::*;

verus! {

/// In a framework project, without an override, a framework tool that is
/// found is the one that is launched, in the shell form with the container
/// cleanup and never in the direct form, whether or not the direct compiler
/// is found as well.
pub proof fn lemma_framework_project_launches_framework_tool(host: HostSnapshotView)
    requires
        user_override(host.binary) is None,
        host.project() == ProjectClassification::FrameworkProject,
        host.located(ToolKind::FrameworkCli) is Some,
    ensures
        resolution(host) == Ok::<LaunchSpecView, ToolNotFound>(
            framework_launch(
                host.located(ToolKind::FrameworkCli)->0,
                host.shell_env,
                host.home(),
            ),
        ),
        is_shell_form(resolution(host)->Ok_0),
        !is_direct_form(resolution(host)->Ok_0),
{
    lemma_launch_forms(
        ToolKind::FrameworkCli,
        host.located(ToolKind::FrameworkCli)->0,
        host.shell_env,
        host.home(),
    );
}

/// In a plain project, without an override, a direct compiler that is found
/// is the one that is launched, in the direct form and with the shell's
/// environment as it is, whether or not the framework tool is found as well.
pub proof fn lemma_plain_project_launches_direct_compiler(host: HostSnapshotView)
    requires
        user_override(host.binary) is None,
        host.project() == ProjectClassification::PlainProject,
        host.located(ToolKind::DirectCompiler) is Some,
    ensures
        resolution(host) == Ok::<LaunchSpecView, ToolNotFound>(
            direct_launch(host.located(ToolKind::DirectCompiler)->0, host.shell_env),
        ),
        is_direct_form(resolution(host)->Ok_0),
        !is_shell_form(resolution(host)->Ok_0),
{
    lemma_launch_forms(
        ToolKind::DirectCompiler,
        host.located(ToolKind::DirectCompiler)->0,
        host.shell_env,
        host.home(),
    );
}

/// An override wins over everything else: whatever the project is and
/// whichever tools are found, the resolution succeeds, launches the
/// configured path as it stands, reports only that there is nothing to
/// report, and leaves what the resolver remembers alone.
pub proof fn lemma_override_wins(host: HostSnapshotView, cache: Option<Seq<char>>)
    requires
        host.binary is Some,
        host.binary->0.path is Some,
    ensures
        resolution(host) is Ok,
        resolution(host)->Ok_0.executable_path == host.binary->0.path->0,
        status_trace(host) == seq![InstallationStatusView::Cleared],
        cache_after_resolution(cache, host) == cache,
{
}

/// A tool that is not on the search path cannot be found without a home
/// directory.
pub proof fn lemma_not_locatable_without_home(host: HostSnapshotView, kind: ToolKind)
    requires
        host.probe(kind).on_path is None,
        host.home() is None,
    ensures
        host.located(kind) is None,
{
}

/// Where neither tool is found and there is no override, the resolution
/// fails and names the tool that the classification prefers; the message of
/// that failure names the command that installs this tool; the last status
/// report carries the same message; and the resolver remembers what it did
/// before.
pub proof fn lemma_neither_tool_found(host: HostSnapshotView, cache: Option<Seq<char>>)
    requires
        user_override(host.binary) is None,
        host.located(ToolKind::FrameworkCli) is None,
        host.located(ToolKind::DirectCompiler) is None,
    ensures
        resolution(host) == Err::<LaunchSpecView, ToolNotFound>(
            ToolNotFound { primary: host.project().primary() },
        ),
        is_substring(
            install_command(host.project().primary()),
            not_found_message(host.project().primary()),
        ),
        status_trace(host).last() == InstallationStatusView::Failed(
            not_found_message(host.project().primary()),
        ),
        cache_after_resolution(cache, host) == cache,
{
    lemma_message_names_install_command(host.project().primary());
}

/// Where the search path has neither tool, no home directory is known and
/// there is no override, the resolution fails, names the tool that the
/// classification prefers, and its message names the command that installs
/// that tool.
pub proof fn lemma_no_tool_without_search_path_and_home(host: HostSnapshotView)
    requires
        user_override(host.binary) is None,
        host.aztec.on_path is None,
        host.nargo.on_path is None,
        host.home() is None,
    ensures
        resolution(host) == Err::<LaunchSpecView, ToolNotFound>(
            ToolNotFound { primary: host.project().primary() },
        ),
        is_substring(
            install_command(host.project().primary()),
            not_found_message(host.project().primary()),
        ),
{
    lemma_not_locatable_without_home(host, ToolKind::FrameworkCli);
    lemma_not_locatable_without_home(host, ToolKind::DirectCompiler);
    lemma_neither_tool_found(host, None);
}

/// A resolution fails only where neither tool is found and there is no
/// override.
pub proof fn lemma_failure_only_without_tools(host: HostSnapshotView)
    ensures
        resolution(host) is Err <==> {
            &&& user_override(host.binary) is None
            &&& host.located(ToolKind::FrameworkCli) is None
            &&& host.located(ToolKind::DirectCompiler) is None
        },
{
}

/// Where no name occurs twice in the shell's environment, nor in the
/// environment of the user's binary settings, the launch specification is
/// well formed: none occurs twice in its environment.
pub proof fn lemma_resolution_keeps_names_unique(host: HostSnapshotView)
    requires
        keys_unique(host.shell_env),
        host.binary is Some && host.binary->0.env is Some ==> keys_unique(host.binary->0.env->0),
        resolution(host) is Ok,
    ensures
        resolution(host)->Ok_0.well_formed(),
{
    let home = host.home();
    if user_override(host.binary) is None {
        let primary = host.project().primary();
        let fallback = host.project().fallback();
        if host.located(primary) is Some {
            lemma_framework_environment(host.located(primary)->0, host.shell_env, home);
        } else {
            lemma_framework_environment(host.located(fallback)->0, host.shell_env, home);
        }
    }
}

/// The result of a resolution depends on what the host reports alone, not on
/// what the resolver remembers; and a second resolution against the same
/// report leaves what the resolver remembers as the first one left it.
pub proof fn lemma_resolution_repeatable(host: HostSnapshotView, cache: Option<Seq<char>>)
    ensures
        cache_after_resolution(cache_after_resolution(cache, host), host)
            == cache_after_resolution(cache, host),
{
}

/// A path that the resolver remembers after a resolution, and did not
/// remember before, is the path of the tool that was launched, and was taken
/// from the well-known installation directory, not from the search path.
pub proof fn lemma_cache_holds_install_dir_path(host: HostSnapshotView, cache: Option<Seq<char>>)
    requires
        cache_after_resolution(cache, host) != cache,
    ensures
        host.home() is Some,
        exists|kind: ToolKind|
            {
                &&& host.probe(kind).on_path is None
                &&& host.probe(kind).installed != Existence::Absent
                &&& host.located(kind) is Some
                &&& cache_after_resolution(cache, host) == host.located(kind)
                &&& resolution(host) == Ok::<LaunchSpecView, ToolNotFound>(
                    launch_for(kind, host.located(kind)->0, host.shell_env, host.home()),
                )
            },
{
    let primary = host.project().primary();
    let fallback = host.project().fallback();
    let kind = if host.located(primary) is Some {
        primary
    } else {
        fallback
    };
    assert(host.probe(kind).on_path is None);
    assert(cache_after_resolution(cache, host) == host.located(kind));
    assert(resolution(host) == Ok::<LaunchSpecView, ToolNotFound>(
        launch_for(kind, host.located(kind)->0, host.shell_env, host.home()),
    ));
}

/// What the host answers to `request` when it reports what `host` holds;
/// `None` where nothing is asked.
pub open spec fn answer(host: HostSnapshotView, request: HostRequestView) -> Option<HostEventView> {
    match request {
        HostRequestView::Settings => Some(
            HostEventView::Settings {
                binary: host.binary,
                shell_env: host.shell_env,
                process_home: host.process_home,
                process_userprofile: host.process_userprofile,
            },
        ),
        HostRequestView::Manifest => Some(HostEventView::Manifest(host.manifest)),
        HostRequestView::Locate { kind, .. } => Some(HostEventView::Located(host.probe(kind))),
        HostRequestView::Nothing => None,
    }
}

/// Where a selector stands after some steps: its state, what the resolver
/// remembers, and the status reports so far.
pub struct RunView {
    pub state: SelectorView,
    pub cache: Option<Seq<char>>,
    pub statuses: Seq<InstallationStatusView>,
}

/// Where the selector stands after at most `steps` more steps from `from`,
/// each request answered from `host`. It stops when nothing is asked.
pub open spec fn run(host: HostSnapshotView, from: RunView, steps: nat) -> RunView
    decreases steps,
{
    if steps == 0 {
        from
    } else {
        match answer(host, pending_request(from.state)) {
            Some(event) => {
                let step = step_spec(from.state, event, from.cache);
                let statuses = match step.status {
                    Some(status) => from.statuses.push(status),
                    None => from.statuses,
                };
                run(
                    host,
                    RunView { state: step.next, cache: step.cache, statuses },
                    (steps - 1) as nat,
                )
            },
            None => from,
        }
    }
}

/// Where every resolution begins.
pub open spec fn start(cache: Option<Seq<char>>) -> RunView {
    RunView { state: SelectorView::CheckingUserOverride, cache, statuses: Seq::empty() }
}

/// The selector, with each of its requests answered from `host`, ends within
/// four steps. It ends with the resolution of `host`, has then made the
/// status reports of that resolution in their order, and the resolver
/// remembers what it remembers after that resolution.
pub proof fn lemma_run_ends_in_resolution(host: HostSnapshotView, cache: Option<Seq<char>>)
    ensures
        match resolution(host) {
            Ok(spec) => run(host, start(cache), 4).state == SelectorView::Resolved(spec),
            Err(error) => run(host, start(cache), 4).state == SelectorView::Unresolved(error),
        },
        run(host, start(cache), 4).statuses == status_trace(host),
        run(host, start(cache), 4).cache == cache_after_resolution(cache, host),
{
    reveal_with_fuel(run, 5);
    assert(run(host, start(cache), 4).statuses =~= status_trace(host));
}

} // verus!
