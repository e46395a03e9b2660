//! Launch specifications: the command line and environment for each kind of
//! tool.

use crate::environment::{
    env_lookup, has_var, home_var, keys_unique, last_index_of, last_position, lemma_last_index_is,
    lemma_last_index_of, lemma_same_names_same_index, path_var, EnvView,
};
use crate::resolver::AztecExtension;
use crate::search_path::{
    lemma_appended_reaches_system_dirs, lemma_system_dirs_reach_themselves, reaches_system_dirs,
    search_path_reaches_system_dirs, system_dirs,
};
use crate::tool::ToolKind;
use vstd::prelude::*;
use vstd::string::*;

verus! {

/// What to start, with which arguments, in which environment.
#[derive(Clone, Debug, PartialEq, Eq)]
pub struct LaunchSpec {
    pub executable_path: String,
    pub arguments: Vec<String>,
    pub environment: Vec<(String, String)>,
}

/// The mathematical model of a `LaunchSpec`.
pub struct LaunchSpecView {
    pub executable_path: Seq<char>,
    pub arguments: Seq<Seq<char>>,
    pub environment: EnvView,
}

impl View for LaunchSpec {
    type V = LaunchSpecView;

    open spec fn view(&self) -> LaunchSpecView {
        LaunchSpecView {
            executable_path: self.executable_path@,
            arguments: self.arguments.deep_view(),
            environment: self.environment.deep_view(),
        }
    }
}

impl LaunchSpecView {
    /// The environment is a mapping: no variable is named twice in it.
    pub open spec fn well_formed(self) -> bool {
        keys_unique(self.environment)
    }
}

/// `env` with the standard system directories on its search path. The
/// `PATH` entry that counts is left as it is exactly where each of the three
/// directories is one of its `:`-separated components; else a `:` and the
/// three directories are appended to its value. Where `env` has no `PATH`,
/// the three directories become its `PATH`, as a new last entry.
pub open spec fn path_ensured(env: EnvView) -> EnvView {
    match last_index_of(env, path_var()) {
        Some(i) => if reaches_system_dirs(env[i].1) {
            env
        } else {
            env.update(i, (env[i].0, env[i].1 + ":"@ + system_dirs()))
        },
        None => env.push((path_var(), system_dirs())),
    }
}

/// `env` with a `HOME`: unchanged where it has one or where no home directory
/// is known, else with `home` as a new last entry.
pub open spec fn home_ensured(env: EnvView, home: Option<Seq<char>>) -> EnvView {
    match home {
        Some(h) if !has_var(env, home_var()) => env.push((home_var(), h)),
        _ => env,
    }
}

/// The shell command that removes a stale container and then replaces the
/// shell by the framework tool at `path`.
pub open spec fn cleanup_then_exec(path: Seq<char>) -> Seq<char> {
    "docker rm -f aztec-nargo-lsp 2>/dev/null; exec '"@ + path + "' lsp"@
}

/// The launch specification of the framework tool at `path`.
pub open spec fn framework_launch(
    path: Seq<char>,
    env: EnvView,
    home: Option<Seq<char>>,
) -> LaunchSpecView {
    LaunchSpecView {
        executable_path: "/bin/sh"@,
        arguments: seq!["-c"@, cleanup_then_exec(path)],
        environment: home_ensured(path_ensured(env), home),
    }
}

/// The launch specification of the direct compiler at `path`.
pub open spec fn direct_launch(path: Seq<char>, env: EnvView) -> LaunchSpecView {
    LaunchSpecView { executable_path: path, arguments: seq!["lsp"@], environment: env }
}

/// The launch specification of the tool of kind `kind` at `path`.
pub open spec fn launch_for(
    kind: ToolKind,
    path: Seq<char>,
    env: EnvView,
    home: Option<Seq<char>>,
) -> LaunchSpecView {
    match kind {
        ToolKind::FrameworkCli => framework_launch(path, env, home),
        ToolKind::DirectCompiler => direct_launch(path, env),
    }
}

/// The form that only the framework tool's launch has: a shell that is
/// handed one command.
pub open spec fn is_shell_form(spec: LaunchSpecView) -> bool {
    &&& spec.executable_path == "/bin/sh"@
    &&& spec.arguments.len() == 2
    &&& spec.arguments[0] == "-c"@
}

/// The form that only the direct compiler's launch has: the tool itself,
/// with the single argument `lsp`.
pub open spec fn is_direct_form(spec: LaunchSpecView) -> bool {
    spec.arguments == seq!["lsp"@]
}

/// The two forms exclude each other, and each kind of tool has its own.
pub proof fn lemma_launch_forms(
    kind: ToolKind,
    path: Seq<char>,
    env: EnvView,
    home: Option<Seq<char>>,
)
    ensures
        is_shell_form(launch_for(kind, path, env, home)) <==> kind == ToolKind::FrameworkCli,
        is_direct_form(launch_for(kind, path, env, home)) <==> kind == ToolKind::DirectCompiler,
{
    assert(framework_launch(path, env, home).arguments.len() == 2);
    assert(direct_launch(path, env).arguments.len() == 1);
}

/// After the augmentation the search path is set and reaches the standard
/// system directories: each of the three is one of its components. Every
/// other variable keeps its value, and names that were unique stay unique.
pub proof fn lemma_path_ensured_reaches_system_dirs(env: EnvView)
    ensures
        env_lookup(path_ensured(env), path_var()) is Some,
        reaches_system_dirs(env_lookup(path_ensured(env), path_var())->0),
        forall|name: Seq<char>|
            name != path_var() ==> env_lookup(path_ensured(env), name) == env_lookup(env, name),
        keys_unique(env) ==> keys_unique(path_ensured(env)),
{
    let out = path_ensured(env);
    lemma_system_dirs_reach_themselves();
    lemma_last_index_of(env, path_var());
    match last_index_of(env, path_var()) {
        Some(i) => {
            if !reaches_system_dirs(env[i].1) {
                lemma_appended_reaches_system_dirs(env[i].1);
                assert forall|j: int| 0 <= j < out.len() implies (#[trigger] out[j]).0
                    == env[j].0 by {}
            }
            lemma_last_index_is(out, path_var(), i);
        },
        None => {
            assert(out.drop_last() =~= env);
        },
    }
    assert forall|name: Seq<char>| name != path_var() implies env_lookup(out, name)
        == env_lookup(env, name) by {
        lemma_same_names_same_index(env, out, name);
    }
    if keys_unique(env) {
        assert forall|i: int, j: int| 0 <= i < j < out.len() implies (#[trigger] out[i]).0
            != (#[trigger] out[j]).0 by {
            if j < env.len() {
                assert(out[i].0 == env[i].0 && out[j].0 == env[j].0);
            } else {
                assert(env[i].0 != path_var());
            }
        }
    }
}

/// The augmentation of the search path is idempotent: a second application
/// changes nothing, so the standard system directories are never appended
/// twice.
pub proof fn lemma_path_ensured_idempotent(env: EnvView)
    ensures
        path_ensured(path_ensured(env)) == path_ensured(env),
{
    let once = path_ensured(env);
    lemma_path_ensured_reaches_system_dirs(env);
    lemma_last_index_of(once, path_var());
}

/// After `HOME` is ensured it is set wherever it was set or a home directory
/// is known, and to that directory where it was not set; every other
/// variable keeps its value; names that were unique stay unique; and a
/// second application changes nothing.
pub proof fn lemma_home_ensured(env: EnvView, home: Option<Seq<char>>)
    ensures
        has_var(env, home_var()) || home is Some ==> env_lookup(
            home_ensured(env, home),
            home_var(),
        ) is Some,
        has_var(env, home_var()) ==> home_ensured(env, home) == env,
        !has_var(env, home_var()) ==> env_lookup(home_ensured(env, home), home_var()) == home,
        forall|name: Seq<char>|
            name != home_var() ==> env_lookup(home_ensured(env, home), name) == env_lookup(
                env,
                name,
            ),
        keys_unique(env) ==> keys_unique(home_ensured(env, home)),
        home_ensured(home_ensured(env, home), home) == home_ensured(env, home),
{
    let out = home_ensured(env, home);
    lemma_last_index_of(env, home_var());
    lemma_last_index_of(out, home_var());
    if home is Some && !has_var(env, home_var()) {
        assert(out.drop_last() =~= env);
        assert(out[out.len() - 1].0 == home_var());
    }
    assert forall|name: Seq<char>| name != home_var() implies env_lookup(out, name) == env_lookup(
        env,
        name,
    ) by {
        lemma_same_names_same_index(env, out, name);
    }
}

/// The environment of the framework tool's launch: each of the three
/// standard system directories is a component of its search path; `HOME` is
/// set wherever the shell sets it or a home directory is known; every
/// variable other than these two has the value that the shell gave it; and
/// names that were unique stay unique.
pub proof fn lemma_framework_environment(path: Seq<char>, env: EnvView, home: Option<Seq<char>>)
    ensures
        ({
            let out = framework_launch(path, env, home).environment;
            &&& env_lookup(out, path_var()) is Some
            &&& reaches_system_dirs(env_lookup(out, path_var())->0)
            &&& has_var(env, home_var()) || home is Some ==> env_lookup(out, home_var()) is Some
            &&& forall|name: Seq<char>|
                name != path_var() && name != home_var() ==> env_lookup(out, name) == env_lookup(
                    env,
                    name,
                )
            &&& keys_unique(env) ==> keys_unique(out)
        }),
{
    reveal_strlit("PATH");
    reveal_strlit("HOME");
    assert(path_var() != home_var()) by {
        assert(path_var()[0] != home_var()[0]);
    }
    let mid = path_ensured(env);
    let out = home_ensured(mid, home);
    lemma_path_ensured_reaches_system_dirs(env);
    lemma_home_ensured(mid, home);
    lemma_last_index_of(env, home_var());
    lemma_last_index_of(mid, home_var());
    assert(env_lookup(mid, home_var()) == env_lookup(env, home_var()));
    assert(env_lookup(out, path_var()) == env_lookup(mid, path_var()));
    assert forall|name: Seq<char>| name != path_var() && name != home_var() implies env_lookup(
        out,
        name,
    ) == env_lookup(env, name) by {
        assert(env_lookup(out, name) == env_lookup(mid, name));
        assert(env_lookup(mid, name) == env_lookup(env, name));
    }
}

impl AztecExtension {
    /// Makes sure that the search path in `env` reaches the standard system
    /// directories, where the container runtime is installed.
    pub fn ensure_path(env: Vec<(String, String)>) -> (out: Vec<(String, String)>)
        ensures
            out.deep_view() == path_ensured(env.deep_view()),
    {
        let mut env = env;
        let ghost before = env.deep_view();
        match last_position(env.as_slice(), "PATH") {
            Some(idx) => {
                if !search_path_reaches_system_dirs(env[idx].1.as_str()) {
                    let name = env[idx].0.clone();
                    let mut value = env[idx].1.clone();
                    value.append(":");
                    value.append("/usr/local/bin:/usr/bin:/bin");
                    env.set(idx, (name, value));
                    assert(env.deep_view() =~= path_ensured(before));
                }
            },
            None => {
                env.push(("PATH".to_owned(), "/usr/local/bin:/usr/bin:/bin".to_owned()));
                assert(env.deep_view() =~= path_ensured(before));
            },
        }
        env
    }

    /// Makes sure that `env` names a home directory, which the container
    /// runtime needs, as far as one is known.
    pub fn ensure_home(
        env: Vec<(String, String)>,
        home: Option<&String>,
    ) -> (out: Vec<(String, String)>)
        ensures
            out.deep_view() == home_ensured(env.deep_view(), home.deep_view()),
    {
        let mut env = env;
        let ghost before = env.deep_view();
        proof {
            lemma_last_index_of(before, home_var());
        }
        if last_position(env.as_slice(), "HOME").is_some() {
            return env;
        }
        if let Some(home) = home {
            env.push(("HOME".to_owned(), home.clone()));
            assert(env.deep_view() =~= before.push((home_var(), home@)));
        }
        env
    }

    /// The launch specification of the framework tool at `path`: a shell that
    /// first removes the stale container and then becomes the tool.
    pub fn aztec_binary(
        path: String,
        env: Vec<(String, String)>,
        home: Option<&String>,
    ) -> (spec: LaunchSpec)
        ensures
            spec@ == framework_launch(path@, env.deep_view(), home.deep_view()),
            keys_unique(env.deep_view()) ==> spec@.well_formed(),
    {
        proof {
            lemma_framework_environment(path@, env.deep_view(), home.deep_view());
        }
        let env = Self::ensure_path(env);
        let env = Self::ensure_home(env, home);
        let mut script = "docker rm -f aztec-nargo-lsp 2>/dev/null; exec '".to_owned();
        script.append(path.as_str());
        script.append("' lsp");
        let mut arguments: Vec<String> = Vec::new();
        arguments.push("-c".to_owned());
        arguments.push(script);
        let spec = LaunchSpec {
            executable_path: "/bin/sh".to_owned(),
            arguments,
            environment: env,
        };
        assert(spec@.arguments =~= seq!["-c"@, cleanup_then_exec(path@)]);
        spec
    }

    /// The launch specification of the direct compiler at `path`.
    pub fn nargo_binary(path: String, env: Vec<(String, String)>) -> (spec: LaunchSpec)
        ensures
            spec@ == direct_launch(path@, env.deep_view()),
            keys_unique(env.deep_view()) ==> spec@.well_formed(),
    {
        let mut arguments: Vec<String> = Vec::new();
        arguments.push("lsp".to_owned());
        let spec = LaunchSpec { executable_path: path, arguments, environment: env };
        assert(spec@.arguments =~= seq!["lsp"@]);
        spec
    }
}

} // verus!
