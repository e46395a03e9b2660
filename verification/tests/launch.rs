use zed_aztec::launch::LaunchSpec;
use zed_aztec::tool::ToolKind;
use zed_aztec::resolver::AztecExtension;
use zed_aztec::selector::{build_launch, build_override};

fn pair(name: &str, value: &str) -> (String, String) {
    (name.to_string(), value.to_string())
}

const SYSTEM_DIRS: &str = "/usr/local/bin:/usr/bin:/bin";

#[test]
fn ensure_path_appends_system_dirs_to_minimal_path() {
    let env = vec![pair("LANG", "C"), pair("PATH", "/opt/homebrew/bin")];
    let out = AztecExtension::ensure_path(env);
    assert_eq!(
        out,
        vec![pair("LANG", "C"), pair("PATH", "/opt/homebrew/bin:/usr/local/bin:/usr/bin:/bin")]
    );
}

#[test]
fn ensure_path_keeps_path_that_holds_all_three_directories() {
    let values = [
        "/usr/local/bin:/usr/bin:/bin",
        "/opt/x:/usr/local/bin:/usr/bin:/bin",
        "/usr/local/sbin:/usr/local/bin:/usr/sbin:/usr/bin:/sbin:/bin",
        "/bin:/opt/x:/usr/bin:/usr/local/bin",
        "/usr/bin::/bin:/usr/local/bin:",
    ];
    for value in values {
        let env = vec![pair("PATH", value), pair("LANG", "C")];
        assert_eq!(AztecExtension::ensure_path(env.clone()), env);
    }
}

#[test]
fn ensure_path_appends_where_a_directory_is_only_mentioned() {
    let out = AztecExtension::ensure_path(vec![pair("PATH", "/opt/usr/bin")]);
    assert_eq!(out, vec![pair("PATH", "/opt/usr/bin:/usr/local/bin:/usr/bin:/bin")]);
    let out =
        AztecExtension::ensure_path(vec![pair("PATH", "/usr/bin/extra:/bin2:/usr/local/bin")]);
    assert_eq!(
        out,
        vec![pair("PATH", "/usr/bin/extra:/bin2:/usr/local/bin:/usr/local/bin:/usr/bin:/bin")]
    );
}

#[test]
fn ensure_path_appends_where_one_directory_is_missing() {
    let out = AztecExtension::ensure_path(vec![pair("PATH", "/usr/bin:/bin")]);
    assert_eq!(out, vec![pair("PATH", "/usr/bin:/bin:/usr/local/bin:/usr/bin:/bin")]);
    let out = AztecExtension::ensure_path(vec![pair("PATH", "/usr/local/bin:/usr/bin")]);
    assert_eq!(out, vec![pair("PATH", "/usr/local/bin:/usr/bin:/usr/local/bin:/usr/bin:/bin")]);
    let out = AztecExtension::ensure_path(vec![pair("PATH", "/usr/local/bin:/bin")]);
    assert_eq!(out, vec![pair("PATH", "/usr/local/bin:/bin:/usr/local/bin:/usr/bin:/bin")]);
}

#[test]
fn ensure_path_sets_path_where_there_is_none() {
    let out = AztecExtension::ensure_path(vec![pair("LANG", "C")]);
    assert_eq!(out, vec![pair("LANG", "C"), pair("PATH", SYSTEM_DIRS)]);
    let out = AztecExtension::ensure_path(Vec::new());
    assert_eq!(out, vec![pair("PATH", SYSTEM_DIRS)]);
}

#[test]
fn ensure_path_appends_to_empty_path() {
    let out = AztecExtension::ensure_path(vec![pair("PATH", "")]);
    assert_eq!(out, vec![pair("PATH", ":/usr/local/bin:/usr/bin:/bin")]);
}

#[test]
fn ensure_path_twice_is_ensure_path_once() {
    let inputs = vec![
        Vec::new(),
        vec![pair("PATH", "")],
        vec![pair("PATH", "/opt/bin")],
        vec![pair("PATH", "/usr/bin")],
        vec![pair("PATH", "/opt/usr/bin")],
        vec![pair("PATH", "/usr/bin:/bin")],
        vec![pair("PATH", "/usr/local/bin:/usr/bin:/bin")],
        vec![pair("A", "1"), pair("PATH", "/a:/b"), pair("B", "2")],
        vec![pair("PATH", "/a"), pair("PATH", "/b")],
    ];
    for env in inputs {
        let once = AztecExtension::ensure_path(env);
        let twice = AztecExtension::ensure_path(once.clone());
        assert_eq!(twice, once);
        let path = once.iter().rev().find(|(name, _)| name == "PATH").expect("PATH is set");
        assert_eq!(path.1.matches(SYSTEM_DIRS).count(), 1);
        let components: Vec<&str> = path.1.split(':').collect();
        for dir in ["/usr/local/bin", "/usr/bin", "/bin"] {
            assert!(components.contains(&dir));
        }
    }
}

#[test]
fn ensure_path_changes_the_entry_that_counts() {
    let env = vec![pair("PATH", "/first"), pair("PATH", "/second")];
    let out = AztecExtension::ensure_path(env);
    assert_eq!(
        out,
        vec![pair("PATH", "/first"), pair("PATH", "/second:/usr/local/bin:/usr/bin:/bin")]
    );
    let env = vec![pair("PATH", "/first"), pair("PATH", SYSTEM_DIRS)];
    assert_eq!(AztecExtension::ensure_path(env.clone()), env);
    let env = vec![pair("PATH", SYSTEM_DIRS), pair("PATH", "/second")];
    assert_eq!(
        AztecExtension::ensure_path(env),
        vec![pair("PATH", SYSTEM_DIRS), pair("PATH", "/second:/usr/local/bin:/usr/bin:/bin")]
    );
}

#[test]
fn ensure_home_adds_known_home() {
    let home = "/home/u".to_string();
    let out = AztecExtension::ensure_home(vec![pair("LANG", "C")], Some(&home));
    assert_eq!(out, vec![pair("LANG", "C"), pair("HOME", "/home/u")]);
}

#[test]
fn ensure_home_keeps_home_that_is_set() {
    let home = "/other".to_string();
    let env = vec![pair("HOME", "/home/u"), pair("LANG", "C")];
    assert_eq!(AztecExtension::ensure_home(env.clone(), Some(&home)), env);
}

#[test]
fn ensure_home_without_known_home_changes_nothing() {
    let env = vec![pair("LANG", "C")];
    assert_eq!(AztecExtension::ensure_home(env.clone(), None), env);
    assert_eq!(AztecExtension::ensure_home(Vec::new(), None), Vec::new());
}

#[test]
fn aztec_binary_wraps_the_tool_in_a_shell() {
    let home = "/home/u".to_string();
    let spec = AztecExtension::aztec_binary(
        "/opt/aztec/bin/aztec".to_string(),
        vec![pair("PATH", "/opt/bin")],
        Some(&home),
    );
    assert_eq!(
        spec,
        LaunchSpec {
            executable_path: "/bin/sh".to_string(),
            arguments: vec![
                "-c".to_string(),
                "docker rm -f aztec-nargo-lsp 2>/dev/null; exec '/opt/aztec/bin/aztec' lsp"
                    .to_string(),
            ],
            environment: vec![
                pair("PATH", "/opt/bin:/usr/local/bin:/usr/bin:/bin"),
                pair("HOME", "/home/u"),
            ],
        }
    );
}

#[test]
fn aztec_binary_without_home_adds_only_the_path() {
    let spec = AztecExtension::aztec_binary("aztec".to_string(), Vec::new(), None);
    assert_eq!(spec.executable_path, "/bin/sh");
    assert_eq!(
        spec.arguments,
        vec![
            "-c".to_string(),
            "docker rm -f aztec-nargo-lsp 2>/dev/null; exec 'aztec' lsp".to_string()
        ]
    );
    assert_eq!(spec.environment, vec![pair("PATH", SYSTEM_DIRS)]);
}

#[test]
fn nargo_binary_starts_the_tool_directly() {
    let env = vec![pair("PATH", "/opt/bin"), pair("LANG", "C")];
    let spec = AztecExtension::nargo_binary("/usr/local/bin/nargo".to_string(), env.clone());
    assert_eq!(
        spec,
        LaunchSpec {
            executable_path: "/usr/local/bin/nargo".to_string(),
            arguments: vec!["lsp".to_string()],
            environment: env,
        }
    );
}

#[test]
fn build_launch_follows_the_kind() {
    let home = "/h".to_string();
    let env = vec![pair("PATH", "/usr/bin")];
    let framework =
        build_launch(ToolKind::FrameworkCli, "/t/aztec".to_string(), env.clone(), Some(&home));
    assert_eq!(
        framework,
        AztecExtension::aztec_binary("/t/aztec".to_string(), env.clone(), Some(&home))
    );
    let direct =
        build_launch(ToolKind::DirectCompiler, "/t/nargo".to_string(), env.clone(), Some(&home));
    assert_eq!(direct, AztecExtension::nargo_binary("/t/nargo".to_string(), env));
}

#[test]
fn build_override_fills_in_what_is_left_out() {
    let shell = vec![pair("LANG", "C")];
    let spec = build_override("/custom/aztec".to_string(), None, None, shell.clone());
    assert_eq!(
        spec,
        LaunchSpec {
            executable_path: "/custom/aztec".to_string(),
            arguments: vec!["lsp".to_string()],
            environment: shell.clone(),
        }
    );
    let spec = build_override(
        "/custom/aztec".to_string(),
        Some(vec!["lsp".to_string(), "--verbose".to_string()]),
        Some(vec![pair("RUST_LOG", "debug")]),
        shell,
    );
    assert_eq!(
        spec,
        LaunchSpec {
            executable_path: "/custom/aztec".to_string(),
            arguments: vec!["lsp".to_string(), "--verbose".to_string()],
            environment: vec![pair("RUST_LOG", "debug")],
        }
    );
    let spec = build_override("x".to_string(), Some(Vec::new()), Some(Vec::new()), Vec::new());
    assert_eq!(spec.arguments, Vec::<String>::new());
    assert_eq!(spec.environment, Vec::new());
}

#[test]
fn ensure_home_counts_an_empty_home_as_set() {
    let home = "/home/u".to_string();
    let env = vec![pair("HOME", "")];
    assert_eq!(AztecExtension::ensure_home(env.clone(), Some(&home)), env);
}

#[test]
fn aztec_binary_keeps_names_unique() {
    let home = "/home/u".to_string();
    let env = vec![pair("A", "1"), pair("PATH", "/x"), pair("B", "2")];
    let spec = AztecExtension::aztec_binary("aztec".to_string(), env, Some(&home));
    let mut names: Vec<&str> = spec.environment.iter().map(|(name, _)| name.as_str()).collect();
    assert_eq!(names, vec!["A", "PATH", "B", "HOME"]);
    names.sort();
    names.dedup();
    assert_eq!(names.len(), 4);
}
