use zed_aztec::locator::{Existence, ToolProbe};
use zed_aztec::resolver::AztecExtension;
use zed_aztec::host::HostSnapshot;
use zed_aztec::status::InstallationStatus;

fn pair(name: &str, value: &str) -> (String, String) {
    (name.to_string(), value.to_string())
}

fn missing() -> ToolProbe {
    ToolProbe { on_path: None, installed: Existence::Absent }
}

#[test]
fn framework_project_with_tool_in_install_dir() {
    let host = HostSnapshot {
        shell_env: vec![pair("HOME", "/home/u"), pair("PATH", "/opt/bin")],
        process_home: None,
        process_userprofile: None,
        binary: None,
        manifest: Some("dependencies = { aztec-nr = ... }".to_string()),
        aztec: ToolProbe { on_path: None, installed: Existence::Present },
        nargo: missing(),
    };
    let mut resolver = AztecExtension::new();
    let resolved = resolver.language_server_binary(host);
    let spec = resolved.outcome.expect("the framework tool is installed");
    assert_eq!(spec.executable_path, "/bin/sh");
    assert_eq!(
        spec.arguments,
        vec![
            "-c".to_string(),
            "docker rm -f aztec-nargo-lsp 2>/dev/null; exec '/home/u/.aztec/bin/aztec' lsp"
                .to_string(),
        ]
    );
    assert!(spec.environment.contains(&pair("HOME", "/home/u")));
    let path = spec
        .environment
        .iter()
        .find(|(name, _)| name == "PATH")
        .map(|(_, value)| value.clone())
        .expect("PATH is set");
    assert!(path.ends_with("/usr/local/bin:/usr/bin:/bin"));
    assert_eq!(path, "/opt/bin:/usr/local/bin:/usr/bin:/bin");
    assert_eq!(
        resolved.statuses,
        vec![InstallationStatus::Searching, InstallationStatus::Cleared]
    );
    assert_eq!(
        resolver.cached_binary_path,
        Some("/home/u/.aztec/bin/aztec".to_string())
    );
}

#[test]
fn missing_manifest_falls_back_to_compiler_on_path() {
    let shell_env = vec![pair("LANG", "C")];
    let host = HostSnapshot {
        shell_env: shell_env.clone(),
        process_home: None,
        process_userprofile: None,
        binary: None,
        manifest: None,
        aztec: ToolProbe { on_path: None, installed: Existence::Unverified },
        nargo: ToolProbe {
            on_path: Some("/usr/local/bin/nargo".to_string()),
            installed: Existence::Unverified,
        },
    };
    let mut resolver = AztecExtension::new();
    let resolved = resolver.language_server_binary(host);
    let spec = resolved.outcome.expect("the compiler is on the search path");
    assert_eq!(spec.executable_path, "/usr/local/bin/nargo");
    assert_eq!(spec.arguments, vec!["lsp".to_string()]);
    assert_eq!(spec.environment, shell_env);
    assert_eq!(
        resolved.statuses,
        vec![
            InstallationStatus::Searching,
            InstallationStatus::Searching,
            InstallationStatus::Cleared
        ]
    );
    assert_eq!(resolver.cached_binary_path, None);
}
