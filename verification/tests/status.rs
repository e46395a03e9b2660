use zed_aztec::config::{
    language_server_initialization_options, language_server_workspace_configuration,
    InitializationOptions, NoirSettings, WorkspaceConfiguration,
};
use zed_aztec::tool::ToolKind;
use zed_aztec::status::ToolNotFound;

#[test]
fn framework_tool_message_is_exact() {
    let error = ToolNotFound { primary: ToolKind::FrameworkCli };
    assert_eq!(
        error.message(),
        "Aztec CLI not found. Install Aztec tooling:\n\nbash -i <(curl -s https://install.aztec.network)\naztec-up latest\n\nNote: Docker must be running for 'aztec lsp' to work."
    );
}

#[test]
fn direct_compiler_message_is_exact() {
    let error = ToolNotFound { primary: ToolKind::DirectCompiler };
    assert_eq!(
        error.message(),
        "nargo not found. Install Noir tooling:\n\ncurl -L https://raw.githubusercontent.com/noir-lang/noirup/main/install | bash\nnoirup\n\nOr for Aztec projects, install Aztec tooling:\nbash -i <(curl -s https://install.aztec.network)"
    );
}

#[test]
fn message_names_the_install_command_of_the_primary_tool() {
    let framework = ToolNotFound { primary: ToolKind::FrameworkCli }.message();
    assert!(framework.contains("bash -i <(curl -s https://install.aztec.network)"));
    let direct = ToolNotFound { primary: ToolKind::DirectCompiler }.message();
    assert!(direct.contains("noirup"));
    assert!(direct.starts_with("nargo not found"));
    assert!(framework.starts_with("Aztec CLI not found"));
}

#[test]
fn initialization_options_switch_the_parsing_cache_off() {
    assert_eq!(
        language_server_initialization_options(),
        InitializationOptions { enable_parsing_cache: false }
    );
}

#[test]
fn workspace_configuration_defaults_without_user_settings() {
    let configuration = language_server_workspace_configuration::<String>(None);
    assert_eq!(
        configuration,
        WorkspaceConfiguration::Defaults(NoirSettings {
            enable_code_lens: true,
            enable_parsing: true
        })
    );
}

#[test]
fn workspace_configuration_hands_user_settings_through() {
    let user = "{\"noir\":{\"enableCodeLens\":false}}".to_string();
    assert_eq!(
        language_server_workspace_configuration(Some(user.clone())),
        WorkspaceConfiguration::UserSupplied(user)
    );
    assert_eq!(
        language_server_workspace_configuration(Some(7u8)),
        WorkspaceConfiguration::UserSupplied(7u8)
    );
}
