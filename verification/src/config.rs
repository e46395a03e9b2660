//! What the language server is told when it starts: its initialization
//! options and the workspace configuration.

use vstd::prelude::*;

verus! {

/// The options that the language server is started with.
#[derive(Clone, Copy, Debug, PartialEq, Eq, Structural)]
pub struct InitializationOptions {
    /// Whether the server may trust its cache of parsed files. Off, so that
    /// every change is parsed again and no diagnostic goes stale.
    pub enable_parsing_cache: bool,
}

/// The settings of the language server that this library sets by default.
#[derive(Clone, Copy, Debug, PartialEq, Eq, Structural)]
pub struct NoirSettings {
    pub enable_code_lens: bool,
    pub enable_parsing: bool,
}

/// The workspace configuration: what the user supplied, or the defaults.
#[derive(Clone, Copy, Debug, PartialEq, Eq)]
pub enum WorkspaceConfiguration<T> {
    /// The value under `settings` in the user's configuration, as it stands.
    UserSupplied(T),
    /// The defaults, for a configuration without such a value.
    Defaults(NoirSettings),
}

/// The default settings: code lenses and parsing are both on.
pub open spec fn default_settings() -> NoirSettings {
    NoirSettings { enable_code_lens: true, enable_parsing: true }
}

/// The initialization options: the parsing cache is off.
pub fn language_server_initialization_options() -> (options: InitializationOptions)
    ensures
        options == (InitializationOptions { enable_parsing_cache: false }),
{
    InitializationOptions { enable_parsing_cache: false }
}

/// The workspace configuration for a user configuration whose `settings`
/// value is `user_settings`: that value where there is one, else the
/// defaults.
pub fn language_server_workspace_configuration<T>(
    user_settings: Option<T>,
) -> (configuration: WorkspaceConfiguration<T>)
    ensures
        configuration == match user_settings {
            Some(value) => WorkspaceConfiguration::UserSupplied(value),
            None => WorkspaceConfiguration::Defaults(default_settings()),
        },
{
    match user_settings {
        Some(value) => WorkspaceConfiguration::UserSupplied(value),
        None => WorkspaceConfiguration::Defaults(
            NoirSettings { enable_code_lens: true, enable_parsing: true },
        ),
    }
}

} // verus!
