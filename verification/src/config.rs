//! Loading of the configuration file: read it, or else create it with the
//! default configuration, or else give up.

use vstd::prelude::*;

verus! {

/// The path of the configuration file, relative to the working directory.
pub fn config_file_path() -> (path: &'static str)
    ensures
        path@ == "config.json"@,
{
    "config.json"
}

/// Where the loading of the configuration stands.
#[derive(Clone, Copy, Debug, PartialEq, Eq, Structural)]
pub enum ConfigLoadState {
    /// Waits for the configuration file to be read.
    Reading,
    /// Waits for the configuration file to be created with the default configuration.
    Creating,
    /// The configuration read from the file is in use.
    Loaded,
    /// The default configuration, now written to the file, is in use.
    Created,
    /// Neither reading nor creating the file succeeded.
    Failed,
}

/// The outcome of the last file operation.
#[derive(Clone, Copy, Debug, PartialEq, Eq, Structural)]
pub enum ConfigLoadEvent {
    Succeeded,
    Failed,
}

/// What the caller is to do next.
#[derive(Clone, Copy, Debug, PartialEq, Eq, Structural)]
pub enum ConfigLoadAction {
    /// Read and parse the configuration file.
    ReadFile,
    /// Write the default configuration to the configuration file.
    CreateFile,
    /// Use the configuration that the last operation produced.
    UseConfig,
    /// Stop: no configuration could be had ("Failed to create config file").
    GiveUp,
    /// Nothing: loading is over.
    Idle,
}

/// Where loading starts, and its first action.
pub open spec fn config_load_initial() -> (ConfigLoadState, ConfigLoadAction) {
    (ConfigLoadState::Reading, ConfigLoadAction::ReadFile)
}

/// The state and action that follow `state` when `event` is reported.
pub open spec fn config_load_next(state: ConfigLoadState, event: ConfigLoadEvent) -> (
    ConfigLoadState,
    ConfigLoadAction,
) {
    match (state, event) {
        (ConfigLoadState::Reading, ConfigLoadEvent::Succeeded) => (
            ConfigLoadState::Loaded,
            ConfigLoadAction::UseConfig,
        ),
        (ConfigLoadState::Reading, ConfigLoadEvent::Failed) => (
            ConfigLoadState::Creating,
            ConfigLoadAction::CreateFile,
        ),
        (ConfigLoadState::Creating, ConfigLoadEvent::Succeeded) => (
            ConfigLoadState::Created,
            ConfigLoadAction::UseConfig,
        ),
        (ConfigLoadState::Creating, ConfigLoadEvent::Failed) => (
            ConfigLoadState::Failed,
            ConfigLoadAction::GiveUp,
        ),
        _ => (state, ConfigLoadAction::Idle),
    }
}

/// Where loading starts, and its first action: read the file.
pub fn config_load_start() -> (r: (ConfigLoadState, ConfigLoadAction))
    ensures
        r == config_load_initial(),
{
    (ConfigLoadState::Reading, ConfigLoadAction::ReadFile)
}

/// The state and action that follow `state` when `event` is reported.
pub fn config_load_step(state: ConfigLoadState, event: ConfigLoadEvent) -> (r: (
    ConfigLoadState,
    ConfigLoadAction,
))
    ensures
        r == config_load_next(state, event),
{
    match (state, event) {
        (ConfigLoadState::Reading, ConfigLoadEvent::Succeeded) => (
            ConfigLoadState::Loaded,
            ConfigLoadAction::UseConfig,
        ),
        (ConfigLoadState::Reading, ConfigLoadEvent::Failed) => (
            ConfigLoadState::Creating,
            ConfigLoadAction::CreateFile,
        ),
        (ConfigLoadState::Creating, ConfigLoadEvent::Succeeded) => (
            ConfigLoadState::Created,
            ConfigLoadAction::UseConfig,
        ),
        (ConfigLoadState::Creating, ConfigLoadEvent::Failed) => (
            ConfigLoadState::Failed,
            ConfigLoadAction::GiveUp,
        ),
        _ => (state, ConfigLoadAction::Idle),
    }
}

/// The configuration file is kept when it can be read: the default is written
/// only after reading failed, and loading gives up only when writing the
/// default failed too.
pub proof fn lemma_config_load_outcomes(first: ConfigLoadEvent, second: ConfigLoadEvent)
    ensures
        first == ConfigLoadEvent::Succeeded ==> config_load_next(config_load_initial().0, first) == (
            ConfigLoadState::Loaded,
            ConfigLoadAction::UseConfig,
        ),
        first == ConfigLoadEvent::Failed ==> config_load_next(config_load_initial().0, first) == (
            ConfigLoadState::Creating,
            ConfigLoadAction::CreateFile,
        ),
        first == ConfigLoadEvent::Failed ==> config_load_next(
            config_load_next(config_load_initial().0, first).0,
            second,
        ) == if second == ConfigLoadEvent::Succeeded {
            (ConfigLoadState::Created, ConfigLoadAction::UseConfig)
        } else {
            (ConfigLoadState::Failed, ConfigLoadAction::GiveUp)
        },
{
}


/// Once loading has ended, with a configuration or without one, it stays so and
/// asks for nothing more.
pub proof fn lemma_config_load_over_is_final(state: ConfigLoadState, event: ConfigLoadEvent)
    requires
        state is Loaded || state is Created || state is Failed,
    ensures
        config_load_next(state, event) == (state, ConfigLoadAction::Idle),
{
}

} // verus!
