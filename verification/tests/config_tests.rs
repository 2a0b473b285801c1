use eye_in_desk_client::config::{
    config_file_path, config_load_start, config_load_step, ConfigLoadAction, ConfigLoadEvent,
    ConfigLoadState,
};

#[test]
fn config_path_is_config_json() {
    assert_eq!(config_file_path(), "config.json");
}

#[test]
fn config_load_starts_by_reading() {
    assert_eq!(config_load_start(), (ConfigLoadState::Reading, ConfigLoadAction::ReadFile));
}

#[test]
fn config_load_uses_readable_file() {
    let (s, _) = config_load_start();
    let (s, a) = config_load_step(s, ConfigLoadEvent::Succeeded);
    assert_eq!((s, a), (ConfigLoadState::Loaded, ConfigLoadAction::UseConfig));
}

#[test]
fn config_load_creates_default_when_unreadable() {
    let (s, _) = config_load_start();
    let (s, a) = config_load_step(s, ConfigLoadEvent::Failed);
    assert_eq!((s, a), (ConfigLoadState::Creating, ConfigLoadAction::CreateFile));
    let (s, a) = config_load_step(s, ConfigLoadEvent::Succeeded);
    assert_eq!((s, a), (ConfigLoadState::Created, ConfigLoadAction::UseConfig));
}

#[test]
fn config_load_gives_up_when_creation_fails() {
    let (s, _) = config_load_start();
    let (s, _) = config_load_step(s, ConfigLoadEvent::Failed);
    let (s, a) = config_load_step(s, ConfigLoadEvent::Failed);
    assert_eq!((s, a), (ConfigLoadState::Failed, ConfigLoadAction::GiveUp));
}

#[test]
fn config_load_over_is_final() {
    for s in [ConfigLoadState::Loaded, ConfigLoadState::Created, ConfigLoadState::Failed] {
        for e in [ConfigLoadEvent::Succeeded, ConfigLoadEvent::Failed] {
            assert_eq!(config_load_step(s, e), (s, ConfigLoadAction::Idle));
        }
    }
}
