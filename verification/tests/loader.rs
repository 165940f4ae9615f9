use termsfx::config::termsfx_config_loader::{ChangeKind, LoadError, TermsfxConfigLoader};
use termsfx::config::termsfx_config_source::{
    TermsfxCommandConfigSource, TermsfxConfigSource, TermsfxConfigSourceError,
};

fn rule(command: &str, path: &str) -> TermsfxCommandConfigSource {
    TermsfxCommandConfigSource {
        command: command.to_string(),
        audio_file_path: Some(path.to_string()),
        audio_file_paths: None,
    }
}

fn source(rules: Vec<TermsfxCommandConfigSource>) -> TermsfxConfigSource {
    TermsfxConfigSource { commands: rules }
}

fn loaded() -> TermsfxConfigLoader {
    let mut loader = TermsfxConfigLoader::with_home("/home/u");
    loader.watch(Some(source(vec![rule("ls", "A.wav"), rule("l.*", "/s/B.wav")]))).unwrap();
    loader
}

#[test]
fn the_configuration_file_lies_under_the_home_directory() {
    let loader = TermsfxConfigLoader::with_home("/home/u");
    assert_eq!(loader.config_dir(), "/home/u/.config/termsfx");
    assert_eq!(loader.config_path(), "/home/u/.config/termsfx/termsfx.json");
}

#[test]
fn a_new_store_has_no_rules() {
    let loader = TermsfxConfigLoader::with_home("/home/u");
    assert!(loader.config().commands.is_empty());
    assert!(loader.config().playlist("ls").is_empty());
}

#[test]
fn the_store_of_the_current_user() {
    match TermsfxConfigLoader::new() {
        Some(loader) => {
            assert!(loader.config_path().ends_with("termsfx.json"));
            assert!(loader.config_path().starts_with(loader.config_dir()));
            assert!(loader.config_dir().ends_with("termsfx"));
            assert!(loader.config().commands.is_empty());
        }
        None => {}
    }
}

#[test]
fn the_first_load_fills_the_store() {
    let loader = loaded();
    assert_eq!(
        loader.config().playlist("ls"),
        vec!["/home/u/.config/termsfx/A.wav".to_string(), "/s/B.wav".to_string()]
    );
}

#[test]
fn a_first_load_that_fails_is_reported() {
    let mut loader = TermsfxConfigLoader::with_home("/home/u");
    assert!(matches!(loader.watch(None), Err(LoadError::Unreadable)));
    assert!(loader.config().commands.is_empty());
    let outcome = loader.watch(Some(source(vec![rule("", "A.wav")])));
    assert!(matches!(
        outcome,
        Err(LoadError::Refused(TermsfxConfigSourceError::InvalidConfig(_)))
    ));
    assert!(loader.config().commands.is_empty());
}

#[test]
fn load_config_does_not_touch_the_store() {
    let loader = loaded();
    let config = loader.load_config(source(vec![rule("cd", "C.wav")])).unwrap();
    assert_eq!(config.playlist("cd"), vec!["/home/u/.config/termsfx/C.wav".to_string()]);
    assert!(loader.config().playlist("cd").is_empty());
    assert!(loader.load_config(source(vec![rule("(", "C.wav")])).is_err());
}

#[test]
fn a_good_update_replaces_the_rules() {
    let mut loader = loaded();
    assert!(loader.reload(Some(source(vec![rule("cd", "/s/C.wav")]))).is_ok());
    assert!(loader.config().playlist("ls").is_empty());
    assert_eq!(loader.config().playlist("cd"), vec!["/s/C.wav".to_string()]);
}

#[test]
fn an_unreadable_update_keeps_the_rules() {
    let mut loader = loaded();
    let before = loader.config().playlist("ls");
    assert!(matches!(loader.reload(None), Err(LoadError::Unreadable)));
    assert_eq!(loader.config().playlist("ls"), before);
    assert_eq!(loader.config().commands.len(), 2);
}

#[test]
fn a_refused_update_keeps_the_rules() {
    let mut loader = loaded();
    let before = loader.config().playlist("ls");
    let update = source(vec![rule("cd", "/s/C.wav"), rule("", "/s/D.wav")]);
    assert!(matches!(
        loader.reload(Some(update)),
        Err(LoadError::Refused(TermsfxConfigSourceError::InvalidConfig(_)))
    ));
    assert_eq!(loader.config().playlist("ls"), before);
    assert!(loader.config().playlist("cd").is_empty());
}

#[test]
fn an_update_with_a_bad_pattern_keeps_the_rules() {
    let mut loader = loaded();
    let before = loader.config().playlist("ls");
    let update = source(vec![rule("cd", "/s/C.wav"), rule("(", "/s/D.wav")]);
    assert!(matches!(
        loader.reload(Some(update)),
        Err(LoadError::Refused(TermsfxConfigSourceError::InvalidRegex(_)))
    ));
    assert_eq!(loader.config().playlist("ls"), before);
    assert!(loader.config().playlist("cd").is_empty());
}

#[test]
fn a_good_update_after_a_bad_one_is_taken() {
    let mut loader = loaded();
    assert!(loader.reload(None).is_err());
    assert!(loader.reload(Some(source(vec![rule("cd", "/s/C.wav")]))).is_ok());
    assert_eq!(loader.config().playlist("cd"), vec!["/s/C.wav".to_string()]);
}

#[test]
fn loading_the_same_update_twice_is_loading_it_once() {
    let update = source(vec![rule("cd", "C.wav"), rule("c.", "/s/D.wav")]);
    let mut once = loaded();
    once.reload(Some(update.clone())).unwrap();
    let mut twice = loaded();
    twice.reload(Some(update.clone())).unwrap();
    twice.reload(Some(update)).unwrap();
    for command in ["cd", "ls", "cp a b", ""] {
        assert_eq!(once.config().playlist(command), twice.config().playlist(command));
    }
    assert_eq!(once.config().commands.len(), twice.config().commands.len());
}

#[test]
fn a_snapshot_is_not_changed_by_a_later_update() {
    let mut loader = loaded();
    let snapshot = loader.config();
    loader.reload(Some(source(vec![]))).unwrap();
    assert_eq!(snapshot.playlist("ls").len(), 2);
    assert!(loader.config().playlist("ls").is_empty());
}

#[test]
fn only_modifications_trigger_a_reload() {
    assert!(TermsfxConfigLoader::triggers_reload(ChangeKind::Modify));
    for kind in [
        ChangeKind::Any,
        ChangeKind::Access,
        ChangeKind::Create,
        ChangeKind::Remove,
        ChangeKind::Other,
    ] {
        assert!(!TermsfxConfigLoader::triggers_reload(kind));
    }
}

#[test]
fn load_error_messages() {
    assert_eq!(LoadError::Unreadable.message(), "Configuration file could not be read");
    let mut loader = loaded();
    let error = loader.reload(Some(source(vec![rule("", "A.wav")]))).unwrap_err();
    assert_eq!(error.message(), "Invalid config: command must be provided");
    let error = loader.reload(Some(source(vec![rule("(", "A.wav")]))).unwrap_err();
    assert!(error.message().starts_with("Invalid regex pattern: "));
}
