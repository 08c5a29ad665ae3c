use docker_manager::event_loop::{Controller, Phase, COORDINATOR_TARGET, WORKER_TARGET};
use docker_manager::startup::{any_image_matches, validate_config, StartupError};

fn catalog() -> Vec<String> {
    vec![
        "sha256:ab12cd".to_string(),
        "sha256:ff0011".to_string(),
        "nodigest".to_string(),
    ]
}

#[test]
fn valid_configuration_starts_running() {
    let c = Controller::start("ab12".to_string(), "ff00".to_string(), &catalog()).unwrap();
    assert_eq!(c.get_phase(), Phase::Running);
    assert_eq!(c.get_worker().get_image_hash(), "ab12");
    assert_eq!(c.get_worker().get_target(), WORKER_TARGET);
    assert_eq!(c.get_worker().get_target(), 5);
    assert_eq!(c.get_coordinator().get_image_hash(), "ff00");
    assert_eq!(c.get_coordinator().get_target(), COORDINATOR_TARGET);
    assert_eq!(c.get_coordinator().get_target(), 1);
    assert_eq!(c.get_worker().get_current(), 0);
    assert_eq!(c.get_liveness_seen(), 0);
}

#[test]
fn missing_image_names_the_prefix() {
    match Controller::start("ab12".to_string(), "0000".to_string(), &catalog()) {
        Err(StartupError::ImageMissing(p)) => assert_eq!(p, "0000"),
        other => panic!("unexpected {:?}", other.map(|_| ())),
    }
    match validate_config("9999", "0000", &catalog()) {
        Err(StartupError::ImageMissing(p)) => assert_eq!(p, "9999"),
        other => panic!("unexpected {:?}", other),
    }
}

#[test]
fn prefixes_of_one_another_are_refused() {
    assert!(matches!(
        validate_config("ab", "ab12", &catalog()),
        Err(StartupError::AmbiguousPrefixes)
    ));
    assert!(matches!(
        validate_config("ab12", "ab", &catalog()),
        Err(StartupError::AmbiguousPrefixes)
    ));
    assert!(matches!(
        validate_config("", "ff", &catalog()),
        Err(StartupError::AmbiguousPrefixes)
    ));
}

#[test]
fn empty_catalog_refuses_worker_first() {
    match validate_config("ab", "ff", &Vec::new()) {
        Err(StartupError::ImageMissing(p)) => assert_eq!(p, "ab"),
        other => panic!("unexpected {:?}", other),
    }
}

#[test]
fn catalog_lookup_uses_digests() {
    assert!(any_image_matches("ab1", &catalog()));
    assert!(!any_image_matches("sha", &catalog()));
    assert!(!any_image_matches("nod", &catalog()));
}
