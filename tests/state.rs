use flatplay::digest::{manifest_hash, to_hex};
use flatplay::pipeline::Stage;
use flatplay::state::{State, StoredState};

#[test]
fn test_state_serialization() {
    let base_dir = "/tmp/project".to_string();

    let mut state = State::load(base_dir.clone(), None);
    assert_eq!(state.active_manifest, None);
    assert_eq!(state.manifest_hash, None);
    assert!(!state.dependencies_updated);
    assert!(!state.dependencies_built);
    assert!(!state.application_built);

    state.active_manifest = Some("/tmp/org.example.App.json".to_string());
    state.manifest_hash = Some("abc123".to_string());
    state.dependencies_updated = true;

    let saved: StoredState = state.save();

    let loaded_state = State::load(base_dir, Some(saved));
    assert_eq!(loaded_state.active_manifest, Some("/tmp/org.example.App.json".to_string()));
    assert_eq!(loaded_state.manifest_hash, Some("abc123".to_string()));
    assert!(loaded_state.dependencies_updated);
    assert!(!loaded_state.dependencies_built);
}

#[test]
fn test_state_reset() {
    let mut state = State::load("/tmp/project".to_string(), None);

    state.dependencies_updated = true;
    state.dependencies_built = true;
    state.application_built = true;

    state.reset();

    assert!(!state.dependencies_updated);
    assert!(!state.dependencies_built);
    assert!(!state.application_built);
}

#[test]
fn reset_keeps_manifest_identity() {
    let mut state = State::load("/p".to_string(), None);
    state.active_manifest = Some("/p/app.json".to_string());
    state.manifest_hash = Some("ff".to_string());
    state.application_built = true;
    state.reset();
    assert_eq!(state.active_manifest, Some("/p/app.json".to_string()));
    assert_eq!(state.manifest_hash, Some("ff".to_string()));
    assert_eq!(state.base_dir, "/p");
    assert!(!state.application_built);
}

#[test]
fn round_trip_keeps_every_field() {
    let mut state = State::load("/p".to_string(), None);
    state.active_manifest = Some("/p/a.yml".to_string());
    state.manifest_hash = Some("00".to_string());
    state.dependencies_built = true;
    state.application_built = true;
    let again = State::load("/p".to_string(), Some(state.save()));
    assert_eq!(again.active_manifest, state.active_manifest);
    assert_eq!(again.manifest_hash, state.manifest_hash);
    assert_eq!(again.dependencies_updated, state.dependencies_updated);
    assert_eq!(again.dependencies_built, state.dependencies_built);
    assert_eq!(again.application_built, state.application_built);
    assert_eq!(again.base_dir, state.base_dir);
}

#[test]
fn sha256_hex_of_known_inputs() {
    assert_eq!(
        manifest_hash(b"abc"),
        "ba7816bf8f01cfea414140de5dae2223b00361a396177a9cb410ff61f20015ad"
    );
    assert_eq!(
        manifest_hash(b""),
        "e3b0c44298fc1c149afbf4c8996fb92427ae41e4649b934ca495991b7852b855"
    );
    assert_eq!(to_hex(&[0x00, 0x0f, 0xa5, 0xff]), "000fa5ff");
    assert_eq!(to_hex(&[]), "");
}

#[test]
fn changed_manifest_resets_before_any_stage() {
    let mut state = State::load("/p".to_string(), None);
    state.active_manifest = Some("/p/app.json".to_string());
    state.manifest_hash = Some(manifest_hash(b"old content"));
    state.dependencies_updated = true;
    state.dependencies_built = true;
    state.application_built = true;
    assert!(state.check_manifest_changed(b"new content"));
    assert!(!state.dependencies_updated && !state.dependencies_built && !state.application_built);
    assert_eq!(state.manifest_hash, Some(manifest_hash(b"new content")));
    assert_eq!(
        state.build_stages(),
        vec![Stage::UpdateDependencies, Stage::BuildDependencies, Stage::BuildApplication]
    );
}

#[test]
fn unchanged_manifest_keeps_progress() {
    let mut state = State::load("/p".to_string(), None);
    state.active_manifest = Some("/p/app.json".to_string());
    state.manifest_hash = Some(manifest_hash(b"same"));
    state.dependencies_updated = true;
    assert!(!state.check_manifest_changed(b"same"));
    assert!(state.dependencies_updated);
}

#[test]
fn missing_hash_counts_as_changed() {
    let mut state = State::load("/p".to_string(), None);
    state.dependencies_updated = true;
    assert!(state.apply_manifest_hash("aa".to_string()));
    assert!(!state.dependencies_updated);
    assert_eq!(state.manifest_hash, Some("aa".to_string()));
}

#[test]
fn default_state_is_fresh() {
    let state = State::default();
    assert_eq!(state.active_manifest, None);
    assert_eq!(state.manifest_hash, None);
    assert!(!state.dependencies_updated && !state.dependencies_built && !state.application_built);
    assert_eq!(state.base_dir, "");
}

#[test]
fn no_active_manifest_means_no_hash_check() {
    let mut state = State::load("/p".to_string(), None);
    state.dependencies_updated = true;
    assert!(!state.check_manifest_changed(b"anything"));
    assert!(state.dependencies_updated);
    assert_eq!(state.manifest_hash, None);
}
