use flatplay::pipeline::Stage;
use flatplay::state::State;

#[test]
fn updated_dependencies_skip_update_stage() {
    let mut state = State::load("/p".to_string(), None);
    state.dependencies_updated = true;
    state.dependencies_built = false;
    assert_eq!(state.build_stages(), vec![Stage::BuildDependencies, Stage::BuildApplication]);
}

#[test]
fn fresh_state_runs_all_stages_and_records_them() {
    let mut state = State::load("/p".to_string(), None);
    let stages = state.build_stages();
    assert_eq!(
        stages,
        vec![Stage::UpdateDependencies, Stage::BuildDependencies, Stage::BuildApplication]
    );
    for stage in stages {
        state.complete_stage(stage);
    }
    assert!(state.dependencies_updated && state.dependencies_built && state.application_built);
    assert_eq!(state.build_stages(), vec![Stage::BuildApplication]);
}

#[test]
fn selecting_another_manifest_forgets_progress() {
    let mut state = State::load("/p".to_string(), None);
    assert!(state.set_active_manifest("/p/a.json".to_string(), b"{}"));
    state.complete_stage(Stage::UpdateDependencies);
    assert!(state.is_active_manifest(&"/p/a.json".to_string()));
    assert!(!state.set_active_manifest("/p/a.json".to_string(), b"{}"));
    assert!(state.dependencies_updated);
    assert!(state.set_active_manifest("/p/b.json".to_string(), b"{ }"));
    assert!(!state.dependencies_updated);
    assert_eq!(state.active_manifest, Some("/p/b.json".to_string()));
    assert_eq!(state.manifest_hash, Some(flatplay::digest::manifest_hash(b"{ }")));
}

#[test]
fn failed_stage_is_not_recorded() {
    let mut state = State::load("/p".to_string(), None);
    state.finish_stage(Stage::UpdateDependencies, true);
    state.finish_stage(Stage::BuildDependencies, false);
    assert!(state.dependencies_updated);
    assert!(!state.dependencies_built);
    assert_eq!(state.build_stages(), vec![Stage::BuildDependencies, Stage::BuildApplication]);
    assert!(!state.can_run());
    state.finish_stage(Stage::BuildDependencies, true);
    state.finish_stage(Stage::BuildApplication, true);
    assert!(state.can_run());
}
