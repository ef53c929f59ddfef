use std::path::PathBuf;

use flatplay::layout::{join, BuildDirs};
use flatplay::lock::lock_file_path;
use flatplay::state::State;

#[test]
fn test_build_dirs_paths() {
    let base = PathBuf::from("/tmp/test-project");
    let dirs = BuildDirs::new("/tmp/test-project".to_string());

    assert_eq!(PathBuf::from(dirs.build_dir()), base.join(".flatplay"));
    assert_eq!(PathBuf::from(dirs.repo_dir()), base.join(".flatplay/repo"));
    assert_eq!(PathBuf::from(dirs.build_system_dir()), base.join(".flatplay/_build"));
    assert_eq!(
        PathBuf::from(dirs.flatpak_builder_dir()),
        base.join(".flatplay/flatpak-builder")
    );
    assert_eq!(
        PathBuf::from(dirs.finalized_repo_dir()),
        base.join(".flatplay/finalized-repo")
    );
    assert_eq!(PathBuf::from(dirs.ostree_dir()), base.join(".flatplay/ostree"));
    assert_eq!(PathBuf::from(dirs.metadata_file()), base.join(".flatplay/repo/metadata"));
    assert_eq!(PathBuf::from(dirs.files_dir()), base.join(".flatplay/repo/files"));
    assert_eq!(PathBuf::from(dirs.var_dir()), base.join(".flatplay/repo/var"));
}

#[test]
fn join_inserts_one_separator() {
    assert_eq!(join("/a", "b"), "/a/b");
    assert_eq!(join("/a/", "b"), "/a/b");
    assert_eq!(join("", "b"), "b");
    assert_eq!(join(".", ".flatplay"), "./.flatplay");
}

#[test]
fn lock_and_state_files_live_in_build_dir() {
    assert_eq!(lock_file_path("/p"), "/p/.flatplay/instance.lock");
    assert_eq!(State::state_file_path("/p"), "/p/.flatplay/state.json");
}
