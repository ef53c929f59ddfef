use std::cmp::Ordering;
use std::path::Path;

use flatplay::manifest::{
    build_system_of, compare_manifest_paths, is_valid_dbus_name, manifest_format, BuildSystem, Manifest, ManifestError,
    ManifestFormat, Module,
};

fn manifest_with_id(id: &str, modules: Vec<Module>) -> Manifest {
    Manifest {
        id: id.to_string(),
        sdk: "org.gnome.Sdk".to_string(),
        runtime: "org.gnome.Platform".to_string(),
        runtime_version: "47".to_string(),
        command: "test-app".to_string(),
        x_run_args: None,
        modules,
        finish_args: vec![],
        build_options: serde_json::Value::Null,
        cleanup: vec![],
    }
}

#[test]
fn test_is_valid_dbus_name() {
    assert!(is_valid_dbus_name("org.example.App"));
    assert!(is_valid_dbus_name("com.github.user.Application"));
    assert!(is_valid_dbus_name("io.github.user_name.app-name"));

    assert!(!is_valid_dbus_name(""));
    assert!(!is_valid_dbus_name("single"));
    assert!(!is_valid_dbus_name("org.123invalid"));
    assert!(!is_valid_dbus_name("org..double"));
    assert!(!is_valid_dbus_name(".org.example"));
    assert!(!is_valid_dbus_name("org.example."));

    let long_name = format!("org.{}.App", "a".repeat(250));
    assert!(!is_valid_dbus_name(&long_name));
}

#[test]
fn dbus_name_length_limit_is_in_bytes() {
    let at_limit = format!("org.{}", "a".repeat(251));
    assert_eq!(at_limit.len(), 255);
    assert!(is_valid_dbus_name(&at_limit));
    assert!(!is_valid_dbus_name(&format!("org.{}", "a".repeat(252))));
    assert!(!is_valid_dbus_name("org.ex ample"));
    assert!(is_valid_dbus_name("a.b"));
}

#[test]
fn test_manifest_invalid_app_id() {
    let result = manifest_with_id("invalid", vec![]).check_app_id();
    assert!(result.is_err());
    assert!(matches!(result, Err(ManifestError::InvalidAppId)));
    assert!(manifest_with_id("org.example.TestApp", vec![]).check_app_id().is_ok());
}

#[test]
fn manifest_formats_by_extension() {
    assert_eq!(manifest_format("/p/org.example.App.json"), Ok(ManifestFormat::Json));
    assert_eq!(manifest_format("a.yaml"), Ok(ManifestFormat::Yaml));
    assert_eq!(manifest_format("dir.d/a.yml"), Ok(ManifestFormat::Yaml));
    assert_eq!(manifest_format("/p/a.toml"), Err(ManifestError::UnsupportedFormat));
    assert_eq!(manifest_format("/p/.json"), Err(ManifestError::UnsupportedFormat));
    assert_eq!(manifest_format("/p.json/readme"), Err(ManifestError::UnsupportedFormat));
    assert_eq!(manifest_format(""), Err(ManifestError::UnsupportedFormat));
}

#[test]
fn build_systems() {
    let s = |v: &str| Some(v.to_string());
    assert_eq!(build_system_of(&s("meson")), Ok(BuildSystem::Meson));
    assert_eq!(build_system_of(&s("cmake")), Ok(BuildSystem::CMake));
    assert_eq!(build_system_of(&s("cmake-ninja")), Ok(BuildSystem::CMake));
    assert_eq!(build_system_of(&s("simple")), Ok(BuildSystem::Simple));
    assert_eq!(build_system_of(&s("qmake")), Err(ManifestError::UnsupportedBuildSystem));
    assert_eq!(build_system_of(&s("autotools")), Ok(BuildSystem::Autotools));
    assert_eq!(build_system_of(&None), Ok(BuildSystem::Autotools));
}

#[test]
fn application_module_is_last() {
    let m = manifest_with_id("org.example.App", vec![]);
    assert!(matches!(m.application_module(), Err(ManifestError::NoModules)));
    let app = Module::Object {
        name: "test-module".to_string(),
        buildsystem: Some("meson".to_string()),
        config_opts: None,
        build_commands: None,
        post_install: None,
        sources: vec![],
    };
    let m = manifest_with_id("org.example.App", vec![Module::Reference("shared.json".to_string()), app]);
    let last = m.application_module().ok().unwrap();
    assert_eq!(last.stop_at_name(), "test-module");
    assert_eq!(m.modules[0].stop_at_name(), "shared.json");
}

#[test]
fn devel_manifests_come_first_then_shallow_ones() {
    assert_eq!(
        compare_manifest_paths("/p/a/b/org.x.App.Devel.json", "/p/org.x.App.json"),
        Ordering::Less
    );
    assert_eq!(
        compare_manifest_paths("/p/org.x.App.json", "/p/b/org.x.App.Devel.json"),
        Ordering::Greater
    );
    assert_eq!(compare_manifest_paths("/p/a.json", "/p/d/a.json"), Ordering::Less);
    assert_eq!(compare_manifest_paths("/p/d/a.json", "/p/a.json"), Ordering::Greater);
    assert_eq!(compare_manifest_paths("/p/a.json", "/q/b.yml"), Ordering::Equal);
    // Components as std counts them: repeated and trailing slashes and
    // inner `.` pieces add nothing, a leading `.` does.
    assert_eq!(compare_manifest_paths("/p//q/./a.json", "/p/q/a.json"), Ordering::Equal);
    assert_eq!(compare_manifest_paths("./a.json", "x/a.json"), Ordering::Equal);
    assert_eq!(compare_manifest_paths("a.json", "x/a.json"), Ordering::Less);
    assert_eq!(compare_manifest_paths("x/../a.json", "x/y/a.json"), Ordering::Equal);
}

#[test]
fn component_counts_agree_with_std() {
    let paths = ["/p//q/./a.json", "./a.json", "x/../a.json", "/", "", ".", "a/", "//a", "./.", "a/./b/"];
    for a in paths {
        for b in paths {
            assert_eq!(
                compare_manifest_paths(a, b),
                Path::new(a).components().count().cmp(&Path::new(b).components().count()),
                "{a} vs {b}"
            );
        }
    }
}
