use flatplay::a11y::{a11y_bus_args_for, bus_address, get_a11y_bus_args};
use flatplay::command::{
    command_invocation, command_outcome, flatpak_builder, is_interrupted_error,
    missing_dependencies, CommandError, InterruptedError,
};

fn strings(v: &[&str]) -> Vec<String> {
    v.iter().map(|s| s.to_string()).collect()
}

#[test]
fn exit_statuses() {
    assert_eq!(command_outcome(true, Some(0), false), Ok(()));
    assert_eq!(command_outcome(true, Some(0), true), Ok(()));
    assert_eq!(
        command_outcome(false, Some(130), false),
        Err(CommandError::Interrupted(InterruptedError))
    );
    assert_eq!(
        command_outcome(false, Some(2), true),
        Err(CommandError::Interrupted(InterruptedError))
    );
    assert_eq!(command_outcome(false, Some(2), false), Err(CommandError::Failed { code: 2 }));
    assert_eq!(command_outcome(false, None, false), Err(CommandError::Failed { code: 1 }));
}

#[test]
fn interrupted_errors_are_recognised() {
    assert!(is_interrupted_error(&CommandError::Interrupted(InterruptedError)));
    assert!(!is_interrupted_error(&CommandError::Failed { code: 130 }));
    assert!(!is_interrupted_error(&CommandError::BuilderNotFound));
    assert_eq!(InterruptedError.message(), "Command interrupted");
}

#[test]
fn plain_invocation_is_unchanged() {
    let inv = command_invocation("flatpak", &strings(&["build", "repo"]), false, false, false);
    assert_eq!(inv.program, "flatpak");
    assert_eq!(inv.args, strings(&["build", "repo"]));
}

#[test]
fn container_disables_rofiles_fuse_once() {
    let inv = command_invocation("flatpak-builder", &strings(&["a"]), true, false, false);
    assert_eq!(inv.args, strings(&["a", "--disable-rofiles-fuse"]));
    let inv = command_invocation(
        "flatpak-builder",
        &strings(&["--disable-rofiles-fuse", "a"]),
        true,
        false,
        false,
    );
    assert_eq!(inv.args, strings(&["--disable-rofiles-fuse", "a"]));
    let inv = command_invocation("flatpak", &strings(&["a"]), true, false, false);
    assert_eq!(inv.args, strings(&["a"]));
}

#[test]
fn sandbox_spawns_on_host() {
    let inv = command_invocation("git", &strings(&["clone"]), false, true, true);
    assert_eq!(inv.program, "host-spawn");
    assert_eq!(inv.args, strings(&["git", "clone"]));
    let inv = command_invocation("git", &strings(&["clone"]), false, true, false);
    assert_eq!(inv.program, "flatpak-spawn");
    assert_eq!(
        inv.args,
        strings(&["--host", "--watch-bus", "--env=TERM=xterm-256color", "git", "clone"])
    );
}

#[test]
fn builder_choice() {
    let args = strings(&["--ccache", "repo"]);
    let native = flatpak_builder(&args, true, true).unwrap();
    assert_eq!(native.program, "flatpak-builder");
    assert_eq!(native.args, args);
    let app = flatpak_builder(&args, false, true).unwrap();
    assert_eq!(app.program, "flatpak");
    assert_eq!(app.args, strings(&["run", "org.flatpak.Builder", "--ccache", "repo"]));
    assert!(matches!(flatpak_builder(&args, false, false), Err(CommandError::BuilderNotFound)));
}

#[test]
fn a11y_bus_address_forwarding() {
    assert_eq!(bus_address("  ('unix:path=/run/user/1000/at-spi/bus,guid=abc',)\n"),
        "unix:path=/run/user/1000/at-spi/bus,guid=abc");
    assert_eq!(
        get_a11y_bus_args("('unix:path=/run/user/1000/at-spi/bus,guid=abc',)\n"),
        Some(strings(&[
            "--bind-mount=/run/flatpak/at-spi-bus=/run/user/1000/at-spi/bus",
            "--env=AT_SPI_BUS_ADDRESS=unix:path=/run/flatpak/at-spi-bus,guid=abc",
        ]))
    );
    assert_eq!(
        get_a11y_bus_args("('unix:path=/tmp/bus',)"),
        Some(strings(&[
            "--bind-mount=/run/flatpak/at-spi-bus=/tmp/bus",
            "--env=AT_SPI_BUS_ADDRESS=unix:path=/run/flatpak/at-spi-bus",
        ]))
    );
    assert_eq!(get_a11y_bus_args("('tcp:host=localhost',)"), None);
    assert_eq!(a11y_bus_args_for("/s", ""), strings(&[
        "--bind-mount=/run/flatpak/at-spi-bus=/s",
        "--env=AT_SPI_BUS_ADDRESS=unix:path=/run/flatpak/at-spi-bus",
    ]));
}

#[test]
fn missing_tools_are_listed_in_order() {
    assert!(missing_dependencies(true, true, true, false).is_empty());
    assert!(missing_dependencies(true, true, false, true).is_empty());
    assert_eq!(
        missing_dependencies(false, false, false, false),
        strings(&["git", "flatpak", "flatpak-builder or org.flatpak.Builder"])
    );
    assert_eq!(missing_dependencies(true, false, true, true), strings(&["flatpak"]));
}

#[test]
fn bus_address_capture_edges() {
    assert_eq!(
        get_a11y_bus_args("unix:path=,x unix:path=/a,b"),
        Some(strings(&[
            "--bind-mount=/run/flatpak/at-spi-bus=/a",
            "--env=AT_SPI_BUS_ADDRESS=unix:path=/run/flatpak/at-spi-bus,b",
        ]))
    );
    assert_eq!(
        get_a11y_bus_args("xunix:path=/p\nq,r\ns"),
        Some(strings(&[
            "--bind-mount=/run/flatpak/at-spi-bus=/p\nq",
            "--env=AT_SPI_BUS_ADDRESS=unix:path=/run/flatpak/at-spi-bus,r",
        ]))
    );
    assert_eq!(get_a11y_bus_args("unix:path="), None);
    assert_eq!(get_a11y_bus_args("unix:path=,"), None);
}
