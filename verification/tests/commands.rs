use ferrous_control::command::power_command;
use ferrous_control::command::CommandSpec;
use ferrous_control::command::PowerAction;
use ferrous_control::command::SHUTDOWN_GRACE_SECS;
use ferrous_control::mixer::amixer_adjust_command;
use ferrous_control::mixer::amixer_get_command;
use ferrous_control::mixer::amixer_set_command;
use ferrous_control::mixer::osascript_adjust_command;
use ferrous_control::mixer::osascript_get_command;
use ferrous_control::mixer::osascript_set_command;
use ferrous_control::mixer::pactl_adjust_command;
use ferrous_control::mixer::pactl_get_command;
use ferrous_control::mixer::pactl_set_command;
use ferrous_control::outcome::ControlError;
use ferrous_control::platform::Platform;
use ferrous_control::text::decimal_string;

fn words(c: &CommandSpec) -> (String, Vec<String>) {
    (c.program.clone(), c.args.clone())
}

fn expect(r: Result<CommandSpec, ControlError>, program: &str, args: &[&str]) {
    let c = r.expect("a supported platform must yield a command");
    let (p, a) = words(&c);
    assert_eq!(p, program);
    let got: Vec<&str> = a.iter().map(|s| s.as_str()).collect();
    assert_eq!(got, args);
}

#[test]
fn shutdown_commands_per_platform() {
    expect(
        power_command(PowerAction::Shutdown, Platform::Windows, 60),
        "shutdown",
        &["/s", "/t", "60"],
    );
    expect(power_command(PowerAction::Shutdown, Platform::Linux, 60), "shutdown", &["-h", "+1"]);
    expect(
        power_command(PowerAction::Shutdown, Platform::MacOs, 60),
        "sh",
        &["-c", "sleep 60 && osascript -e 'tell app \"System Events\" to shut down' &"],
    );
}

#[test]
fn restart_commands_per_platform() {
    expect(
        power_command(PowerAction::Restart, Platform::Windows, 60),
        "shutdown",
        &["/r", "/t", "0"],
    );
    expect(power_command(PowerAction::Restart, Platform::Linux, 60), "shutdown", &["-r", "now"]);
    expect(power_command(PowerAction::Restart, Platform::MacOs, 60), "shutdown", &["-r", "now"]);
}

#[test]
fn cancel_commands_per_platform() {
    expect(power_command(PowerAction::CancelShutdown, Platform::Windows, 60), "shutdown", &["/a"]);
    expect(power_command(PowerAction::CancelShutdown, Platform::Linux, 60), "shutdown", &["-c"]);
    expect(
        power_command(PowerAction::CancelShutdown, Platform::MacOs, 60),
        "pkill",
        &["-f", "sleep 60 && osascript"],
    );
}

#[test]
fn sleep_commands_per_platform() {
    expect(
        power_command(PowerAction::Sleep, Platform::Windows, 60),
        "rundll32.exe",
        &["powrprof.dll,SetSuspendState", "0,1,0"],
    );
    expect(power_command(PowerAction::Sleep, Platform::Linux, 60), "systemctl", &["suspend"]);
    expect(power_command(PowerAction::Sleep, Platform::MacOs, 60), "pmset", &["sleepnow"]);
}

#[test]
fn grace_period_is_configuration_not_a_literal() {
    assert_eq!(SHUTDOWN_GRACE_SECS, 60);
    expect(
        power_command(PowerAction::Shutdown, Platform::Windows, 90),
        "shutdown",
        &["/s", "/t", "90"],
    );
    expect(
        power_command(PowerAction::Shutdown, Platform::MacOs, 90),
        "sh",
        &["-c", "sleep 90 && osascript -e 'tell app \"System Events\" to shut down' &"],
    );
    expect(
        power_command(PowerAction::CancelShutdown, Platform::MacOs, 90),
        "pkill",
        &["-f", "sleep 90 && osascript"],
    );
}

#[test]
fn unsupported_platform_yields_no_command() {
    for action in [
        PowerAction::Shutdown,
        PowerAction::Restart,
        PowerAction::CancelShutdown,
        PowerAction::Sleep,
    ] {
        assert_eq!(
            power_command(action, Platform::Other, 60),
            Err(ControlError::UnsupportedPlatform)
        );
    }
}

#[test]
fn mixer_set_commands() {
    let (p, a) = words(&pactl_set_command(37));
    assert_eq!(p, "pactl");
    assert_eq!(a, ["set-sink-volume", "@DEFAULT_SINK@", "37%"]);
    let (p, a) = words(&amixer_set_command(37));
    assert_eq!(p, "amixer");
    assert_eq!(a, ["set", "Master", "37%"]);
    let (p, a) = words(&osascript_set_command(37));
    assert_eq!(p, "osascript");
    assert_eq!(a, ["-e", "set volume output volume 37"]);
}

#[test]
fn mixer_adjust_commands() {
    let (_, a) = words(&pactl_adjust_command(2));
    assert_eq!(a[2], "+2%");
    let (_, a) = words(&pactl_adjust_command(-3));
    assert_eq!(a[2], "-3%");
    let (_, a) = words(&amixer_adjust_command(2));
    assert_eq!(a[2], "2%+");
    let (_, a) = words(&amixer_adjust_command(-3));
    assert_eq!(a[2], "3%-");
    let (_, a) = words(&osascript_adjust_command(2));
    assert_eq!(a[1], "set volume output volume (output volume of (get volume settings) + 2)");
    let (_, a) = words(&osascript_adjust_command(-2));
    assert_eq!(a[1], "set volume output volume (output volume of (get volume settings) - 2)");
}

#[test]
fn mixer_get_commands() {
    let (p, a) = words(&pactl_get_command());
    assert_eq!(p, "pactl");
    assert_eq!(a, ["get-sink-volume", "@DEFAULT_SINK@"]);
    let (p, a) = words(&amixer_get_command());
    assert_eq!(p, "amixer");
    assert_eq!(a, ["get", "Master"]);
    let (p, a) = words(&osascript_get_command());
    assert_eq!(p, "osascript");
    assert_eq!(a, ["-e", "output volume of (get volume settings)"]);
}

#[test]
fn decimal_rendering_has_no_leading_zeros() {
    assert_eq!(decimal_string(0), "0");
    assert_eq!(decimal_string(7), "7");
    assert_eq!(decimal_string(60), "60");
    assert_eq!(decimal_string(100), "100");
    assert_eq!(decimal_string(4294967295), "4294967295");
}
