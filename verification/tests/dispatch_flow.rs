use ferrous_control::command::PowerAction;
use ferrous_control::dispatch::adjust_native_outcome;
use ferrous_control::dispatch::adjust_tool_outcome;
use ferrous_control::dispatch::get_volume_outcome;
use ferrous_control::dispatch::plan_action;
use ferrous_control::dispatch::power_outcome;
use ferrous_control::dispatch::set_volume_outcome;
use ferrous_control::dispatch::unsupported_outcome;
use ferrous_control::dispatch::ActionPlan;
use ferrous_control::dispatch::ActionRequest;
use ferrous_control::mixer::OutputShape;
use ferrous_control::outcome::http_status;
use ferrous_control::outcome::ControlError;
use ferrous_control::platform::Platform;
use ferrous_control::volume::VolumeControl;

const GRACE: u32 = 60;

#[test]
fn every_request_is_refused_on_an_unknown_platform() {
    let requests = [
        ActionRequest::Shutdown,
        ActionRequest::Restart,
        ActionRequest::CancelShutdown,
        ActionRequest::Sleep,
        ActionRequest::VolumeGet,
        ActionRequest::VolumeSet(37),
        ActionRequest::VolumeAdjust(2),
    ];
    for req in requests {
        assert_eq!(
            plan_action(req, Platform::Other, GRACE),
            Err(ControlError::UnsupportedPlatform)
        );
    }
    let outcome = unsupported_outcome();
    assert!(!outcome.succeeded);
    assert_eq!(outcome.message, "Unsupported operating system");
    assert!(!outcome.message.is_empty());
    assert_eq!(outcome.value, None);
}

#[test]
fn shutdown_on_unknown_platform_is_a_server_error() {
    let plan = plan_action(ActionRequest::Shutdown, Platform::Other, GRACE);
    assert_eq!(plan, Err(ControlError::UnsupportedPlatform));
    let outcome = unsupported_outcome();
    assert!(!outcome.succeeded);
    assert_eq!(outcome.message, "Unsupported operating system");
    assert_eq!(http_status(&outcome), 500);
}

#[test]
fn cancel_needs_no_prior_shutdown() {
    for platform in [Platform::Windows, Platform::Linux, Platform::MacOs] {
        let plan = plan_action(ActionRequest::CancelShutdown, platform, GRACE)
            .expect("cancel must be planned on every supported platform");
        assert!(matches!(plan, ActionPlan::Launch(_)));
    }
    let outcome = power_outcome(PowerAction::CancelShutdown, Ok(()));
    assert!(outcome.succeeded);
    assert_eq!(outcome.message, "Shutdown cancelled");
}

#[test]
fn power_outcomes_report_launch_results() {
    let ok = power_outcome(PowerAction::Shutdown, Ok(()));
    assert!(ok.succeeded);
    assert_eq!(ok.message, "Shutdown command executed");
    assert_eq!(http_status(&ok), 200);
    let err = power_outcome(PowerAction::Shutdown, Err("No such file".to_string()));
    assert!(!err.succeeded);
    assert_eq!(err.message, "Failed to execute shutdown: No such file");
    assert_eq!(http_status(&err), 500);
    let err = power_outcome(PowerAction::Restart, Err("denied".to_string()));
    assert_eq!(err.message, "Failed to execute restart: denied");
    let err = power_outcome(PowerAction::CancelShutdown, Err("denied".to_string()));
    assert_eq!(err.message, "Failed to cancel shutdown: denied");
    let err = power_outcome(PowerAction::Sleep, Err("denied".to_string()));
    assert_eq!(err.message, "Failed to execute sleep: denied");
    let ok = power_outcome(PowerAction::Sleep, Ok(()));
    assert_eq!(ok.message, "Sleep command executed");
    let ok = power_outcome(PowerAction::Restart, Ok(()));
    assert_eq!(ok.message, "Restart command executed");
}

#[test]
fn set_volume_round_trip_reports_the_level() {
    let plan = plan_action(ActionRequest::VolumeSet(37), Platform::Linux, GRACE).unwrap();
    match plan {
        ActionPlan::LaunchFallback(primary, fallback) => {
            assert_eq!(primary.program, "pactl");
            assert_eq!(primary.args, ["set-sink-volume", "@DEFAULT_SINK@", "37%"]);
            assert_eq!(fallback.program, "amixer");
            assert_eq!(fallback.args, ["set", "Master", "37%"]);
        },
        other => panic!("unexpected plan: {:?}", other),
    }
    let outcome = set_volume_outcome(37, Ok(()));
    assert!(outcome.succeeded);
    assert_eq!(outcome.message, "Volume set to 37%");
    assert_eq!(outcome.value, Some(37));

    let mut native = VolumeControl::new(0);
    native.set_volume(37);
    assert_eq!(native.get_volume(), 37);
}

#[test]
fn set_volume_clamps_before_dispatch() {
    let plan = plan_action(ActionRequest::VolumeSet(250), Platform::Linux, GRACE).unwrap();
    match plan {
        ActionPlan::LaunchFallback(primary, _) => {
            assert_eq!(primary.args[2], "100%");
        },
        other => panic!("unexpected plan: {:?}", other),
    }
    let outcome = set_volume_outcome(250, Ok(()));
    assert_eq!(outcome.message, "Volume set to 100%");
    assert_eq!(outcome.value, Some(100));

    let mut native = VolumeControl::new(0);
    native.set_volume(250);
    assert_eq!(native.get_volume(), 100);

    let plan = plan_action(ActionRequest::VolumeSet(-5), Platform::Windows, GRACE).unwrap();
    assert_eq!(plan, ActionPlan::NativeSet(0));
}

#[test]
fn set_volume_launch_failure_is_reported() {
    let outcome = set_volume_outcome(37, Err("tool missing".to_string()));
    assert!(!outcome.succeeded);
    assert_eq!(outcome.message, "Failed to set volume: tool missing");
    assert_eq!(outcome.value, None);
}

#[test]
fn volume_get_plans_per_platform() {
    assert_eq!(
        plan_action(ActionRequest::VolumeGet, Platform::Windows, GRACE),
        Ok(ActionPlan::NativeGet)
    );
    match plan_action(ActionRequest::VolumeGet, Platform::Linux, GRACE).unwrap() {
        ActionPlan::QueryFallback(primary, s1, fallback, s2) => {
            assert_eq!(primary.program, "pactl");
            assert_eq!(s1, OutputShape::Pactl);
            assert_eq!(fallback.program, "amixer");
            assert_eq!(s2, OutputShape::Amixer);
        },
        other => panic!("unexpected plan: {:?}", other),
    }
    match plan_action(ActionRequest::VolumeGet, Platform::MacOs, GRACE).unwrap() {
        ActionPlan::Query(cmd, shape) => {
            assert_eq!(cmd.program, "osascript");
            assert_eq!(shape, OutputShape::Osascript);
        },
        other => panic!("unexpected plan: {:?}", other),
    }
}

#[test]
fn volume_adjust_plans_per_platform() {
    assert_eq!(
        plan_action(ActionRequest::VolumeAdjust(2), Platform::Windows, GRACE),
        Ok(ActionPlan::NativeAdjust(2))
    );
    match plan_action(ActionRequest::VolumeAdjust(-2), Platform::Linux, GRACE).unwrap() {
        ActionPlan::LaunchFallback(primary, fallback) => {
            assert_eq!(primary.args[2], "-2%");
            assert_eq!(fallback.args[2], "2%-");
        },
        other => panic!("unexpected plan: {:?}", other),
    }
}

#[test]
fn adjust_outcomes_report_both_styles() {
    let ok = adjust_tool_outcome(2, Ok(()));
    assert!(ok.succeeded);
    assert_eq!(ok.message, "Volume increased by 2");
    assert_eq!(ok.value, None);
    let ok = adjust_tool_outcome(-3, Ok(()));
    assert_eq!(ok.message, "Volume decreased by 3");
    let err = adjust_tool_outcome(2, Err("gone".to_string()));
    assert_eq!(err.message, "Failed to increase volume: gone");
    let err = adjust_tool_outcome(-2, Err("gone".to_string()));
    assert_eq!(err.message, "Failed to decrease volume: gone");

    let ok = adjust_native_outcome(2, Ok(42));
    assert!(ok.succeeded);
    assert_eq!(ok.message, "Volume increased to 42%");
    assert_eq!(ok.value, Some(42));
    let ok = adjust_native_outcome(-2, Ok(40));
    assert_eq!(ok.message, "Volume decreased to 40%");
    let err = adjust_native_outcome(2, Err("endpoint lost".to_string()));
    assert!(!err.succeeded);
    assert_eq!(err.message, "Failed to increase volume: endpoint lost");
}

#[test]
fn get_outcomes_carry_the_level_or_the_error() {
    let ok = get_volume_outcome(Ok(37));
    assert!(ok.succeeded);
    assert_eq!(ok.value, Some(37));
    let parse = get_volume_outcome(Err(ControlError::ParseFailure));
    assert!(!parse.succeeded);
    assert_eq!(parse.message, "Failed to parse volume");
    let launch = get_volume_outcome(Err(ControlError::LaunchFailure("oops".to_string())));
    assert_eq!(launch.message, "Failed to get volume: oops");
    let unavailable = get_volume_outcome(Err(ControlError::BackendUnavailable("oops".to_string())));
    assert_eq!(unavailable.message, "Failed to get volume: oops");
    let unsupported = get_volume_outcome(Err(ControlError::UnsupportedPlatform));
    assert_eq!(unsupported.message, "Unsupported operating system");
}

#[test]
fn native_adjust_flow_matches_the_model() {
    let mut native = VolumeControl::new(96);
    let new_level = native.increase_volume(2);
    let outcome = adjust_native_outcome(2, Ok(new_level));
    assert_eq!(outcome.message, "Volume increased to 98%");
    let new_level = native.increase_volume(5);
    let outcome = adjust_native_outcome(5, Ok(new_level));
    assert_eq!(outcome.message, "Volume increased to 100%");
}
