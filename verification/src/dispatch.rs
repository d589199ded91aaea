//! The action dispatcher: the single decision point both front ends call.
//!
//! A logical request is first turned into a plan — which backend to invoke
//! and how — and, once the unverified shell has carried the plan out, the
//! backend's report is normalized into the uniform outcome. The dispatcher
//! holds no state between calls: every request is planned and concluded from
//! its arguments alone.

use vstd::prelude::*;
use crate::command::power_command;
use crate::command::spec_power_command;
use crate::command::CommandSpec;
use crate::command::PowerAction;
use crate::mixer::amixer_adjust_command;
use crate::mixer::amixer_get_command;
use crate::mixer::amixer_set_command;
use crate::mixer::osascript_adjust_command;
use crate::mixer::osascript_get_command;
use crate::mixer::osascript_set_command;
use crate::mixer::pactl_adjust_command;
use crate::mixer::pactl_get_command;
use crate::mixer::pactl_set_command;
use crate::mixer::spec_amixer_adjust;
use crate::mixer::spec_amixer_get;
use crate::mixer::spec_amixer_set;
use crate::mixer::spec_osascript_adjust;
use crate::mixer::spec_osascript_get;
use crate::mixer::spec_osascript_set;
use crate::mixer::spec_pactl_adjust;
use crate::mixer::spec_pactl_get;
use crate::mixer::spec_pactl_set;
use crate::mixer::OutputShape;
use crate::outcome::ActionOutcome;
use crate::outcome::ControlError;
use crate::platform::Platform;
use crate::text::dec_digits;
use crate::text::push_decimal;
use crate::volume::clamp_level;
use crate::volume::clamp_volume;

verus! {

/// A logical request, as either front end hands it in: a tagged choice of
/// power action or volume operation, constructed per call and never retained.
#[derive(Clone, Copy, PartialEq, Eq, Structural, Debug)]
pub enum ActionRequest {
    Shutdown,
    Restart,
    CancelShutdown,
    Sleep,
    VolumeGet,
    /// Set the output volume to this percentage; out-of-range levels are
    /// clamped before dispatch.
    VolumeSet(i32),
    /// Adjust the output volume by this signed step.
    VolumeAdjust(i32),
}

/// What the unverified shell must do to carry a request out.
#[derive(Clone, PartialEq, Eq, Debug)]
pub enum ActionPlan {
    /// Launch the command fire-and-forget; report only whether the launch
    /// itself succeeded.
    Launch(CommandSpec),
    /// Launch the first command; if its launch fails, launch the second.
    LaunchFallback(CommandSpec, CommandSpec),
    /// Run the command, wait for its output, and parse it under the given
    /// shape.
    Query(CommandSpec, OutputShape),
    /// As `Query` with the first pair, but if the first launch fails, query
    /// with the second pair instead.
    QueryFallback(CommandSpec, OutputShape, CommandSpec, OutputShape),
    /// Read the level from the native audio endpoint.
    NativeGet,
    /// Set the native audio endpoint to this already-clamped level.
    NativeSet(i32),
    /// Adjust the native audio endpoint by this signed step.
    NativeAdjust(i32),
}

/// The power action a request stands for, if any.
pub open spec fn spec_power_action_of(req: ActionRequest) -> Option<PowerAction> {
    match req {
        ActionRequest::Shutdown => Some(PowerAction::Shutdown),
        ActionRequest::Restart => Some(PowerAction::Restart),
        ActionRequest::CancelShutdown => Some(PowerAction::CancelShutdown),
        ActionRequest::Sleep => Some(PowerAction::Sleep),
        _ => None,
    }
}

/// The plan the dispatcher owes for `req` on `p` with grace period `grace`:
/// exactly one plan satisfies this for every request on every supported
/// family, and none on an unsupported one.
pub open spec fn spec_plan_ok(
    req: ActionRequest,
    p: Platform,
    grace: nat,
    plan: ActionPlan,
) -> bool {
    match spec_power_action_of(req) {
        Some(a) => plan matches ActionPlan::Launch(c) && Some((c.program@, c.arg_views()))
            == spec_power_command(a, p, grace),
        None => match req {
            ActionRequest::VolumeGet => match p {
                Platform::Windows => plan == ActionPlan::NativeGet,
                Platform::Linux => plan matches ActionPlan::QueryFallback(c1, s1, c2, s2)
                    && c1.is_command(spec_pactl_get().0, spec_pactl_get().1) && s1
                    == OutputShape::Pactl && c2.is_command(spec_amixer_get().0, spec_amixer_get().1)
                    && s2 == OutputShape::Amixer,
                Platform::MacOs => plan matches ActionPlan::Query(c, s) && c.is_command(
                    spec_osascript_get().0,
                    spec_osascript_get().1,
                ) && s == OutputShape::Osascript,
                Platform::Other => false,
            },
            ActionRequest::VolumeSet(v) => {
                let lv = clamp_level(v as int) as nat;
                match p {
                    Platform::Windows => plan == ActionPlan::NativeSet(
                        clamp_level(v as int) as i32,
                    ),
                    Platform::Linux => plan matches ActionPlan::LaunchFallback(c1, c2)
                        && c1.is_command(spec_pactl_set(lv).0, spec_pactl_set(lv).1)
                        && c2.is_command(spec_amixer_set(lv).0, spec_amixer_set(lv).1),
                    Platform::MacOs => plan matches ActionPlan::Launch(c) && c.is_command(
                        spec_osascript_set(lv).0,
                        spec_osascript_set(lv).1,
                    ),
                    Platform::Other => false,
                }
            },
            ActionRequest::VolumeAdjust(d) => match p {
                Platform::Windows => plan == ActionPlan::NativeAdjust(d),
                Platform::Linux => plan matches ActionPlan::LaunchFallback(c1, c2)
                    && c1.is_command(spec_pactl_adjust(d as int).0, spec_pactl_adjust(d as int).1)
                    && c2.is_command(
                    spec_amixer_adjust(d as int).0,
                    spec_amixer_adjust(d as int).1,
                ),
                Platform::MacOs => plan matches ActionPlan::Launch(c) && c.is_command(
                    spec_osascript_adjust(d as int).0,
                    spec_osascript_adjust(d as int).1,
                ),
                Platform::Other => false,
            },
            _ => false,
        },
    }
}

/// Map a logical request to the backend plan that carries it out on the
/// given platform family.
///
/// An unsupported family yields `UnsupportedPlatform` — and nothing else
/// ever does — so no launch is attempted there; every supported family
/// yields exactly the plan [`spec_plan_ok`] describes.
pub fn plan_action(req: ActionRequest, platform: Platform, grace_secs: u32) -> (r: Result<
    ActionPlan,
    ControlError,
>)
    ensures
        platform == Platform::Other <==> r is Err,
        r is Err ==> r == Err::<ActionPlan, ControlError>(ControlError::UnsupportedPlatform),
        r matches Ok(plan) ==> spec_plan_ok(req, platform, grace_secs as nat, plan),
{
    match platform {
        Platform::Other => Err(ControlError::UnsupportedPlatform),
        _ => match req {
            ActionRequest::Shutdown => match power_command(
                PowerAction::Shutdown,
                platform,
                grace_secs,
            ) {
                Ok(c) => Ok(ActionPlan::Launch(c)),
                Err(e) => Err(e),
            },
            ActionRequest::Restart => match power_command(
                PowerAction::Restart,
                platform,
                grace_secs,
            ) {
                Ok(c) => Ok(ActionPlan::Launch(c)),
                Err(e) => Err(e),
            },
            ActionRequest::CancelShutdown => match power_command(
                PowerAction::CancelShutdown,
                platform,
                grace_secs,
            ) {
                Ok(c) => Ok(ActionPlan::Launch(c)),
                Err(e) => Err(e),
            },
            ActionRequest::Sleep => match power_command(
                PowerAction::Sleep,
                platform,
                grace_secs,
            ) {
                Ok(c) => Ok(ActionPlan::Launch(c)),
                Err(e) => Err(e),
            },
            ActionRequest::VolumeGet => match platform {
                Platform::Windows => Ok(ActionPlan::NativeGet),
                Platform::Linux => Ok(
                    ActionPlan::QueryFallback(
                        pactl_get_command(),
                        OutputShape::Pactl,
                        amixer_get_command(),
                        OutputShape::Amixer,
                    ),
                ),
                _ => Ok(ActionPlan::Query(osascript_get_command(), OutputShape::Osascript)),
            },
            ActionRequest::VolumeSet(v) => {
                let lv = clamp_volume(v);
                match platform {
                    Platform::Windows => Ok(ActionPlan::NativeSet(lv)),
                    Platform::Linux => Ok(
                        ActionPlan::LaunchFallback(
                            pactl_set_command(lv as u32),
                            amixer_set_command(lv as u32),
                        ),
                    ),
                    _ => Ok(ActionPlan::Launch(osascript_set_command(lv as u32))),
                }
            },
            ActionRequest::VolumeAdjust(d) => match platform {
                Platform::Windows => Ok(ActionPlan::NativeAdjust(d)),
                Platform::Linux => Ok(
                    ActionPlan::LaunchFallback(pactl_adjust_command(d), amixer_adjust_command(d)),
                ),
                _ => Ok(ActionPlan::Launch(osascript_adjust_command(d))),
            },
        },
    }
}

/// The success message for a launched power action.
pub open spec fn spec_power_success_message(a: PowerAction) -> Seq<char> {
    match a {
        PowerAction::Shutdown => "Shutdown command executed"@,
        PowerAction::Restart => "Restart command executed"@,
        PowerAction::CancelShutdown => "Shutdown cancelled"@,
        PowerAction::Sleep => "Sleep command executed"@,
    }
}

/// The failure-message prefix for a power action whose launch failed; the
/// operating system's own error text follows it.
pub open spec fn spec_power_failure_prefix(a: PowerAction) -> Seq<char> {
    match a {
        PowerAction::Shutdown => "Failed to execute shutdown: "@,
        PowerAction::Restart => "Failed to execute restart: "@,
        PowerAction::CancelShutdown => "Failed to cancel shutdown: "@,
        PowerAction::Sleep => "Failed to execute sleep: "@,
    }
}

/// The success message for a volume set: reports the clamped level.
pub open spec fn spec_set_success_message(level: nat) -> Seq<char> {
    "Volume set to "@ + dec_digits(level) + "%"@
}

/// The success message for a fire-and-forget volume adjustment.
pub open spec fn spec_adjust_tool_success_message(delta: int) -> Seq<char> {
    if delta >= 0 {
        "Volume increased by "@ + dec_digits(delta as nat)
    } else {
        "Volume decreased by "@ + dec_digits((-delta) as nat)
    }
}

/// The success message for a native volume adjustment: reports the resulting
/// level.
pub open spec fn spec_adjust_native_success_message(delta: int, new_level: nat) -> Seq<char> {
    if delta >= 0 {
        "Volume increased to "@ + dec_digits(new_level) + "%"@
    } else {
        "Volume decreased to "@ + dec_digits(new_level) + "%"@
    }
}

/// The failure-message prefix for a volume adjustment.
pub open spec fn spec_adjust_failure_prefix(delta: int) -> Seq<char> {
    if delta >= 0 {
        "Failed to increase volume: "@
    } else {
        "Failed to decrease volume: "@
    }
}

/// The failure message for a volume query.
pub open spec fn spec_get_failure_message(e: ControlError) -> Seq<char> {
    match e {
        ControlError::UnsupportedPlatform => "Unsupported operating system"@,
        ControlError::ParseFailure => "Failed to parse volume"@,
        ControlError::LaunchFailure(t) => "Failed to get volume: "@ + t@,
        ControlError::BackendUnavailable(t) => "Failed to get volume: "@ + t@,
    }
}

/// The failure outcome for a request on an unsupported platform family: it
/// never succeeds and always explains itself.
pub fn unsupported_outcome() -> (o: ActionOutcome)
    ensures
        o.wf(),
        !o.succeeded,
        o.message@ == "Unsupported operating system"@,
        o.message@.len() > 0,
        o.value is None,
{
    proof {
        reveal_strlit("Unsupported operating system");
    }
    ActionOutcome {
        succeeded: false,
        message: String::from_str("Unsupported operating system"),
        value: None,
    }
}

/// Normalize a power action's launch report: a successful launch is success
/// (the process's own later fate is deliberately not waited for), a failed
/// launch carries the operating system's error text.
pub fn power_outcome(action: PowerAction, launch: Result<(), String>) -> (o: ActionOutcome)
    ensures
        o.wf(),
        o.value is None,
        launch matches Ok(_) ==> o.succeeded && o.message@ == spec_power_success_message(action),
        launch matches Err(e) ==> !o.succeeded && o.message@ == spec_power_failure_prefix(action)
            + e@,
{
    match launch {
        Ok(_) => {
            let message = match action {
                PowerAction::Shutdown => String::from_str("Shutdown command executed"),
                PowerAction::Restart => String::from_str("Restart command executed"),
                PowerAction::CancelShutdown => String::from_str("Shutdown cancelled"),
                PowerAction::Sleep => String::from_str("Sleep command executed"),
            };
            ActionOutcome { succeeded: true, message, value: None }
        },
        Err(e) => {
            proof {
                reveal_strlit("Failed to execute shutdown: ");
                reveal_strlit("Failed to execute restart: ");
                reveal_strlit("Failed to cancel shutdown: ");
                reveal_strlit("Failed to execute sleep: ");
            }
            let mut message = match action {
                PowerAction::Shutdown => String::from_str("Failed to execute shutdown: "),
                PowerAction::Restart => String::from_str("Failed to execute restart: "),
                PowerAction::CancelShutdown => String::from_str("Failed to cancel shutdown: "),
                PowerAction::Sleep => String::from_str("Failed to execute sleep: "),
            };
            message.append(e.as_str());
            ActionOutcome { succeeded: false, message, value: None }
        },
    }
}

/// Normalize a volume set's launch report. The message and the reported
/// value carry the clamped level actually dispatched.
pub fn set_volume_outcome(level: i32, launch: Result<(), String>) -> (o: ActionOutcome)
    ensures
        o.wf(),
        launch matches Ok(_) ==> o.succeeded && o.message@ == spec_set_success_message(
            clamp_level(level as int) as nat,
        ) && o.value == Some(clamp_level(level as int) as i32),
        launch matches Err(e) ==> !o.succeeded && o.message@ == "Failed to set volume: "@ + e@
            && o.value is None,
{
    let lv = clamp_volume(level);
    match launch {
        Ok(_) => {
            let mut message = String::from_str("Volume set to ");
            push_decimal(&mut message, lv as u32);
            message.append("%");
            ActionOutcome { succeeded: true, message, value: Some(lv) }
        },
        Err(e) => {
            proof {
                reveal_strlit("Failed to set volume: ");
            }
            let mut message = String::from_str("Failed to set volume: ");
            message.append(e.as_str());
            ActionOutcome { succeeded: false, message, value: None }
        },
    }
}

/// Normalize a fire-and-forget volume adjustment's launch report: the tools
/// do not report a resulting level, so none is carried.
pub fn adjust_tool_outcome(delta: i32, launch: Result<(), String>) -> (o: ActionOutcome)
    ensures
        o.wf(),
        o.value is None,
        launch matches Ok(_) ==> o.succeeded && o.message@ == spec_adjust_tool_success_message(
            delta as int,
        ),
        launch matches Err(e) ==> !o.succeeded && o.message@ == spec_adjust_failure_prefix(
            delta as int,
        ) + e@,
{
    match launch {
        Ok(_) => {
            let mut message = if delta >= 0 {
                String::from_str("Volume increased by ")
            } else {
                String::from_str("Volume decreased by ")
            };
            if delta >= 0 {
                push_decimal(&mut message, delta as u32);
            } else {
                push_decimal(&mut message, (-(delta as i64)) as u32);
            }
            ActionOutcome { succeeded: true, message, value: None }
        },
        Err(e) => {
            proof {
                reveal_strlit("Failed to increase volume: ");
                reveal_strlit("Failed to decrease volume: ");
            }
            let mut message = if delta >= 0 {
                String::from_str("Failed to increase volume: ")
            } else {
                String::from_str("Failed to decrease volume: ")
            };
            message.append(e.as_str());
            ActionOutcome { succeeded: false, message, value: None }
        },
    }
}

/// Normalize a native volume adjustment's report: success carries the
/// resulting level (clamped into range) in both the message and the value.
pub fn adjust_native_outcome(delta: i32, result: Result<i32, String>) -> (o: ActionOutcome)
    ensures
        o.wf(),
        result matches Ok(v) ==> o.succeeded && o.message@ == spec_adjust_native_success_message(
            delta as int,
            clamp_level(v as int) as nat,
        ) && o.value == Some(clamp_level(v as int) as i32),
        result matches Err(e) ==> !o.succeeded && o.message@ == spec_adjust_failure_prefix(
            delta as int,
        ) + e@ && o.value is None,
{
    match result {
        Ok(v) => {
            let lv = clamp_volume(v);
            let mut message = if delta >= 0 {
                String::from_str("Volume increased to ")
            } else {
                String::from_str("Volume decreased to ")
            };
            push_decimal(&mut message, lv as u32);
            message.append("%");
            ActionOutcome { succeeded: true, message, value: Some(lv) }
        },
        Err(e) => {
            proof {
                reveal_strlit("Failed to increase volume: ");
                reveal_strlit("Failed to decrease volume: ");
            }
            let mut message = if delta >= 0 {
                String::from_str("Failed to increase volume: ")
            } else {
                String::from_str("Failed to decrease volume: ")
            };
            message.append(e.as_str());
            ActionOutcome { succeeded: false, message, value: None }
        },
    }
}

/// Normalize a volume query's result: success carries the level (clamped
/// into range) as the value, failure the query's own error message.
pub fn get_volume_outcome(result: Result<i32, ControlError>) -> (o: ActionOutcome)
    ensures
        o.wf(),
        result matches Ok(v) ==> o.succeeded && o.value == Some(clamp_level(v as int) as i32)
            && o.message@.len() == 0,
        result matches Err(e) ==> !o.succeeded && o.message@ == spec_get_failure_message(e)
            && o.value is None,
{
    match result {
        Ok(v) => {
            let lv = clamp_volume(v);
            ActionOutcome { succeeded: true, message: String::new(), value: Some(lv) }
        },
        Err(e) => {
            proof {
                reveal_strlit("Unsupported operating system");
                reveal_strlit("Failed to parse volume");
                reveal_strlit("Failed to get volume: ");
            }
            let message = match e {
                ControlError::UnsupportedPlatform => String::from_str(
                    "Unsupported operating system",
                ),
                ControlError::ParseFailure => String::from_str("Failed to parse volume"),
                ControlError::LaunchFailure(t) => {
                    let mut m = String::from_str("Failed to get volume: ");
                    m.append(t.as_str());
                    m
                },
                ControlError::BackendUnavailable(t) => {
                    let mut m = String::from_str("Failed to get volume: ");
                    m.append(t.as_str());
                    m
                },
            };
            ActionOutcome { succeeded: false, message, value: None }
        },
    }
}

/// On an unsupported platform family no plan whatsoever satisfies the
/// dispatcher's obligation: no command is ever produced there, so no process
/// launch can be attempted for any request.
pub proof fn lemma_no_plan_on_unsupported(req: ActionRequest, grace: nat, plan: ActionPlan)
    ensures
        !spec_plan_ok(req, Platform::Other, grace, plan),
{
}

/// Cancelling a shutdown is best-effort: on every supported family the
/// dispatcher owes a plain launch plan for it, whatever happened before —
/// the dispatcher keeps no state, so no prior shutdown is ever required.
pub proof fn lemma_cancel_always_planned(p: Platform, grace: nat)
    requires
        p != Platform::Other,
    ensures
        spec_power_command(PowerAction::CancelShutdown, p, grace) is Some,
{
}

} // verus!
