//! The platform command adapter: the external command line that realizes each
//! logical power action on each operating system family.
//!
//! The adapter only decides what to launch. Launching is fire-and-forget and
//! happens outside the library; the caller reports back only whether the
//! launch itself succeeded.

use vstd::prelude::*;
use crate::outcome::ControlError;
use crate::platform::Platform;
use crate::text::dec_digits;
use crate::text::push_decimal;

verus! {

/// The grace period, in seconds, between a shutdown request and the actual
/// shutdown, on the families whose command takes one. It is configuration
/// shared by every call site, so the cancel pattern always matches what the
/// shutdown command started.
pub const SHUTDOWN_GRACE_SECS: u32 = 60;

/// A logical power action, independent of platform.
#[derive(Clone, Copy, PartialEq, Eq, Structural, Debug)]
pub enum PowerAction {
    Shutdown,
    Restart,
    CancelShutdown,
    Sleep,
}

/// An external command to launch: a program name and its argument list.
#[derive(Clone, PartialEq, Eq, Debug)]
pub struct CommandSpec {
    pub program: String,
    pub args: Vec<String>,
}

impl CommandSpec {
    /// The argument list as a sequence of character sequences.
    pub open spec fn arg_views(self) -> Seq<Seq<char>> {
        self.args@.map_values(|a: String| a@)
    }

    /// The command is exactly `program` with arguments `args`.
    pub open spec fn is_command(self, program: Seq<char>, args: Seq<Seq<char>>) -> bool {
        self.program@ == program && self.arg_views() == args
    }
}

/// Build a command with one argument.
pub(crate) fn cmd1(program: &str, a0: String) -> (c: CommandSpec)
    ensures
        c.is_command(program@, seq![a0@]),
{
    let mut args: Vec<String> = Vec::new();
    args.push(a0);
    let c = CommandSpec { program: program.to_owned(), args };
    proof {
        assert(c.arg_views() =~= seq![a0@]);
    }
    c
}

/// Build a command with two arguments.
pub(crate) fn cmd2(program: &str, a0: String, a1: String) -> (c: CommandSpec)
    ensures
        c.is_command(program@, seq![a0@, a1@]),
{
    let mut args: Vec<String> = Vec::new();
    args.push(a0);
    args.push(a1);
    let c = CommandSpec { program: program.to_owned(), args };
    proof {
        assert(c.arg_views() =~= seq![a0@, a1@]);
    }
    c
}

/// Build a command with three arguments.
pub(crate) fn cmd3(program: &str, a0: String, a1: String, a2: String) -> (c: CommandSpec)
    ensures
        c.is_command(program@, seq![a0@, a1@, a2@]),
{
    let mut args: Vec<String> = Vec::new();
    args.push(a0);
    args.push(a1);
    args.push(a2);
    let c = CommandSpec { program: program.to_owned(), args };
    proof {
        assert(c.arg_views() =~= seq![a0@, a1@, a2@]);
    }
    c
}

/// The scripted delayed shutdown used where no native delay flag exists:
/// sleep out the grace period, then ask the system to shut down, in the
/// background.
pub open spec fn spec_delayed_shutdown_script(grace: nat) -> Seq<char> {
    "sleep "@ + dec_digits(grace) + " && osascript -e 'tell app \"System Events\" to shut down' &"@
}

/// The process pattern that cancels the scripted delayed shutdown: it matches
/// the helper the shutdown script started.
pub open spec fn spec_delayed_shutdown_pattern(grace: nat) -> Seq<char> {
    "sleep "@ + dec_digits(grace) + " && osascript"@
}

/// The command that realizes `action` on `platform`, or nothing for a family
/// without a backend. `grace` is the pre-shutdown grace period in seconds.
pub open spec fn spec_power_command(action: PowerAction, platform: Platform, grace: nat) -> Option<
    (Seq<char>, Seq<Seq<char>>),
> {
    match platform {
        Platform::Windows => Some(
            match action {
                PowerAction::Shutdown => ("shutdown"@, seq!["/s"@, "/t"@, dec_digits(grace)]),
                PowerAction::Restart => ("shutdown"@, seq!["/r"@, "/t"@, "0"@]),
                PowerAction::CancelShutdown => ("shutdown"@, seq!["/a"@]),
                PowerAction::Sleep => (
                    "rundll32.exe"@,
                    seq!["powrprof.dll,SetSuspendState"@, "0,1,0"@],
                ),
            },
        ),
        Platform::Linux => Some(
            match action {
                PowerAction::Shutdown => ("shutdown"@, seq!["-h"@, "+1"@]),
                PowerAction::Restart => ("shutdown"@, seq!["-r"@, "now"@]),
                PowerAction::CancelShutdown => ("shutdown"@, seq!["-c"@]),
                PowerAction::Sleep => ("systemctl"@, seq!["suspend"@]),
            },
        ),
        Platform::MacOs => Some(
            match action {
                PowerAction::Shutdown => ("sh"@, seq!["-c"@, spec_delayed_shutdown_script(grace)]),
                PowerAction::Restart => ("shutdown"@, seq!["-r"@, "now"@]),
                PowerAction::CancelShutdown => (
                    "pkill"@,
                    seq!["-f"@, spec_delayed_shutdown_pattern(grace)],
                ),
                PowerAction::Sleep => ("pmset"@, seq!["sleepnow"@]),
            },
        ),
        Platform::Other => None,
    }
}

/// The scripted delayed shutdown, rendered.
fn delayed_shutdown_script(grace: u32) -> (s: String)
    ensures
        s@ == spec_delayed_shutdown_script(grace as nat),
{
    let mut s = String::from_str("sleep ");
    push_decimal(&mut s, grace);
    s.append(" && osascript -e 'tell app \"System Events\" to shut down' &");
    s
}

/// The cancel pattern for the scripted delayed shutdown, rendered.
fn delayed_shutdown_pattern(grace: u32) -> (s: String)
    ensures
        s@ == spec_delayed_shutdown_pattern(grace as nat),
{
    let mut s = String::from_str("sleep ");
    push_decimal(&mut s, grace);
    s.append(" && osascript");
    s
}

/// Produce the external command for a logical power action on the given
/// platform family, with the given pre-shutdown grace period in seconds.
///
/// An unsupported family is rejected up front — no command exists, so no
/// launch can even be attempted — and every supported family gets exactly the
/// command of [`spec_power_command`].
pub fn power_command(action: PowerAction, platform: Platform, grace_secs: u32) -> (r: Result<
    CommandSpec,
    ControlError,
>)
    ensures
        platform == Platform::Other <==> r is Err,
        r is Err ==> r == Err::<CommandSpec, ControlError>(ControlError::UnsupportedPlatform),
        r matches Ok(c) ==> Some((c.program@, c.arg_views())) == spec_power_command(
            action,
            platform,
            grace_secs as nat,
        ),
{
    let grace_digits = crate::text::decimal_string(grace_secs);
    match platform {
        Platform::Windows => Ok(
            match action {
                PowerAction::Shutdown => cmd3(
                    "shutdown",
                    "/s".to_owned(),
                    "/t".to_owned(),
                    grace_digits,
                ),
                PowerAction::Restart => cmd3(
                    "shutdown",
                    "/r".to_owned(),
                    "/t".to_owned(),
                    "0".to_owned(),
                ),
                PowerAction::CancelShutdown => cmd1("shutdown", "/a".to_owned()),
                PowerAction::Sleep => cmd2(
                    "rundll32.exe",
                    "powrprof.dll,SetSuspendState".to_owned(),
                    "0,1,0".to_owned(),
                ),
            },
        ),
        Platform::Linux => Ok(
            match action {
                PowerAction::Shutdown => cmd2("shutdown", "-h".to_owned(), "+1".to_owned()),
                PowerAction::Restart => cmd2("shutdown", "-r".to_owned(), "now".to_owned()),
                PowerAction::CancelShutdown => cmd1("shutdown", "-c".to_owned()),
                PowerAction::Sleep => cmd1("systemctl", "suspend".to_owned()),
            },
        ),
        Platform::MacOs => Ok(
            match action {
                PowerAction::Shutdown => cmd2(
                    "sh",
                    "-c".to_owned(),
                    delayed_shutdown_script(grace_secs),
                ),
                PowerAction::Restart => cmd2("shutdown", "-r".to_owned(), "now".to_owned()),
                PowerAction::CancelShutdown => cmd2(
                    "pkill",
                    "-f".to_owned(),
                    delayed_shutdown_pattern(grace_secs),
                ),
                PowerAction::Sleep => cmd1("pmset", "sleepnow".to_owned()),
            },
        ),
        Platform::Other => Err(ControlError::UnsupportedPlatform),
    }
}

} // verus!
