//! The command-line volume backends: the mixer tool invocations that get,
//! set and adjust the output volume where no structured audio API exists,
//! and the parsers that read a percentage back out of each tool's output.
//!
//! One family shells out to a primary mixer tool and falls back to a second
//! on launch failure; the remaining family uses a single scripting-bridge
//! call. Setters and adjusters are fire-and-forget; only getters wait for
//! output and parse it.

use vstd::prelude::*;
use crate::command::cmd2;
use crate::command::cmd3;
use crate::command::CommandSpec;
use crate::outcome::ControlError;
use crate::parse::find_from;
use crate::parse::is_ascii_digit;
use crate::parse::is_ascii_ws;
use crate::parse::spec_trim_end;
use crate::parse::spec_trim_start;
use crate::parse::parse_i32;
use crate::parse::rfind_ws;
use crate::parse::spec_find_from;
use crate::parse::spec_parse_i32;
use crate::parse::spec_rfind_ws;
use crate::parse::spec_trim;
use crate::parse::trim_bounds;
use crate::parse::OPEN_BRACKET;
use crate::parse::PERCENT;
use crate::text::ascii_bytes_of;
use crate::text::dec_digits;
use crate::text::decimal_string;
use crate::text::push_decimal;
use crate::volume::clamp_level;
use crate::volume::clamp_volume;
use vstd::slice::slice_subrange;

verus! {

/// Which tool's output shape a volume query must be parsed with.
#[derive(Clone, Copy, PartialEq, Eq, Structural, Debug)]
pub enum OutputShape {
    /// `Volume: front-left: 65536 / 100% / 0.00 dB`: the digits between the
    /// last whitespace and the first `%`.
    Pactl,
    /// `... Playback 65536 [100%] [on]`: the digits between the first `[`
    /// and the `%` after it.
    Amixer,
    /// A bare integer, possibly surrounded by whitespace.
    Osascript,
}

/// An absolute level rendered as a percentage argument: `NN%`.
pub open spec fn spec_percent_arg(level: nat) -> Seq<char> {
    dec_digits(level) + "%"@
}

/// A relative step rendered for the primary tool: `+NN%` or `-NN%`.
pub open spec fn spec_signed_percent_arg(delta: int) -> Seq<char> {
    if delta >= 0 {
        "+"@ + dec_digits(delta as nat) + "%"@
    } else {
        "-"@ + dec_digits((-delta) as nat) + "%"@
    }
}

/// A relative step rendered for the fallback tool: `NN%+` or `NN%-`.
pub open spec fn spec_amixer_step_arg(delta: int) -> Seq<char> {
    if delta >= 0 {
        dec_digits(delta as nat) + "%+"@
    } else {
        dec_digits((-delta) as nat) + "%-"@
    }
}

/// The scripting-bridge statement that sets the output volume to `level`.
pub open spec fn spec_set_volume_script(level: nat) -> Seq<char> {
    "set volume output volume "@ + dec_digits(level)
}

/// The scripting-bridge statement that adjusts the output volume by `delta`.
pub open spec fn spec_adjust_volume_script(delta: int) -> Seq<char> {
    "set volume output volume (output volume of (get volume settings) "@ + (if delta >= 0 {
        "+ "@
    } else {
        "- "@
    }) + dec_digits((if delta >= 0 {
        delta
    } else {
        -delta
    }) as nat) + ")"@
}

/// The primary mixer tool's set command.
pub open spec fn spec_pactl_set(level: nat) -> (Seq<char>, Seq<Seq<char>>) {
    ("pactl"@, seq!["set-sink-volume"@, "@DEFAULT_SINK@"@, spec_percent_arg(level)])
}

/// The fallback mixer tool's set command.
pub open spec fn spec_amixer_set(level: nat) -> (Seq<char>, Seq<Seq<char>>) {
    ("amixer"@, seq!["set"@, "Master"@, spec_percent_arg(level)])
}

/// The scripting-bridge set command.
pub open spec fn spec_osascript_set(level: nat) -> (Seq<char>, Seq<Seq<char>>) {
    ("osascript"@, seq!["-e"@, spec_set_volume_script(level)])
}

/// The primary mixer tool's relative-adjust command.
pub open spec fn spec_pactl_adjust(delta: int) -> (Seq<char>, Seq<Seq<char>>) {
    ("pactl"@, seq!["set-sink-volume"@, "@DEFAULT_SINK@"@, spec_signed_percent_arg(delta)])
}

/// The fallback mixer tool's relative-adjust command.
pub open spec fn spec_amixer_adjust(delta: int) -> (Seq<char>, Seq<Seq<char>>) {
    ("amixer"@, seq!["set"@, "Master"@, spec_amixer_step_arg(delta)])
}

/// The scripting-bridge relative-adjust command.
pub open spec fn spec_osascript_adjust(delta: int) -> (Seq<char>, Seq<Seq<char>>) {
    ("osascript"@, seq!["-e"@, spec_adjust_volume_script(delta)])
}

/// The primary mixer tool's query command.
pub open spec fn spec_pactl_get() -> (Seq<char>, Seq<Seq<char>>) {
    ("pactl"@, seq!["get-sink-volume"@, "@DEFAULT_SINK@"@])
}

/// The fallback mixer tool's query command.
pub open spec fn spec_amixer_get() -> (Seq<char>, Seq<Seq<char>>) {
    ("amixer"@, seq!["get"@, "Master"@])
}

/// The scripting-bridge query command.
pub open spec fn spec_osascript_get() -> (Seq<char>, Seq<Seq<char>>) {
    ("osascript"@, seq!["-e"@, "output volume of (get volume settings)"@])
}

/// Render `NN%`.
fn percent_arg(level: u32) -> (s: String)
    ensures
        s@ == spec_percent_arg(level as nat),
{
    let mut s = decimal_string(level);
    s.append("%");
    s
}

/// Render `+NN%` or `-NN%`.
fn signed_percent_arg(delta: i32) -> (s: String)
    ensures
        s@ == spec_signed_percent_arg(delta as int),
{
    let mut s = String::new();
    if delta >= 0 {
        s.append("+");
        push_decimal(&mut s, delta as u32);
    } else {
        s.append("-");
        push_decimal(&mut s, (-(delta as i64)) as u32);
    }
    s.append("%");
    s
}

/// Render `NN%+` or `NN%-`.
fn amixer_step_arg(delta: i32) -> (s: String)
    ensures
        s@ == spec_amixer_step_arg(delta as int),
{
    let mut s = String::new();
    if delta >= 0 {
        push_decimal(&mut s, delta as u32);
        s.append("%+");
    } else {
        push_decimal(&mut s, (-(delta as i64)) as u32);
        s.append("%-");
    }
    s
}

/// Render the set-volume scripting statement.
fn set_volume_script(level: u32) -> (s: String)
    ensures
        s@ == spec_set_volume_script(level as nat),
{
    let mut s = String::from_str("set volume output volume ");
    push_decimal(&mut s, level);
    s
}

/// Render the adjust-volume scripting statement.
fn adjust_volume_script(delta: i32) -> (s: String)
    ensures
        s@ == spec_adjust_volume_script(delta as int),
{
    let mut s = String::from_str("set volume output volume (output volume of (get volume settings) ");
    if delta >= 0 {
        s.append("+ ");
        push_decimal(&mut s, delta as u32);
    } else {
        s.append("- ");
        push_decimal(&mut s, (-(delta as i64)) as u32);
    }
    s.append(")");
    s
}

/// The set command for the primary mixer tool, for an already-clamped level.
pub fn pactl_set_command(level: u32) -> (c: CommandSpec)
    ensures
        c.is_command(spec_pactl_set(level as nat).0, spec_pactl_set(level as nat).1),
{
    cmd3("pactl", "set-sink-volume".to_owned(), "@DEFAULT_SINK@".to_owned(), percent_arg(level))
}

/// The set command for the fallback mixer tool.
pub fn amixer_set_command(level: u32) -> (c: CommandSpec)
    ensures
        c.is_command(spec_amixer_set(level as nat).0, spec_amixer_set(level as nat).1),
{
    cmd3("amixer", "set".to_owned(), "Master".to_owned(), percent_arg(level))
}

/// The set command for the scripting bridge.
pub fn osascript_set_command(level: u32) -> (c: CommandSpec)
    ensures
        c.is_command(spec_osascript_set(level as nat).0, spec_osascript_set(level as nat).1),
{
    cmd2("osascript", "-e".to_owned(), set_volume_script(level))
}

/// The relative-adjust command for the primary mixer tool.
pub fn pactl_adjust_command(delta: i32) -> (c: CommandSpec)
    ensures
        c.is_command(spec_pactl_adjust(delta as int).0, spec_pactl_adjust(delta as int).1),
{
    cmd3(
        "pactl",
        "set-sink-volume".to_owned(),
        "@DEFAULT_SINK@".to_owned(),
        signed_percent_arg(delta),
    )
}

/// The relative-adjust command for the fallback mixer tool.
pub fn amixer_adjust_command(delta: i32) -> (c: CommandSpec)
    ensures
        c.is_command(spec_amixer_adjust(delta as int).0, spec_amixer_adjust(delta as int).1),
{
    cmd3("amixer", "set".to_owned(), "Master".to_owned(), amixer_step_arg(delta))
}

/// The relative-adjust command for the scripting bridge.
pub fn osascript_adjust_command(delta: i32) -> (c: CommandSpec)
    ensures
        c.is_command(spec_osascript_adjust(delta as int).0, spec_osascript_adjust(delta as int).1),
{
    cmd2("osascript", "-e".to_owned(), adjust_volume_script(delta))
}

/// The query command for the primary mixer tool.
pub fn pactl_get_command() -> (c: CommandSpec)
    ensures
        c.is_command(spec_pactl_get().0, spec_pactl_get().1),
{
    cmd2("pactl", "get-sink-volume".to_owned(), "@DEFAULT_SINK@".to_owned())
}

/// The query command for the fallback mixer tool.
pub fn amixer_get_command() -> (c: CommandSpec)
    ensures
        c.is_command(spec_amixer_get().0, spec_amixer_get().1),
{
    cmd2("amixer", "get".to_owned(), "Master".to_owned())
}

/// The query command for the scripting bridge.
pub fn osascript_get_command() -> (c: CommandSpec)
    ensures
        c.is_command(spec_osascript_get().0, spec_osascript_get().1),
{
    cmd2("osascript", "-e".to_owned(), "output volume of (get volume settings)".to_owned())
}

/// What the primary tool's output yields: the integer between the last
/// whitespace and the first `%`, clamped into `[0, 100]`; no `%`, no
/// whitespace before it, or no parseable integer is a parse failure.
pub open spec fn spec_pactl_volume(s: Seq<u8>) -> Option<int> {
    match spec_find_from(s, PERCENT, 0) {
        Some(p) => match spec_rfind_ws(s, p) {
            Some(w) => match spec_parse_i32(s.subrange(w + 1, p)) {
                Some(v) => Some(clamp_level(v)),
                None => None,
            },
            None => None,
        },
        None => None,
    }
}

/// What the fallback tool's output yields: the integer between the first `[`
/// and the first `%` after it, clamped into `[0, 100]`.
pub open spec fn spec_amixer_volume(s: Seq<u8>) -> Option<int> {
    match spec_find_from(s, OPEN_BRACKET, 0) {
        Some(b) => match spec_find_from(s, PERCENT, b as nat) {
            Some(q) => match spec_parse_i32(s.subrange(b + 1, q)) {
                Some(v) => Some(clamp_level(v)),
                None => None,
            },
            None => None,
        },
        None => None,
    }
}

/// What the scripting bridge's output yields: the whole output trimmed of
/// whitespace, read as an integer, clamped into `[0, 100]`.
pub open spec fn spec_osascript_volume(s: Seq<u8>) -> Option<int> {
    match spec_parse_i32(spec_trim(s)) {
        Some(v) => Some(clamp_level(v)),
        None => None,
    }
}

/// What a query's output yields under the given shape.
pub open spec fn spec_tool_volume(shape: OutputShape, s: Seq<u8>) -> Option<int> {
    match shape {
        OutputShape::Pactl => spec_pactl_volume(s),
        OutputShape::Amixer => spec_amixer_volume(s),
        OutputShape::Osascript => spec_osascript_volume(s),
    }
}

/// Parse the primary mixer tool's output. Succeeds with exactly
/// [`spec_pactl_volume`]'s value, and fails exactly when it yields nothing.
pub fn parse_pactl_volume(out: &[u8]) -> (r: Result<i32, ControlError>)
    ensures
        match spec_pactl_volume(out@) {
            Some(v) => r matches Ok(x) && x == v,
            None => r == Err::<i32, ControlError>(ControlError::ParseFailure),
        },
{
    match find_from(out, PERCENT, 0) {
        Some(p) => match rfind_ws(out, p) {
            Some(w) => {
                let digits = slice_subrange(out, w + 1, p);
                match parse_i32(digits) {
                    Some(v) => Ok(clamp_volume(v)),
                    None => Err(ControlError::ParseFailure),
                }
            },
            None => Err(ControlError::ParseFailure),
        },
        None => Err(ControlError::ParseFailure),
    }
}

/// Parse the fallback mixer tool's output. Succeeds with exactly
/// [`spec_amixer_volume`]'s value, and fails exactly when it yields nothing.
pub fn parse_amixer_volume(out: &[u8]) -> (r: Result<i32, ControlError>)
    ensures
        match spec_amixer_volume(out@) {
            Some(v) => r matches Ok(x) && x == v,
            None => r == Err::<i32, ControlError>(ControlError::ParseFailure),
        },
{
    match find_from(out, OPEN_BRACKET, 0) {
        Some(b) => match find_from(out, PERCENT, b) {
            Some(q) => {
                let digits = slice_subrange(out, b + 1, q);
                match parse_i32(digits) {
                    Some(v) => Ok(clamp_volume(v)),
                    None => Err(ControlError::ParseFailure),
                }
            },
            None => Err(ControlError::ParseFailure),
        },
        None => Err(ControlError::ParseFailure),
    }
}

/// Parse the scripting bridge's output. Succeeds with exactly
/// [`spec_osascript_volume`]'s value, and fails exactly when it yields
/// nothing.
pub fn parse_osascript_volume(out: &[u8]) -> (r: Result<i32, ControlError>)
    ensures
        match spec_osascript_volume(out@) {
            Some(v) => r matches Ok(x) && x == v,
            None => r == Err::<i32, ControlError>(ControlError::ParseFailure),
        },
{
    let (lo, hi) = trim_bounds(out);
    let trimmed = slice_subrange(out, lo, hi);
    match parse_i32(trimmed) {
        Some(v) => Ok(clamp_volume(v)),
        None => Err(ControlError::ParseFailure),
    }
}

/// Parse a query's output under the given shape. Succeeds with exactly
/// [`spec_tool_volume`]'s value, which is always a valid percentage.
pub fn parse_tool_volume(shape: OutputShape, out: &[u8]) -> (r: Result<i32, ControlError>)
    ensures
        match spec_tool_volume(shape, out@) {
            Some(v) => r matches Ok(x) && x == v && 0 <= x <= 100,
            None => r == Err::<i32, ControlError>(ControlError::ParseFailure),
        },
{
    match shape {
        OutputShape::Pactl => parse_pactl_volume(out),
        OutputShape::Amixer => parse_amixer_volume(out),
        OutputShape::Osascript => parse_osascript_volume(out),
    }
}


/// A tool that reports exactly the decimal rendering of a level `n <= 100` —
/// as the scripting bridge does after a set — is read back as exactly `n`:
/// rendering a level and parsing the echo are inverse.
pub proof fn lemma_echoed_level_parses(n: nat)
    requires
        n <= 100,
    ensures
        spec_osascript_volume(ascii_bytes_of(dec_digits(n))) == Some(n as int),
{
    crate::text::lemma_decimal_round_trip(n);
    let bytes = ascii_bytes_of(dec_digits(n));
    assert(is_ascii_digit(bytes[0]));
    assert(!is_ascii_ws(bytes[0]));
    assert(!is_ascii_ws(bytes.last()));
    assert(spec_trim_start(bytes) == bytes);
    assert(spec_trim_end(bytes) == bytes);
    assert(spec_parse_i32(bytes) == Some(n as int));
    assert(clamp_level(n as int) == n);
}

} // verus!
