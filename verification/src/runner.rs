//! The runner around each CLI subprocess: its configuration from the
//! environment, its errors, and the decisions it takes before and after
//! the subprocess runs (profile, pacing, jitter, spawn retries, reading
//! the output).

use vstd::prelude::*;
use vstd::string::*;
use crate::argv::{nat_of_u64, ArgList};
use crate::command::{CommandSpec, OutputMode};
use crate::json::{
    compact_json_of, compact_json_text, encode_toon, json_error_display, json_error_text,
    json_parse_of, parse_json, pretty_json_of, pretty_json_text, toon_encoding,
};
use crate::lines::push_all;
use crate::privacy::DEFAULT_STEALTH_CACHE_TTL_SECS;
use crate::text::{
    blank, decimal, decode_lossy, i32_text, is_blank, lit, lossy_text, lowercase, lowercase_text,
    parse_u64, parsed_u64, signed_decimal, str_eq, trim_end, trimmed_end, u64_text,
};

verus! {

/// Subprocess timeout, in milliseconds, when none is configured.
pub const DEFAULT_TIMEOUT_MS: u64 = 30000;
/// Fixed part of the stealth jitter, in milliseconds.
pub const DEFAULT_JITTER_BASE_MS: u64 = 800;
/// Range of the variable part of the stealth jitter, in milliseconds.
pub const DEFAULT_JITTER_SPREAD_MS: u64 = 1200;
/// Minimum spacing between two calls in stealth mode, in milliseconds.
pub const DEFAULT_MIN_INTERVAL_MS: u64 = 1500;
/// OS error a spawn may hit while the program file is still being written.
pub const SPAWN_BUSY_ERRNO: i32 = 26;
/// How many times a busy spawn is retried.
pub const MAX_SPAWN_RETRIES: u32 = 5;

/// Stealth settings of the runner.
#[derive(Clone, Copy, Debug, PartialEq, Eq, Structural)]
pub struct StealthConfig {
    pub enabled: bool,
    pub jitter_base_ms: u64,
    pub jitter_spread_ms: u64,
    pub min_interval_ms: u64,
    pub default_cache_ttl_secs: u64,
}

/// The stealth settings the environment selects: the defaults, on or off.
pub open spec fn stealth_config(enabled: bool) -> StealthConfig {
    StealthConfig {
        enabled,
        jitter_base_ms: DEFAULT_JITTER_BASE_MS,
        jitter_spread_ms: DEFAULT_JITTER_SPREAD_MS,
        min_interval_ms: DEFAULT_MIN_INTERVAL_MS,
        default_cache_ttl_secs: DEFAULT_STEALTH_CACHE_TTL_SECS,
    }
}

impl StealthConfig {
    /// Stealth mode off, with the default timings.
    pub fn disabled() -> (c: StealthConfig)
        ensures
            c == stealth_config(false),
    {
        StealthConfig {
            enabled: false,
            jitter_base_ms: DEFAULT_JITTER_BASE_MS,
            jitter_spread_ms: DEFAULT_JITTER_SPREAD_MS,
            min_interval_ms: DEFAULT_MIN_INTERVAL_MS,
            default_cache_ttl_secs: DEFAULT_STEALTH_CACHE_TTL_SECS,
        }
    }
}

/// Everything the runner is configured with.
#[derive(Clone, Debug, PartialEq, Eq)]
pub struct RunnerSettings {
    /// Program to run.
    pub cli_path: String,
    /// Profile passed to every call that has no override.
    pub profile: Option<String>,
    /// Subprocess timeout in milliseconds.
    pub timeout_ms: u64,
    pub stealth: StealthConfig,
    /// Minimum spacing between calls in milliseconds.
    pub min_interval_ms: u64,
}

/// Errors of the runner.
#[derive(Clone, Debug, PartialEq, Eq)]
pub enum RunnerError {
    Config(String),
    Spawn { path: String, message: String },
    Timeout { path: String, timeout_ms: u64 },
    CommandFailed { message: String },
    Parse(String),
}

/// The text of a runner error.
pub open spec fn error_text(e: RunnerError) -> Seq<char> {
    match e {
        RunnerError::Config(m) => "configuration error: "@ + m@,
        RunnerError::Spawn { path, message } => "failed to start `"@ + path@ + "`: "@ + message@,
        RunnerError::Timeout { path, timeout_ms } => "`"@ + path@ + "` timed out after "@
            + decimal(timeout_ms as nat) + "ms"@,
        RunnerError::CommandFailed { message } => message@,
        RunnerError::Parse(m) => "failed to parse CLI JSON output: "@ + m@,
    }
}

impl RunnerError {
    /// The text of the error.
    pub fn message(&self) -> (s: String)
        ensures
            s@ == error_text(*self),
    {
        match self {
            RunnerError::Config(m) => {
                let mut s = lit("configuration error: ");
                s.append(m.as_str());
                s
            },
            RunnerError::Spawn { path, message } => {
                let mut s = lit("failed to start `");
                s.append(path.as_str());
                s.append("`: ");
                s.append(message.as_str());
                s
            },
            RunnerError::Timeout { path, timeout_ms } => {
                let mut s = lit("`");
                s.append(path.as_str());
                s.append("` timed out after ");
                let digits = u64_text(*timeout_ms);
                s.append(digits.as_str());
                s.append("ms");
                s
            },
            RunnerError::CommandFailed { message } => message.clone(),
            RunnerError::Parse(m) => {
                let mut s = lit("failed to parse CLI JSON output: ");
                s.append(m.as_str());
                s
            },
        }
    }
}

/// Message when the configured timeout is not a number.
pub open spec fn timeout_not_number_text() -> Seq<char> {
    "KAGI_MCP_TIMEOUT_MS must be a positive integer in milliseconds"@
}

/// Message when the configured timeout is zero.
pub open spec fn timeout_zero_text() -> Seq<char> {
    "KAGI_MCP_TIMEOUT_MS must be greater than 0"@
}

/// The program path: the configured one, else `kagi` from `PATH`.
pub open spec fn configured_path(value: Option<Seq<char>>) -> Seq<char> {
    match value {
        Some(p) => p,
        None => "kagi"@,
    }
}

/// The default profile: the configured one unless it is blank.
pub open spec fn configured_profile(value: Option<Seq<char>>) -> Option<Seq<char>> {
    match value {
        Some(p) => if is_blank(p) { None } else { Some(p) },
        None => None,
    }
}

/// Whether the stealth variable turns stealth on: set, non-empty, not `0`
/// and not `false` in any letter case.
pub open spec fn stealth_requested(value: Option<Seq<char>>) -> bool {
    match value {
        Some(v) => v.len() > 0 && v != "0"@ && lowercase_text(v) != "false"@,
        None => false,
    }
}

/// The timeout, or the message of the configuration error.
pub open spec fn configured_timeout(value: Option<Seq<char>>) -> Result<u64, Seq<char>> {
    match value {
        None => Ok(DEFAULT_TIMEOUT_MS),
        Some(raw) => match parsed_u64(raw) {
            None => Err(timeout_not_number_text()),
            Some(t) => if t == 0 { Err(timeout_zero_text()) } else { Ok(t) },
        },
    }
}

/// Reads the runner's settings from the values of its environment
/// variables (`None` for a variable that is unset or not Unicode): program
/// path, default profile, timeout in milliseconds and stealth switch.
pub fn settings_from_env(
    cli_path: Option<String>,
    profile: Option<String>,
    timeout: Option<String>,
    stealth: Option<String>,
) -> (r: Result<RunnerSettings, RunnerError>)
    ensures
        configured_timeout(timeout.deep_view()) matches Err(m) ==> (r matches Err(
            RunnerError::Config(msg),
        ) && msg@ == m),
        configured_timeout(timeout.deep_view()) matches Ok(t) ==> (r matches Ok(s) && {
            &&& s.cli_path@ == configured_path(cli_path.deep_view())
            &&& s.profile.deep_view() == configured_profile(profile.deep_view())
            &&& s.timeout_ms == t
            &&& s.stealth == stealth_config(stealth_requested(stealth.deep_view()))
            &&& s.min_interval_ms == if stealth_requested(stealth.deep_view()) {
                DEFAULT_MIN_INTERVAL_MS
            } else {
                0
            }
        }),
{
    let cli_path = match cli_path {
        Some(p) => p,
        None => lit("kagi"),
    };
    let profile = match profile {
        Some(p) => if blank(p.as_str()) {
            None
        } else {
            Some(p)
        },
        None => None,
    };
    let timeout_ms = match timeout {
        Some(raw) => match parse_u64(raw.as_str()) {
            None => {
                return Err(RunnerError::Config(
                    lit("KAGI_MCP_TIMEOUT_MS must be a positive integer in milliseconds"),
                ));
            },
            Some(value) => {
                if value == 0 {
                    return Err(RunnerError::Config(lit("KAGI_MCP_TIMEOUT_MS must be greater than 0")));
                }
                value
            },
        },
        None => DEFAULT_TIMEOUT_MS,
    };
    let stealth_enabled = match stealth {
        Some(v) => {
            let lower = lowercase(v.as_str());
            v.as_str().unicode_len() != 0 && !str_eq(v.as_str(), "0") && !str_eq(lower.as_str(), "false")
        },
        None => false,
    };
    let stealth = if stealth_enabled {
        StealthConfig {
            enabled: true,
            jitter_base_ms: DEFAULT_JITTER_BASE_MS,
            jitter_spread_ms: DEFAULT_JITTER_SPREAD_MS,
            min_interval_ms: DEFAULT_MIN_INTERVAL_MS,
            default_cache_ttl_secs: DEFAULT_STEALTH_CACHE_TTL_SECS,
        }
    } else {
        StealthConfig::disabled()
    };
    let min_interval_ms = if stealth.enabled {
        stealth.min_interval_ms
    } else {
        0
    };
    Ok(RunnerSettings { cli_path, profile, timeout_ms, stealth, min_interval_ms })
}

/// The profile a call runs under: its own override, else the runner's default.
pub open spec fn chosen_profile(
    override_profile: Option<Seq<char>>,
    default_profile: Option<Seq<char>>,
) -> Option<Seq<char>> {
    if override_profile is Some {
        override_profile
    } else {
        default_profile
    }
}

/// The arguments that select a profile.
pub open spec fn profile_args(profile: Option<Seq<char>>) -> Seq<Seq<char>> {
    match profile {
        Some(p) => seq!["--profile"@, p],
        None => Seq::empty(),
    }
}

/// The full argument list of a call: the profile selection, then the
/// invocation's own arguments.
pub fn command_line(spec: &CommandSpec, default_profile: &Option<String>) -> (argv: Vec<String>)
    ensures
        argv.deep_view() == profile_args(
            chosen_profile(spec.profile_override.deep_view(), default_profile.deep_view()),
        ) + spec.args.deep_view(),
{
    let chosen = match &spec.profile_override {
        Some(p) => Some(p),
        None => match default_profile {
            Some(p) => Some(p),
            None => None,
        },
    };
    let mut argv = match chosen {
        Some(p) => ArgList::two(lit("--profile"), p.clone()),
        None => ArgList::new(),
    };
    push_all(&mut argv, &spec.args);
    argv.into_vec()
}

/// Sum of a byte sequence.
pub open spec fn byte_sum(bytes: Seq<u8>) -> nat
    decreases bytes.len(),
{
    if bytes.len() == 0 {
        0
    } else {
        byte_sum(bytes.drop_last()) + (bytes.last() as nat)
    }
}

/// The hash that spreads the stealth jitter: the byte sums of the
/// arguments' UTF-8 encodings, added with wrap-around at 2^64.
pub open spec fn args_hash(args: Seq<Seq<char>>) -> nat
    decreases args.len(),
{
    if args.len() == 0 {
        0
    } else {
        (args_hash(args.drop_last()) + byte_sum(vstd::utf8::encode_utf8(args.last())))
            % u64_modulus()
    }
}

/// Whether a call is jittered: stealth is on for the runner or was asked
/// for by the request, and the jitter has a spread.
pub open spec fn jitter_active(stealth: StealthConfig, request_stealth: bool) -> bool {
    (stealth.enabled || request_stealth) && stealth.jitter_spread_ms > 0
}

/// The number of values of a `u64`: sums taken modulo it wrap around.
pub open spec fn u64_modulus() -> nat {
    0x1_0000_0000_0000_0000
}

/// The jitter, in milliseconds, before a call in stealth mode: the base
/// plus the hash modulo the spread, that sum wrapping around at 2^64.
pub open spec fn jitter_ms(stealth: StealthConfig, request_stealth: bool, args: Seq<Seq<char>>) -> Option<nat> {
    if jitter_active(stealth, request_stealth) {
        Some(
            ((stealth.jitter_base_ms as nat + args_hash(args) % (stealth.jitter_spread_ms as nat))
                % u64_modulus()) as nat,
        )
    } else {
        None
    }
}

proof fn lemma_wrapping_add_mod(x: u64, y: u64)
    ensures
        vstd::wrapping::u64_specs::wrapping_add(x, y) == (x + y) % (u64_modulus() as int),
{
    if x + y > u64::MAX {
        vstd::arithmetic::div_mod::lemma_fundamental_div_mod_converse(
            x + y,
            u64_modulus() as int,
            1,
            x + y - u64_modulus(),
        );
    } else {
        vstd::arithmetic::div_mod::lemma_small_mod((x + y) as nat, u64_modulus());
    }
}

fn bytes_sum(bytes: &[u8]) -> (s: u64)
    ensures
        s == byte_sum(bytes@) % u64_modulus(),
{
    let mut sum: u64 = 0;
    let mut j: usize = 0;
    while j < bytes.len()
        invariant
            j <= bytes@.len(),
            sum == byte_sum(bytes@.take(j as int)) % u64_modulus(),
        decreases bytes@.len() - j,
    {
        let b = bytes[j] as u64;
        proof {
            assert(bytes@.take(j + 1).drop_last() =~= bytes@.take(j as int));
            lemma_wrapping_add_mod(sum, b);
            vstd::arithmetic::div_mod::lemma_add_mod_noop(
                byte_sum(bytes@.take(j as int)) as int,
                b as int,
                u64_modulus() as int,
            );
            vstd::arithmetic::div_mod::lemma_small_mod(b as nat, u64_modulus());
            vstd::arithmetic::div_mod::lemma_small_mod(sum as nat, u64_modulus());
        }
        sum = sum.wrapping_add(b);
        j = j + 1;
    }
    assert(bytes@.take(j as int) =~= bytes@);
    sum
}

/// The jitter to wait before a call, if any: see [`jitter_ms`]. A call
/// that asked for stealth is jittered even when the runner's stealth is off.
pub fn jitter_delay_ms(stealth: &StealthConfig, spec: &CommandSpec) -> (d: Option<u64>)
    ensures
        nat_of_u64(d) == jitter_ms(*stealth, spec.stealth, spec.args.deep_view()),
{
    if !(stealth.enabled || spec.stealth) || stealth.jitter_spread_ms == 0 {
        return None;
    }
    let args = &spec.args;
    let ghost all = args.deep_view();
    let mut hash: u64 = 0;
    let mut i: usize = 0;
    while i < args.len()
        invariant
            i <= args.len(),
            all == args.deep_view(),
            hash == args_hash(all.take(i as int)),
        decreases args.len() - i,
    {
        let bytes = args[i].as_str().as_bytes();
        let sum = bytes_sum(bytes);
        proof {
            let whole = byte_sum(vstd::utf8::encode_utf8(all[i as int]));
            assert(all[i as int] == args[i as int]@);
            assert(all.take(i + 1).drop_last() =~= all.take(i as int));
            assert(all.take(i + 1).last() == all[i as int]);
            lemma_wrapping_add_mod(hash, sum);
            vstd::arithmetic::div_mod::lemma_add_mod_noop_right(
                hash as int,
                whole as int,
                u64_modulus() as int,
            );
        }
        hash = hash.wrapping_add(sum);
        i = i + 1;
    }
    assert(all.take(i as int) =~= all);
    proof {
        lemma_wrapping_add_mod(stealth.jitter_base_ms, hash % stealth.jitter_spread_ms);
    }
    Some(stealth.jitter_base_ms.wrapping_add(hash % stealth.jitter_spread_ms))
}

/// How long to wait before the next call so that calls are at least
/// `min_interval` apart: the remaining part of the interval since the
/// previous call, or nothing.
pub open spec fn throttle_wait(since_last: Option<u128>, min_interval: u128) -> u128 {
    match since_last {
        Some(elapsed) => if elapsed < min_interval { (min_interval - elapsed) as u128 } else { 0 },
        None => 0,
    }
}

/// The wait before a call, in the unit of its arguments (nanoseconds in
/// the server): see [`throttle_wait`].
pub fn throttle_delay(since_last: Option<u128>, min_interval: u128) -> (wait: u128)
    ensures
        wait == throttle_wait(since_last, min_interval),
{
    match since_last {
        Some(elapsed) => if elapsed < min_interval {
            min_interval - elapsed
        } else {
            0
        },
        None => 0,
    }
}

/// Paces calls so that they start at least `min_interval` apart. Times are
/// instants on one monotonic clock, in nanoseconds.
#[derive(Clone, Copy, Debug, PartialEq, Eq, Structural)]
pub struct RateLimiter {
    /// When the previous call was let through, if any.
    pub last_call: Option<u128>,
    /// Minimum spacing between two calls.
    pub min_interval: u128,
}

/// Time elapsed from `earlier` to `now`, or zero when `now` is earlier.
pub open spec fn elapsed_since(now: u128, earlier: u128) -> u128 {
    if now >= earlier { (now - earlier) as u128 } else { 0 }
}

/// Nanoseconds in a millisecond.
pub const NANOS_PER_MS: u128 = 1_000_000;

/// The spacing, in nanoseconds, that a call asks for of its own: the
/// stealth interval when the request asked for stealth, else none.
pub open spec fn requested_interval(stealth: StealthConfig, request_stealth: bool) -> u128 {
    if request_stealth {
        (stealth.min_interval_ms * NANOS_PER_MS) as u128
    } else {
        0
    }
}

/// The spacing a call asks for: see [`requested_interval`].
pub fn request_interval(stealth: &StealthConfig, request_stealth: bool) -> (i: u128)
    ensures
        i == requested_interval(*stealth, request_stealth),
{
    if request_stealth {
        (stealth.min_interval_ms as u128) * NANOS_PER_MS
    } else {
        0
    }
}

/// The longer of two spacings.
pub open spec fn longer(a: u128, b: u128) -> u128 {
    if a >= b { a } else { b }
}

/// How long a call arriving at `now` that asks for the spacing `requested`
/// waits: until the longer of the limiter's own spacing and the requested
/// one has passed since the previous call.
pub open spec fn limiter_wait(limiter: RateLimiter, now: u128, requested: u128) -> u128 {
    throttle_wait(
        match limiter.last_call {
            Some(last) => Some(elapsed_since(now, last)),
            None => None,
        },
        longer(limiter.min_interval, requested),
    )
}

impl RateLimiter {
    /// A limiter that has let no call through yet.
    pub fn new(min_interval: u128) -> (r: RateLimiter)
        ensures
            r == (RateLimiter { last_call: None, min_interval }),
    {
        RateLimiter { last_call: None, min_interval }
    }

    /// How long a call arriving at `now` and asking for the spacing
    /// `requested` waits: see [`limiter_wait`].
    pub fn delay(&self, now: u128, requested: u128) -> (wait: u128)
        ensures
            wait == limiter_wait(*self, now, requested),
    {
        let since_last = match self.last_call {
            Some(last) => Some(if now >= last { now - last } else { 0 }),
            None => None,
        };
        let interval = if self.min_interval >= requested { self.min_interval } else { requested };
        throttle_delay(since_last, interval)
    }

    /// Records that a call was let through at `now`.
    pub fn record(&mut self, now: u128)
        ensures
            *final(self) == (RateLimiter { last_call: Some(now), min_interval: old(self).min_interval }),
    {
        self.last_call = Some(now);
    }
}

/// Whether a failed spawn is tried again: only while the program file is
/// busy, and at most [`MAX_SPAWN_RETRIES`] times.
pub fn retry_spawn(raw_os_error: Option<i32>, attempts: u32) -> (retry: bool)
    ensures
        retry == (raw_os_error == Some(SPAWN_BUSY_ERRNO) && attempts < MAX_SPAWN_RETRIES),
{
    match raw_os_error {
        Some(code) => code == SPAWN_BUSY_ERRNO && attempts < MAX_SPAWN_RETRIES,
        None => false,
    }
}

/// The message of a failed call: stderr if any, else stdout if any, else
/// the exit status (or the signal that ended it).
pub open spec fn failure_text(
    stdout: Seq<char>,
    stderr: Seq<char>,
    code: Option<i32>,
    path: Seq<char>,
) -> Seq<char> {
    if stderr.len() > 0 {
        stderr
    } else if stdout.len() > 0 {
        stdout
    } else {
        match code {
            Some(c) => "`"@ + path + "` exited with status "@ + signed_decimal(c as int),
            None => "`"@ + path + "` terminated by signal"@,
        }
    }
}

/// The message of a failed call: see [`failure_text`].
pub fn failure_message(stdout: String, stderr: String, code: Option<i32>, path: &str) -> (m: String)
    ensures
        m@ == failure_text(stdout@, stderr@, code, path@),
{
    if stderr.as_str().unicode_len() != 0 {
        stderr
    } else if stdout.as_str().unicode_len() != 0 {
        stdout
    } else {
        let mut s = lit("`");
        s.append(path);
        match code {
            Some(c) => {
                s.append("` exited with status ");
                let digits = i32_text(c);
                s.append(digits.as_str());
            },
            None => {
                s.append("` terminated by signal");
            },
        }
        s
    }
}

/// What a call hands back.
#[derive(Debug, PartialEq)]
pub enum CommandOutput {
    Json(serde_json::Value),
    Toon(String),
    Text(String),
}

/// How a captured stream reads: decoded leniently, trailing white space removed.
pub open spec fn output_text(bytes: Seq<u8>) -> Seq<char> {
    trimmed_end(lossy_text(bytes))
}

/// A captured stream as text: see [`output_text`].
pub fn stream_text(bytes: &[u8]) -> (s: String)
    ensures
        s@ == output_text(bytes@),
{
    let decoded = decode_lossy(bytes);
    trim_end(decoded.as_str())
}

/// The result of reading JSON output, given what parsing it gave: the
/// parsed value itself, or its TOON encoding when `to_toon`; a parse error
/// becomes [`RunnerError::Parse`] carrying the error's text.
pub open spec fn json_result(
    parsed: Result<serde_json::Value, serde_json::Error>,
    to_toon: bool,
    r: Result<CommandOutput, RunnerError>,
) -> bool {
    match parsed {
        Ok(v) => if to_toon {
            r matches Ok(CommandOutput::Toon(t)) && t@ == toon_encoding(v)
        } else {
            r == Ok::<CommandOutput, RunnerError>(CommandOutput::Json(v))
        },
        Err(e) => r matches Err(RunnerError::Parse(m)) && m@ == json_error_display(e),
    }
}

/// The result of a call whose output is JSON, given what parsing it gave:
/// see [`json_result`].
pub fn json_output(
    parsed: Result<serde_json::Value, serde_json::Error>,
    to_toon: bool,
) -> (r: Result<CommandOutput, RunnerError>)
    ensures
        json_result(parsed, to_toon, r),
{
    match parsed {
        Ok(value) => if to_toon {
            Ok(CommandOutput::Toon(encode_toon(&value)))
        } else {
            Ok(CommandOutput::Json(value))
        },
        Err(error) => Err(RunnerError::Parse(json_error_text(&error))),
    }
}

/// The text shown beside structured JSON in a tool result: the value
/// pretty-printed, or in compact form should pretty-printing fail.
pub fn json_display_text(value: &serde_json::Value) -> (s: String)
    ensures
        s@ == match pretty_json_of(*value) {
            Some(pretty) => pretty,
            None => compact_json_of(*value),
        },
{
    match pretty_json_text(value) {
        Some(pretty) => pretty,
        None => compact_json_text(value),
    }
}

/// Reads the outcome of a finished subprocess: a failure becomes
/// [`RunnerError::CommandFailed`] with [`failure_text`]; otherwise stdout,
/// read as [`output_text`], is handed back as TOON or plain text, or parsed
/// as JSON and handed back as the value or its TOON encoding.
pub fn finish_output(
    output_mode: OutputMode,
    success: bool,
    code: Option<i32>,
    stdout: &[u8],
    stderr: &[u8],
    path: &str,
) -> (r: Result<CommandOutput, RunnerError>)
    ensures
        !success ==> (r matches Err(RunnerError::CommandFailed { message }) && message@
            == failure_text(output_text(stdout@), output_text(stderr@), code, path@)),
        success && output_mode == OutputMode::Toon ==> (r matches Ok(CommandOutput::Toon(t)) && t@
            == output_text(stdout@)),
        success && output_mode == OutputMode::Text ==> (r matches Ok(CommandOutput::Text(t)) && t@
            == output_text(stdout@)),
        success && output_mode == OutputMode::Json ==> json_result(
            json_parse_of(output_text(stdout@)),
            false,
            r,
        ),
        success && output_mode == OutputMode::JsonToToon ==> json_result(
            json_parse_of(output_text(stdout@)),
            true,
            r,
        ),
{
    let out = stream_text(stdout);
    let err = stream_text(stderr);
    if !success {
        return Err(RunnerError::CommandFailed { message: failure_message(out, err, code, path) });
    }
    match output_mode {
        OutputMode::Json => json_output(parse_json(out.as_str()), false),
        OutputMode::JsonToToon => json_output(parse_json(out.as_str()), true),
        OutputMode::Toon => Ok(CommandOutput::Toon(out)),
        OutputMode::Text => Ok(CommandOutput::Text(out)),
    }
}

} // verus!
