//! The server's own decisions: the address it binds, what to do when an
//! accept fails, what a signal asks for, and how its errors read.

use vstd::prelude::*;

use crate::text::{decimal, push_decimal, push_str};
use crate::{io_kind_text, kind_text};

verus! {

/// Why the server could not start or go on.
#[derive(Debug, Clone, Copy)]
pub enum ServerError {
    HostnameNotResolved(std::io::ErrorKind),
    BindFailed(std::io::ErrorKind),
    ResponseFailed,
}

/// The message that describes a server error.
pub open spec fn server_error_text(e: ServerError) -> Seq<char> {
    match e {
        ServerError::HostnameNotResolved(k) => "the hostname could not be resolved: "@ + kind_text(
            k,
        ),
        ServerError::BindFailed(k) => "could not bind the resolved address: "@ + kind_text(k),
        ServerError::ResponseFailed => "could not send the response"@,
    }
}

impl ServerError {
    /// The message that describes this error.
    pub fn message(&self) -> (r: String)
        ensures
            r@ == server_error_text(*self),
    {
        match *self {
            ServerError::HostnameNotResolved(k) => {
                let mut s = "the hostname could not be resolved: ".to_owned();
                push_str(&mut s, io_kind_text(k).as_str());
                s
            },
            ServerError::BindFailed(k) => {
                let mut s = "could not bind the resolved address: ".to_owned();
                push_str(&mut s, io_kind_text(k).as_str());
                s
            },
            ServerError::ResponseFailed => "could not send the response".to_owned(),
        }
    }
}

/// An integer in decimal, with a `-` before a negative one.
pub open spec fn signed_decimal(n: int) -> Seq<char> {
    if n < 0 {
        "-"@ + decimal((-n) as nat)
    } else {
        decimal(n as nat)
    }
}

/// The address the server binds: `host:port`.
pub open spec fn address_text(host: Seq<char>, port: i32) -> Seq<char> {
    host + ":"@ + signed_decimal(port as int)
}

/// The address to bind for the server name `host` and the port `port`.
pub fn bind_address(host: &str, port: i32) -> (r: String)
    ensures
        r@ == address_text(host@, port),
{
    let mut s = host.to_owned();
    push_str(&mut s, ":");
    if port < 0 {
        push_str(&mut s, "-");
        let m: u32 = if port == i32::MIN {
            2147483648u32
        } else {
            (-port) as u32
        };
        push_decimal(&mut s, m);
    } else {
        push_decimal(&mut s, port as u32);
    }
    assert(s@ =~= address_text(host@, port));
    s
}

/// What the accept loop does after a failed accept.
#[derive(Debug, Clone, Copy, PartialEq, Eq, Structural)]
pub enum AcceptStep {
    /// Accept again.
    Retry,
    /// Leave the loop: the server shuts down.
    Stop,
    /// Leave the loop: the failure is the server's to report.
    Fail,
}

/// A failed accept ends the loop while the server shuts down; else an
/// interrupted call is tried again, and any other failure ends the loop.
pub open spec fn accept_step(shutting_down: bool, interrupted: bool) -> AcceptStep {
    if shutting_down {
        AcceptStep::Stop
    } else if interrupted {
        AcceptStep::Retry
    } else {
        AcceptStep::Fail
    }
}

pub fn after_accept_error(shutting_down: bool, interrupted: bool) -> (r: AcceptStep)
    ensures
        r == accept_step(shutting_down, interrupted),
{
    if shutting_down {
        AcceptStep::Stop
    } else if interrupted {
        AcceptStep::Retry
    } else {
        AcceptStep::Fail
    }
}

/// How long a data connection may take to open, in milliseconds.
pub const DATA_TIMEOUT_MS: u64 = 30000;

/// Whether a transfer goes on waiting for its data connection: only while
/// the wait has lasted less than the timeout and the server is not stopping.
pub open spec fn keep_waiting(elapsed_ms: u64, timeout_ms: u64, stopping: bool) -> bool {
    !stopping && elapsed_ms < timeout_ms
}

pub fn wait_for_data(elapsed_ms: u64, timeout_ms: u64, stopping: bool) -> (r: bool)
    ensures
        r == keep_waiting(elapsed_ms, timeout_ms, stopping),
        elapsed_ms >= timeout_ms ==> !r,
{
    !stopping && elapsed_ms < timeout_ms
}

/// The signals that the server answers.
#[derive(Debug, Clone, Copy, PartialEq, Eq, Structural)]
pub enum ServerSignal {
    Terminate,
    Interrupt,
    Quit,
    HangUp,
}

/// What a signal asks of the server.
#[derive(Debug, Clone, Copy, PartialEq, Eq, Structural)]
pub enum Trigger {
    Shutdown,
    Reload,
}

/// Termination, interruption and quit shut the server down; a hang-up
/// reloads its configuration.
pub open spec fn trigger_of(s: ServerSignal) -> Trigger {
    match s {
        ServerSignal::HangUp => Trigger::Reload,
        _ => Trigger::Shutdown,
    }
}

pub fn signal_trigger(s: ServerSignal) -> (r: Trigger)
    ensures
        r == trigger_of(s),
{
    match s {
        ServerSignal::HangUp => Trigger::Reload,
        _ => Trigger::Shutdown,
    }
}

/// A log line: the time stamp in brackets, a space, the message, a line
/// break.
pub open spec fn log_line_text(stamp: Seq<char>, msg: Seq<char>) -> Seq<char> {
    "["@ + stamp + "] "@ + msg + "\n"@
}

/// Relies on chrono's `Local::now`, written with `DateTime::format` as
/// `%Y/%m/%d %H:%M:%S`: the local time at the call. It depends on the clock
/// and the time zone, so nothing is promised of it.
#[verifier::external_body]
fn local_time_stamp() -> (r: String) {
    chrono::Local::now().format("%Y/%m/%d %H:%M:%S").to_string()
}

/// The log line for `msg`, stamped with the local time now.
pub fn log_message(msg: &str) -> (r: String)
    ensures
        exists|stamp: Seq<char>| r@ == log_line_text(stamp, msg@),
{
    let stamp = local_time_stamp();
    log_line(stamp.as_str(), msg)
}

pub fn log_line(stamp: &str, msg: &str) -> (r: String)
    ensures
        r@ == log_line_text(stamp@, msg@),
{
    let mut s = "[".to_owned();
    push_str(&mut s, stamp);
    push_str(&mut s, "] ");
    push_str(&mut s, msg);
    push_str(&mut s, "\n");
    assert(s@ =~= log_line_text(stamp@, msg@));
    s
}

} // verus!
