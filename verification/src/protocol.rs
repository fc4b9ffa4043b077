//! Wire-level value types shared by the daemon and its clients.

use vstd::prelude::*;
use vstd::string::*;
use vstd::std_specs::convert::FromSpecImpl;

verus! {

/// The one protocol version that the daemon understands.
pub const CURRENT_VERSION: u8 = 1;

/// Outcome class carried by every response.
#[derive(Debug, Clone, Copy, PartialEq, Eq, Structural)]
pub enum StatusCode {
    Success,
    Failure,
}

impl StatusCode {
    /// The byte that stands for this status on the wire.
    pub open spec fn wire_value(self) -> u8 {
        match self {
            StatusCode::Success => 0u8,
            StatusCode::Failure => 1u8,
        }
    }

    /// Returns the wire byte: 0 for success, 1 for failure.
    pub fn code(self) -> (byte: u8)
        ensures
            byte == self.wire_value(),
    {
        match self {
            StatusCode::Success => 0u8,
            StatusCode::Failure => 1u8,
        }
    }
}

impl From<StatusCode> for u8 {
    fn from(code: StatusCode) -> (byte: u8) {
        code.code()
    }
}

impl FromSpecImpl<StatusCode> for u8 {
    open spec fn obeys_from_spec() -> bool {
        true
    }

    open spec fn from_spec(code: StatusCode) -> u8 {
        code.wire_value()
    }
}

/// What a client can ask of the daemon.
#[derive(Debug, PartialEq, Eq)]
pub enum Command {
    /// Tune the host for the process `pid`, as the payload `cmd` describes.
    ApplyTuning { cmd: String, pid: u32 },
    /// Put everything back to its baseline.
    ResetTuning,
    /// Report on the daemon.
    Status,
}

/// Mathematical value of a [`Command`].
pub enum CommandView {
    ApplyTuning { cmd: Seq<char>, pid: u32 },
    ResetTuning,
    Status,
}

impl View for Command {
    type V = CommandView;

    open spec fn view(&self) -> CommandView {
        match self {
            Command::ApplyTuning { cmd, pid } => CommandView::ApplyTuning { cmd: cmd@, pid: *pid },
            Command::ResetTuning => CommandView::ResetTuning,
            Command::Status => CommandView::Status,
        }
    }
}

impl Clone for Command {
    fn clone(&self) -> (copy: Self)
        ensures
            copy@ == self@,
    {
        match self {
            Command::ApplyTuning { cmd, pid } => Command::ApplyTuning {
                cmd: cmd.clone(),
                pid: *pid,
            },
            Command::ResetTuning => Command::ResetTuning,
            Command::Status => Command::Status,
        }
    }
}

/// The daemon's answer: a status and a message for the client.
#[derive(Debug, PartialEq, Eq)]
pub struct Response {
    pub status: StatusCode,
    pub message: String,
}

impl Clone for Response {
    fn clone(&self) -> (copy: Self)
        ensures
            copy.status == self.status,
            copy.message@ == self.message@,
    {
        Response { status: self.status, message: self.message.clone() }
    }
}

impl Response {
    /// An answer that reports success.
    pub fn success(message: &str) -> (response: Self)
        ensures
            response.status == StatusCode::Success,
            response.message@ == message@,
    {
        Response { status: StatusCode::Success, message: String::from_str(message) }
    }

    /// An answer that reports failure.
    pub fn failure(message: &str) -> (response: Self)
        ensures
            response.status == StatusCode::Failure,
            response.message@ == message@,
    {
        Response { status: StatusCode::Failure, message: String::from_str(message) }
    }

    /// The answer as the pair that goes over the wire: the status byte and
    /// the message.
    pub fn to_tuple(&self) -> (pair: (u8, String))
        ensures
            pair.0 == self.status.wire_value(),
            pair.1@ == self.message@,
    {
        (self.status.code(), self.message.clone())
    }
}

/// A command together with the protocol version of its sender.
#[derive(Debug, PartialEq, Eq)]
pub struct Request {
    pub version: u8,
    pub command: Command,
}

impl Clone for Request {
    fn clone(&self) -> (copy: Self)
        ensures
            copy.version == self.version,
            copy.command@ == self.command@,
    {
        Request { version: self.version, command: self.command.clone() }
    }
}

impl Request {
    /// The version that [`Request::new`] stamps on a command.
    pub const CURRENT_VERSION: u8 = 1;

    /// Wraps `command` in the current protocol version.
    pub fn new(command: Command) -> (request: Self)
        ensures
            request.version == CURRENT_VERSION,
            request.command == command,
    {
        Request { version: CURRENT_VERSION, command }
    }

    /// Whether the daemon understands the request's version.
    pub fn is_supported(&self) -> (supported: bool)
        ensures
            supported == (self.version == CURRENT_VERSION),
    {
        self.version == CURRENT_VERSION
    }
}

} // verus!
