//! The library client's side of the control plane: the commands a
//! controller handle sends, what an answer means for the command it
//! answers, and the batching of events before they are sent.

use vstd::prelude::*;
use vstd::string::{StrSliceExecFns, StringExecFns};
use crate::device::event_node_name;
use crate::protocol::{
    Axis, Button, ControlCommand, ControlMessage, ControlResponse, ControlResult, DeviceConfig,
    DeviceId, DeviceInfo, InputEvent,
};
use crate::libudev::after_last_slash;
use crate::text::{decimal, push_decimal, str_equals};

verus! {

/// The character of one digit of Crockford's base 32.
pub open spec fn crockford_digit(d: int) -> char {
    "0123456789ABCDEFGHJKMNPQRSTVWXYZ"@[d]
}

/// The last `n` digits of `value` in Crockford's base 32, highest first.
pub open spec fn crockford_digits(value: u128, n: nat) -> Seq<char>
    decreases n,
{
    if n == 0 {
        Seq::empty()
    } else {
        crockford_digits(value / 32, (n - 1) as nat).push(crockford_digit((value % 32) as int))
    }
}

/// The text of a request id: the 26 digits of a 128-bit number in
/// Crockford's base 32.
pub open spec fn request_id_text(value: u128) -> Seq<char> {
    crockford_digits(value, 26)
}

/// `ulid::Ulid::new`: a new identifier, made of the time and of random
/// bits, as its number. Nothing is promised of it.
#[verifier::external_body]
fn random_ulid() -> (value: u128) {
    ulid::Ulid::new().0
}

/// `ulid::Ulid::to_string`: the identifier with the number `value` as
/// text, which is its 26 digits in Crockford's base 32, highest first.
#[verifier::external_body]
fn ulid_string(value: u128) -> (s: String)
    ensures
        s@ == request_id_text(value),
{
    ulid::Ulid(value).to_string()
}

/// The request id with the given number.
pub fn request_id(value: u128) -> (id: String)
    ensures
        id@ == request_id_text(value),
{
    ulid_string(value)
}

/// A request id that no earlier request is likely to have had.
pub fn fresh_request_id() -> (id: String)
    ensures
        exists|value: u128| id@ == request_id_text(value),
{
    let value = random_ulid();
    request_id(value)
}

/// The control socket of the manager instance `instance`.
pub open spec fn instance_socket(instance: u32) -> Seq<char> {
    "/tmp/vimputti-"@ + decimal(instance as nat)
}

/// The directory a path lies in: what stands in front of its last slash;
/// the root for a path directly below it, and nothing for a path without a
/// slash.
pub open spec fn directory_of(path: Seq<char>) -> Seq<char> {
    let k = after_last_slash(path);
    if k == 0 {
        Seq::empty()
    } else if k == 1 {
        path.subrange(0, 1)
    } else {
        path.subrange(0, k - 1)
    }
}

/// The base directory that belongs to a control socket: the directory
/// `vimputti` beside the socket.
pub open spec fn base_beside(socket_path: Seq<char>) -> Seq<char> {
    let dir = directory_of(socket_path);
    if dir.len() == 0 {
        "vimputti"@
    } else if dir == "/"@ {
        "/vimputti"@
    } else {
        dir + "/vimputti"@
    }
}

/// The control socket of the manager instance `instance`.
pub fn socket_path_of_instance(instance: u32) -> (s: String)
    ensures
        s@ == instance_socket(instance),
{
    let mut s = String::from_str("/tmp/vimputti-");
    push_decimal(&mut s, instance as u64);
    s
}

/// The base directory of the filesystem surface: the one the environment
/// names where it names one, else the directory `vimputti` beside the
/// control socket.
pub fn get_base_path(from_environment: Option<String>, socket_path: &str) -> (base: String)
    ensures
        match from_environment {
            Some(b) => base == b,
            None => base@ == base_beside(socket_path@),
        },
{
    match from_environment {
        Some(b) => {
            return b;
        },
        None => {},
    }
    let n: usize = socket_path.unicode_len();
    let mut k: usize = n;
    assert(socket_path@.subrange(0, n as int) =~= socket_path@);
    while k > 0 && socket_path.get_char(k - 1) != '/'
        invariant
            k <= n,
            n == socket_path@.len(),
            after_last_slash(socket_path@) == after_last_slash(socket_path@.subrange(0, k as int)),
        decreases k,
    {
        proof {
            let cur = socket_path@.subrange(0, k as int);
            assert(cur.last() == socket_path@[k - 1]);
            assert(cur.drop_last() =~= socket_path@.subrange(0, k - 1));
        }
        k = k - 1;
    }
    proof {
        let cur = socket_path@.subrange(0, k as int);
        if k > 0 {
            assert(cur.last() == socket_path@[k - 1]);
        }
        assert(after_last_slash(socket_path@) == k);
        reveal_strlit("/");
    }
    if k == 0 {
        String::from_str("vimputti")
    } else if k == 1 {
        assert(socket_path@.subrange(0, 1) =~= "/"@);
        String::from_str("/vimputti")
    } else {
        let dir = socket_path.substring_char(0, k - 1);
        let mut s = String::from_str(dir);
        if str_equals(dir, "/") {
            s = String::from_str("/vimputti");
        } else {
            s.append("/vimputti");
        }
        s
    }
}

/// Why a command did not succeed.
#[derive(Debug, PartialEq, Eq)]
pub enum ClientError {
    /// The answer carries the id of another command.
    IdMismatch { expected: String, got: String },
    /// The manager answered with an error.
    Refused { message: String },
    /// The manager answered with something that is no answer to the
    /// command.
    Unexpected,
}

/// The kinds of command a client sends.
#[derive(Debug, Clone, Copy, PartialEq, Eq, Structural)]
pub enum CommandKind {
    Ping,
    CreateDevice,
    ListDevices,
    SendInput,
    DestroyDevice,
    PollFeedback,
}

/// What each kind of command is called in an error message.
pub open spec fn kind_name(kind: CommandKind) -> Seq<char> {
    match kind {
        CommandKind::Ping => "ping"@,
        CommandKind::CreateDevice => "CreateDevice"@,
        CommandKind::ListDevices => "ListDevices"@,
        CommandKind::SendInput => "SendInput"@,
        CommandKind::DestroyDevice => "DestroyDevice"@,
        CommandKind::PollFeedback => "PollFeedback"@,
    }
}

/// How the refusal of each kind of command is introduced.
pub open spec fn refusal_prefix(kind: CommandKind) -> Seq<char> {
    match kind {
        CommandKind::Ping => "Manager returned error: "@,
        CommandKind::CreateDevice => "Failed to create device: "@,
        CommandKind::ListDevices => "Failed to list devices: "@,
        CommandKind::SendInput => "Failed to send input: "@,
        CommandKind::DestroyDevice => "Failed to destroy device: "@,
        CommandKind::PollFeedback => "Failed to poll feedback: "@,
    }
}

/// The words of an error, for the kind of command that met it.
pub open spec fn error_text(error: ClientError, kind: CommandKind) -> Seq<char> {
    match error {
        ClientError::IdMismatch { expected, got } => "Response ID mismatch: expected "@ + expected@
            + ", got "@ + got@,
        ClientError::Refused { message } => refusal_prefix(kind) + message@,
        ClientError::Unexpected => "Unexpected response to "@ + kind_name(kind),
    }
}

fn kind_word(kind: CommandKind) -> (s: &'static str)
    ensures
        s@ == kind_name(kind),
{
    match kind {
        CommandKind::Ping => "ping",
        CommandKind::CreateDevice => "CreateDevice",
        CommandKind::ListDevices => "ListDevices",
        CommandKind::SendInput => "SendInput",
        CommandKind::DestroyDevice => "DestroyDevice",
        CommandKind::PollFeedback => "PollFeedback",
    }
}

fn refusal_word(kind: CommandKind) -> (s: &'static str)
    ensures
        s@ == refusal_prefix(kind),
{
    match kind {
        CommandKind::Ping => "Manager returned error: ",
        CommandKind::CreateDevice => "Failed to create device: ",
        CommandKind::ListDevices => "Failed to list devices: ",
        CommandKind::SendInput => "Failed to send input: ",
        CommandKind::DestroyDevice => "Failed to destroy device: ",
        CommandKind::PollFeedback => "Failed to poll feedback: ",
    }
}

impl ClientError {
    /// The words of this error, for the kind of command that met it.
    pub fn describe(&self, kind: CommandKind) -> (s: String)
        ensures
            s@ == error_text(*self, kind),
    {
        match self {
            ClientError::IdMismatch { expected, got } => {
                let mut s = String::from_str("Response ID mismatch: expected ");
                s.append(expected.as_str());
                s.append(", got ");
                s.append(got.as_str());
                s
            },
            ClientError::Refused { message } => {
                let mut s = String::from_str(refusal_word(kind));
                s.append(message.as_str());
                s
            },
            ClientError::Unexpected => {
                let mut s = String::from_str("Unexpected response to ");
                s.append(kind_word(kind));
                s
            },
        }
    }
}

/// The result in an answer, where the answer carries the id of the
/// command; an id mismatch otherwise.
pub fn check_response(expected_id: &str, response: ControlResponse) -> (r: Result<
    ControlResult,
    ClientError,
>)
    ensures
        match r {
            Ok(result) => response.id@ == expected_id@ && result == response.result,
            Err(e) => {
                &&& response.id@ != expected_id@
                &&& e matches ClientError::IdMismatch { expected, got }
                &&& expected@ == expected_id@
                &&& got == response.id
            },
        },
{
    if str_equals(response.id.as_str(), expected_id) {
        Ok(response.result)
    } else {
        Err(
            ClientError::IdMismatch {
                expected: String::from_str(expected_id),
                got: response.id,
            },
        )
    }
}

fn refused_or_unexpected(result: ControlResult) -> (e: ClientError)
    ensures
        match result {
            ControlResult::Error { message } => e == (ClientError::Refused { message }),
            _ => e == ClientError::Unexpected,
        },
{
    match result {
        ControlResult::Error { message } => ClientError::Refused { message },
        _ => ClientError::Unexpected,
    }
}

/// What an answer means for a `Ping`.
pub fn expect_pong(result: ControlResult) -> (r: Result<(), ClientError>)
    ensures
        match result {
            ControlResult::Pong => r is Ok,
            ControlResult::Error { message } => r == Err::<(), ClientError>(
                ClientError::Refused { message },
            ),
            _ => r == Err::<(), ClientError>(ClientError::Unexpected),
        },
{
    match result {
        ControlResult::Pong => Ok(()),
        other => Err(refused_or_unexpected(other)),
    }
}

/// What an answer means for a `SendInput`.
pub fn expect_input_sent(result: ControlResult) -> (r: Result<(), ClientError>)
    ensures
        match result {
            ControlResult::InputSent => r is Ok,
            ControlResult::Error { message } => r == Err::<(), ClientError>(
                ClientError::Refused { message },
            ),
            _ => r == Err::<(), ClientError>(ClientError::Unexpected),
        },
{
    match result {
        ControlResult::InputSent => Ok(()),
        other => Err(refused_or_unexpected(other)),
    }
}

/// What an answer means for a `ListDevices`.
pub fn expect_device_list(result: ControlResult) -> (r: Result<Vec<DeviceInfo>, ClientError>)
    ensures
        match result {
            ControlResult::DeviceList(list) => r == Ok::<Vec<DeviceInfo>, ClientError>(list),
            ControlResult::Error { message } => r == Err::<Vec<DeviceInfo>, ClientError>(
                ClientError::Refused { message },
            ),
            _ => r == Err::<Vec<DeviceInfo>, ClientError>(ClientError::Unexpected),
        },
{
    match result {
        ControlResult::DeviceList(list) => Ok(list),
        other => Err(refused_or_unexpected(other)),
    }
}

/// Handle to a virtual input device.
#[derive(Debug, Clone, PartialEq, Eq)]
pub struct VirtualController {
    pub device_id: DeviceId,
    pub event_node: String,
}

/// What an answer means for a `CreateDevice`.
pub fn expect_device_created(result: ControlResult) -> (r: Result<VirtualController, ClientError>)
    ensures
        match result {
            ControlResult::DeviceCreated { device_id, event_node } => r == Ok::<
                VirtualController,
                ClientError,
            >(VirtualController { device_id, event_node }),
            ControlResult::Error { message } => r == Err::<VirtualController, ClientError>(
                ClientError::Refused { message },
            ),
            _ => r == Err::<VirtualController, ClientError>(ClientError::Unexpected),
        },
{
    match result {
        ControlResult::DeviceCreated { device_id, event_node } => Ok(
            VirtualController { device_id, event_node },
        ),
        other => Err(refused_or_unexpected(other)),
    }
}

fn one_event(event: InputEvent) -> (v: Vec<InputEvent>)
    ensures
        v@ == seq![event],
{
    let mut v: Vec<InputEvent> = Vec::new();
    v.push(event);
    v
}

impl VirtualController {
    /// Get the device ID.
    pub fn device_id(&self) -> (id: DeviceId)
        ensures
            id == self.device_id,
    {
        self.device_id
    }

    /// Get the event node name (e.g., "event0").
    pub fn event_node(&self) -> (node: &str)
        ensures
            node@ == self.event_node@,
    {
        self.event_node.as_str()
    }

    /// The command that sends `events` to the device.
    pub fn send_events(&self, events: Vec<InputEvent>) -> (c: ControlCommand)
        ensures
            c == (ControlCommand::SendInput { device_id: self.device_id, events }),
    {
        ControlCommand::SendInput { device_id: self.device_id, events }
    }

    /// The command that presses or releases a button.
    pub fn button(&self, button: Button, pressed: bool) -> (c: ControlCommand)
        ensures
            c matches ControlCommand::SendInput { device_id, events } && device_id
                == self.device_id && events@ == seq![InputEvent::Button { button, pressed }],
    {
        self.send_events(one_event(InputEvent::Button { button, pressed }))
    }

    /// The command that presses a button.
    pub fn button_press(&self, button: Button) -> (c: ControlCommand)
        ensures
            c matches ControlCommand::SendInput { device_id, events } && device_id
                == self.device_id && events@ == seq![InputEvent::Button { button, pressed: true }],
    {
        self.button(button, true)
    }

    /// The command that releases a button.
    pub fn button_release(&self, button: Button) -> (c: ControlCommand)
        ensures
            c matches ControlCommand::SendInput { device_id, events } && device_id
                == self.device_id && events@ == seq![InputEvent::Button { button, pressed: false }],
    {
        self.button(button, false)
    }

    /// The command that moves an axis to a value.
    pub fn axis(&self, axis: Axis, value: i32) -> (c: ControlCommand)
        ensures
            c matches ControlCommand::SendInput { device_id, events } && device_id
                == self.device_id && events@ == seq![InputEvent::Axis { axis, value }],
    {
        self.send_events(one_event(InputEvent::Axis { axis, value }))
    }

    /// The command that sends a raw Linux input event.
    pub fn raw_event(&self, event_type: u16, code: u16, value: i32) -> (c: ControlCommand)
        ensures
            c matches ControlCommand::SendInput { device_id, events } && device_id
                == self.device_id && events@ == seq![InputEvent::Raw { event_type, code, value }],
    {
        self.send_events(one_event(InputEvent::Raw { event_type, code, value }))
    }

    /// The command that sends a sync (SYN_REPORT) event.
    pub fn sync(&self) -> (c: ControlCommand)
        ensures
            c matches ControlCommand::SendInput { device_id, events } && device_id
                == self.device_id && events@ == seq![InputEvent::Sync],
    {
        self.send_events(one_event(InputEvent::Sync))
    }

    /// The command that destroys the device, sent when the handle goes.
    pub fn destroy(&self) -> (c: ControlCommand)
        ensures
            c == (ControlCommand::DestroyDevice { device_id: self.device_id }),
    {
        ControlCommand::DestroyDevice { device_id: self.device_id }
    }

    /// The command that asks for the oldest force-feedback effect.
    pub fn poll_feedback(&self) -> (c: ControlCommand)
        ensures
            c == (ControlCommand::PollFeedback { device_id: self.device_id }),
    {
        ControlCommand::PollFeedback { device_id: self.device_id }
    }

    /// The socket on which force feedback for the device arrives, below
    /// `base_path`.
    pub fn feedback_socket_path(&self, base_path: &str) -> (s: String)
        ensures
            s@ == base_path@ + "/devices/"@ + self.event_node@ + ".feedback"@,
    {
        let mut s = String::from_str(base_path);
        s.append("/devices/");
        s.append(self.event_node.as_str());
        s.append(".feedback");
        s
    }
}

/// The commands of a client that concern no single device.
#[derive(Debug, Clone, Copy, PartialEq, Eq, Structural)]
pub struct VimputtiClient;

impl VimputtiClient {
    /// The socket of the default manager instance.
    pub fn default_socket_path() -> (s: String)
        ensures
            s@ == "/tmp/vimputti-0"@,
    {
        String::from_str("/tmp/vimputti-0")
    }

    /// The command that checks whether the manager is alive.
    pub fn ping() -> (c: ControlCommand)
        ensures
            c == ControlCommand::Ping,
    {
        ControlCommand::Ping
    }

    /// The command that creates a device from a configuration.
    pub fn create_device(config: DeviceConfig) -> (c: ControlCommand)
        ensures
            c == (ControlCommand::CreateDevice { config }),
    {
        ControlCommand::CreateDevice { config }
    }

    /// The command that lists all active devices.
    pub fn list_devices() -> (c: ControlCommand)
        ensures
            c == ControlCommand::ListDevices,
    {
        ControlCommand::ListDevices
    }

    /// A command with the id its answer is matched by.
    pub fn send_command(id: String, command: ControlCommand) -> (m: ControlMessage)
        ensures
            m == (ControlMessage { id, command }),
    {
        ControlMessage { id, command }
    }

    /// A command with a fresh id.
    pub fn new_message(command: ControlCommand) -> (m: ControlMessage)
        ensures
            m.command == command,
            exists|value: u128| m.id@ == request_id_text(value),
    {
        ControlMessage { id: fresh_request_id(), command }
    }
}

/// Batching of input events: events wait until they are flushed by hand
/// or until no event has come for the length of the timeout.
#[derive(Debug)]
pub struct BatchManager {
    pub device_id: DeviceId,
    pub pending_events: Vec<InputEvent>,
    /// Microseconds without an event after which the batch goes out.
    pub timeout: u64,
    /// When the last event was queued, in microseconds of a clock that
    /// does not go back; none while nothing waits.
    pub last_event_time: Option<u64>,
}

impl BatchManager {
    /// Whether the batch is due at `now`: an event waits, and the timeout
    /// has passed since the last one was queued.
    pub open spec fn due(&self, now: u64) -> bool {
        self.last_event_time is Some && self.pending_events@.len() > 0 && now
            >= self.last_event_time->0 && now - self.last_event_time->0 >= self.timeout
    }

    /// A batch without events.
    pub fn new(device_id: DeviceId, timeout: u64) -> (b: BatchManager)
        ensures
            b.device_id == device_id,
            b.timeout == timeout,
            b.pending_events@.len() == 0,
            b.last_event_time is None,
    {
        BatchManager { device_id, pending_events: Vec::new(), timeout, last_event_time: None }
    }

    /// Set the auto-flush timeout.
    pub fn set_timeout(&mut self, timeout: u64)
        ensures
            final(self).timeout == timeout,
            final(self).device_id == old(self).device_id,
            final(self).pending_events == old(self).pending_events,
            final(self).last_event_time == old(self).last_event_time,
    {
        self.timeout = timeout;
    }

    /// Queue an event for batching.
    pub fn queue_event(&mut self, event: InputEvent, now: u64)
        ensures
            final(self).pending_events@ == old(self).pending_events@.push(event),
            final(self).last_event_time == Some(now),
            final(self).device_id == old(self).device_id,
            final(self).timeout == old(self).timeout,
    {
        self.pending_events.push(event);
        self.last_event_time = Some(now);
    }

    /// Takes all pending events out, as the command that sends them; none
    /// where nothing waits.
    pub fn flush(&mut self) -> (c: Option<ControlCommand>)
        ensures
            final(self).pending_events@.len() == 0,
            final(self).device_id == old(self).device_id,
            final(self).timeout == old(self).timeout,
            old(self).pending_events@.len() == 0 ==> c is None && final(self).last_event_time
                == old(self).last_event_time,
            old(self).pending_events@.len() > 0 ==> final(self).last_event_time is None && c
                == Some(
                ControlCommand::SendInput {
                    device_id: old(self).device_id,
                    events: old(self).pending_events,
                },
            ),
    {
        if self.pending_events.len() == 0 {
            return None;
        }
        let mut events: Vec<InputEvent> = Vec::new();
        std::mem::swap(&mut events, &mut self.pending_events);
        self.last_event_time = None;
        Some(ControlCommand::SendInput { device_id: self.device_id, events })
    }

    /// Whether the batch is due at `now`.
    pub fn should_flush(&self, now: u64) -> (r: bool)
        ensures
            r == self.due(now),
    {
        match self.last_event_time {
            Some(last) => self.pending_events.len() > 0 && now >= last && now - last
                >= self.timeout,
            None => false,
        }
    }

    /// The step of the auto-flush loop at `now`: the batch goes out where
    /// it is due, and nothing happens where it is not.
    pub fn auto_flush(&mut self, now: u64) -> (c: Option<ControlCommand>)
        ensures
            final(self).device_id == old(self).device_id,
            final(self).timeout == old(self).timeout,
            !old(self).due(now) ==> c is None && final(self).pending_events == old(self).pending_events
                && final(self).last_event_time == old(self).last_event_time,
            old(self).due(now) ==> final(self).pending_events@.len() == 0
                && final(self).last_event_time is None && c == Some(
                ControlCommand::SendInput {
                    device_id: old(self).device_id,
                    events: old(self).pending_events,
                },
            ),
    {
        if self.should_flush(now) {
            self.flush()
        } else {
            None
        }
    }
}

} // verus!
