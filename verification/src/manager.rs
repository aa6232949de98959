//! The control plane: what each command of a library client does to the
//! registry of devices, and what it leaves to the I/O side to carry out.

use vstd::prelude::*;
use vstd::string::StringExecFns;
use crate::artifacts::{event_socket, event_sockets, lemma_event_sockets_follow};
use crate::device::{
    in_phase, is_fanout, ConnId, DeviceOwner, DevicePhase, StreamKind, VirtualDevice,
};
use crate::fanout::{is_rising_below, keep_unmarked, marks, rising_below};
use crate::protocol::{
    name_fits, ControlCommand, ControlResult, DeviceConfig, DeviceId, DeviceInfo, FeedbackEvent,
    InputEvent, TimeVal, UinputRequest, UinputResponse,
};
use crate::ids::{given_back, handed_out};
use crate::registry::{describes, Registry};
use crate::relay::{
    create_finished, relay_step, session_ended, Delivery, RelayWorld, RequestOutcome,
    SessionAction, SessionPhase, UinputEmulator, UinputSession,
};
use crate::text::{decimal, push_decimal};
use crate::udev::{is_broadcast, Broadcast, UdevAction, UdevBroadcaster};

verus! {

/// The manager's state: the live devices, the relay's mirror map and the
/// hotplug broadcaster.
#[derive(Debug)]
pub struct Manager {
    pub registry: Registry,
    pub uinput: UinputEmulator,
    pub udev: UdevBroadcaster,
}

/// What a command leads to.
#[derive(Debug)]
pub enum CommandOutcome {
    /// The answer, with nothing else to do.
    Reply { result: ControlResult },
    /// Bring the sockets and the sysfs subtree of `device` into being, then
    /// report with `finish_create`, which gives the answer.
    Build { device: VirtualDevice },
    /// Take down what `device` had outside: close its consumers, unlink its
    /// sockets, remove its sysfs subtree; then send `hotplug` and answer.
    Teardown { device: VirtualDevice, hotplug: Broadcast, result: ControlResult },
    /// Write the bytes to the consumers of the device and, where it has
    /// one, of its mirror device; then answer.
    Deliver { primary: Delivery, mirror: Option<Delivery>, result: ControlResult },
}

/// The words that tell a client that a device does not exist.
pub open spec fn not_found_text(id: DeviceId) -> Seq<char> {
    "Device "@ + decimal(id as nat) + " not found"@
}

/// An answer that reports an error in the given words.
pub open spec fn is_error(result: ControlResult, text: Seq<char>) -> bool {
    result matches ControlResult::Error { message } && message@ == text
}

/// Whether `list` describes each live device once and nothing else.
pub open spec fn is_listing(list: Seq<DeviceInfo>, registry: Registry) -> bool {
    &&& list.len() == registry.live().len()
    &&& forall|i: int|
        0 <= i < list.len() ==> registry.live().contains(#[trigger] list[i].device_id) && describes(
            list[i],
            registry.devices@[list[i].device_id],
        )
    &&& forall|i: int, j: int| 0 <= i < j < list.len() ==> list[i].device_id != list[j].device_id
    &&& forall|id: DeviceId|
        registry.live().contains(id) ==> exists|i: int|
            0 <= i < list.len() && #[trigger] list[i].device_id == id
}

/// Whether `after` is `before` with its oldest waiting effect handed out.
pub open spec fn polled(before: VirtualDevice, after: VirtualDevice, event: Option<FeedbackEvent>) -> bool {
    &&& after.id == before.id
    &&& after.owner == before.owner
    &&& after.phase == before.phase
    &&& after.config == before.config
    &&& after.event_node == before.event_node
    &&& after.joystick_node == before.joystick_node
    &&& after.byte_order == before.byte_order
    &&& after.rumble == before.rumble
    &&& forall|kind: StreamKind| after.consumers(kind) == before.consumers(kind)
    &&& if before.pending_feedback@.len() == 0 {
        event is None && after.pending_feedback@ == before.pending_feedback@
    } else {
        event == Some(before.pending_feedback@[0]) && after.pending_feedback@
            == before.pending_feedback@.subrange(1, before.pending_feedback@.len() as int)
    }
}

/// One step of the control plane: what a command does.
///
/// * `Ping` is answered with `Pong` and changes nothing.
/// * `ListDevices` is answered with a description of each live device and
///   changes nothing.
/// * `CreateDevice` reserves an id, the one freed last where any is free
///   and else the counter's, and hands the device out to be built; the
///   answer follows from `finish_create`. With a name that does not fit,
///   or without a free id, it is answered with an error.
/// * `DestroyDevice` takes a live device out of the registry and hands it
///   out to be taken down, with the hotplug record of its removal. The id
///   of a client's device is given back to the pool; the id of a session's
///   mirror device stays with the session. The mirror map stays as it is.
/// * `SendInput` gives the bytes for the consumers of the device and of
///   its mirror device, and changes nothing.
/// * `PollFeedback` hands out the oldest force-feedback effect that waits
///   on the device.
/// * A command that names a device that is not live is answered with an
///   error and changes nothing.
pub open spec fn control_step(
    pre: Manager,
    post: Manager,
    command: ControlCommand,
    time: TimeVal,
    time_ms: u32,
    out: CommandOutcome,
) -> bool {
    match command {
        ControlCommand::Ping => {
            &&& post == pre
            &&& out matches CommandOutcome::Reply { result }
            &&& result == ControlResult::Pong
        },
        ControlCommand::ListDevices => {
            &&& post == pre
            &&& out matches CommandOutcome::Reply { result }
            &&& result matches ControlResult::DeviceList(list)
            &&& is_listing(list@, pre.registry)
        },
        ControlCommand::CreateDevice { config } => {
            if !name_fits(config@) {
                &&& post == pre
                &&& out matches CommandOutcome::Reply { result }
                &&& is_error(result, "Invalid device config: the name is longer than 79 bytes"@)
            } else if pre.registry.ids.peek() is None {
                &&& post == pre
                &&& out matches CommandOutcome::Reply { result }
                &&& is_error(result, "Failed to create device: no device id left"@)
            } else {
                &&& post.uinput == pre.uinput
                &&& post.udev == pre.udev
                &&& post.registry.devices == pre.registry.devices
                &&& out matches CommandOutcome::Build { device }
                &&& Some(device.id) == pre.registry.ids.peek()
                &&& handed_out(pre.registry.ids, post.registry.ids)
                &&& post.registry.pending(device.id)
                &&& forall|other: DeviceId|
                    other != device.id ==> (#[trigger] post.registry.ids.in_use(other)
                        <==> pre.registry.ids.in_use(other))
                &&& device.wf()
                &&& device.owner == DeviceOwner::Client
                &&& device.phase == DevicePhase::Constructing
                &&& device.config == config
                &&& device.clients@.len() == 0
                &&& device.joystick_clients@.len() == 0
                &&& device.feedback_clients@.len() == 0
            }
        },
        ControlCommand::DestroyDevice { device_id } => {
            if !pre.registry.live().contains(device_id) {
                &&& post == pre
                &&& out matches CommandOutcome::Reply { result }
                &&& is_error(result, not_found_text(device_id))
            } else {
                &&& out matches CommandOutcome::Teardown { device, hotplug, result }
                &&& result == ControlResult::DeviceDestroyed
                &&& device == in_phase(pre.registry.devices@[device_id], DevicePhase::Draining)
                &&& is_broadcast(
                    pre.udev,
                    post.udev,
                    UdevAction::Remove,
                    device_id,
                    device.config@,
                    hotplug,
                )
                &&& post.registry.devices@ == pre.registry.devices@.remove(device_id)
                &&& post.uinput == pre.uinput
                &&& if device.owner == DeviceOwner::Relay {
                    post.registry.ids == pre.registry.ids
                } else {
                    given_back(pre.registry.ids, post.registry.ids, device_id)
                }
                &&& post.registry.ids.in_use(device_id) == (device.owner == DeviceOwner::Relay)
                &&& forall|other: DeviceId|
                    other != device_id ==> (#[trigger] post.registry.ids.in_use(other)
                        <==> pre.registry.ids.in_use(other))
            }
        },
        ControlCommand::SendInput { device_id, events } => {
            if !pre.registry.live().contains(device_id) {
                &&& post == pre
                &&& out matches CommandOutcome::Reply { result }
                &&& is_error(result, not_found_text(device_id))
            } else {
                &&& post == pre
                &&& out matches CommandOutcome::Deliver { primary, mirror, result }
                &&& result == ControlResult::InputSent
                &&& primary.device_id == device_id
                &&& is_fanout(
                    pre.registry.devices@[device_id],
                    events@,
                    time,
                    time_ms,
                    primary.fanout,
                )
                &&& mirror is Some <==> events@.len() > 0 && pre.uinput.mirror_map@.dom().contains(
                    device_id,
                ) && pre.registry.live().contains(pre.uinput.mirror_map@[device_id])
                &&& mirror is Some ==> mirror->0.device_id == pre.uinput.mirror_map@[device_id]
                    && is_fanout(
                    pre.registry.devices@[mirror->0.device_id],
                    events@,
                    time,
                    time_ms,
                    mirror->0.fanout,
                )
            }
        },
        ControlCommand::PollFeedback { device_id } => {
            if !pre.registry.live().contains(device_id) {
                &&& post == pre
                &&& out matches CommandOutcome::Reply { result }
                &&& is_error(result, not_found_text(device_id))
            } else {
                &&& post.uinput == pre.uinput
                &&& post.udev == pre.udev
                &&& post.registry.ids == pre.registry.ids
                &&& out matches CommandOutcome::Reply { result }
                &&& result matches ControlResult::FeedbackPolled { event }
                &&& post.registry.live().contains(device_id)
                &&& post.registry.devices@ == pre.registry.devices@.insert(
                    device_id,
                    post.registry.devices@[device_id],
                )
                &&& polled(pre.registry.devices@[device_id], post.registry.devices@[device_id], event)
            }
        },
    }
}

/// The end of the building of a client's device. Where it succeeded the
/// device is live, the answer names its id and its event node, and the
/// hotplug record of the arrival goes to every subscriber connected at
/// that instant. Where it failed the reserved id is given back to the
/// pool, the answer says why, and nothing else changes.
pub open spec fn device_admitted(
    pre: Manager,
    post: Manager,
    device: VirtualDevice,
    built: Result<(), String>,
    result: ControlResult,
    hotplug: Option<Broadcast>,
) -> bool {
    &&& post.uinput == pre.uinput
    &&& match built {
        Ok(_) => {
            &&& post.registry.devices@ == pre.registry.devices@.insert(
                device.id,
                in_phase(device, DevicePhase::Serving),
            )
            &&& post.registry.ids == pre.registry.ids
            &&& result matches ControlResult::DeviceCreated { device_id, event_node }
            &&& device_id == device.id
            &&& event_node@ == device.event_node@
            &&& hotplug is Some
            &&& is_broadcast(
                pre.udev,
                post.udev,
                UdevAction::Add,
                device.id,
                device.config@,
                hotplug->0,
            )
        },
        Err(reason) => {
            &&& post.registry.devices == pre.registry.devices
            &&& post.udev == pre.udev
            &&& given_back(pre.registry.ids, post.registry.ids, device.id)
            &&& !post.registry.ids.in_use(device.id)
            &&& forall|other: DeviceId|
                other != device.id ==> (#[trigger] post.registry.ids.in_use(other)
                    <==> pre.registry.ids.in_use(other))
            &&& is_error(result, "Failed to create device: "@ + reason@)
            &&& hotplug is None
        },
    }
}

fn not_found(id: DeviceId) -> (out: CommandOutcome)
    ensures
        out matches CommandOutcome::Reply { result } && is_error(result, not_found_text(id)),
{
    let mut message = String::from_str("Device ");
    push_decimal(&mut message, id);
    message.append(" not found");
    CommandOutcome::Reply { result: ControlResult::Error { message } }
}

impl Manager {
    /// The registry is in order.
    pub open spec fn wf(&self) -> bool {
        self.registry.wf()
    }

    /// Whether the manager is in order.
    pub fn is_wf(&self) -> (r: bool)
        ensures
            r == self.wf(),
    {
        self.registry.is_wf()
    }

    /// A manager without devices, mirrors or subscribers.
    pub fn new() -> (r: Manager)
        ensures
            r.wf(),
            r.registry.live() == Set::<DeviceId>::empty(),
            r.registry.ids.next == 0,
            r.registry.ids.free@.len() == 0,
            r.uinput.mirror_map@ == Map::<DeviceId, DeviceId>::empty(),
            r.udev.subscribers@.len() == 0,
            r.udev.next_seqnum == 0,
    {
        Manager { registry: Registry::new(), uinput: UinputEmulator::new(), udev: UdevBroadcaster::new() }
    }

    /// `ListDevices`.
    fn list_devices(&self) -> (out: CommandOutcome)
        requires
            self.wf(),
        ensures
            control_step(*self, *self, ControlCommand::ListDevices, TimeVal { tv_sec: 0, tv_usec: 0 }, 0, out),
    {
        CommandOutcome::Reply { result: ControlResult::DeviceList(self.registry.list()) }
    }

    /// `CreateDevice`.
    fn begin_create(&mut self, config: DeviceConfig) -> (out: CommandOutcome)
        requires
            old(self).wf(),
        ensures
            final(self).wf(),
            control_step(
                *old(self),
                *final(self),
                ControlCommand::CreateDevice { config },
                TimeVal { tv_sec: 0, tv_usec: 0 },
                0,
                out,
            ),
    {
        if !config.is_valid() {
            return CommandOutcome::Reply {
                result: ControlResult::Error {
                    message: String::from_str(
                        "Invalid device config: the name is longer than 79 bytes",
                    ),
                },
            };
        }
        match self.registry.reserve() {
            Some(id) => CommandOutcome::Build {
                device: VirtualDevice::create(id, config, DeviceOwner::Client),
            },
            None => CommandOutcome::Reply {
                result: ControlResult::Error {
                    message: String::from_str("Failed to create device: no device id left"),
                },
            },
        }
    }

    /// `DestroyDevice`.
    fn destroy_device(&mut self, device_id: DeviceId) -> (out: CommandOutcome)
        requires
            old(self).wf(),
        ensures
            final(self).wf(),
            control_step(
                *old(self),
                *final(self),
                ControlCommand::DestroyDevice { device_id },
                TimeVal { tv_sec: 0, tv_usec: 0 },
                0,
                out,
            ),
    {
        let relay_owned = match self.registry.get(device_id) {
            Some(device) => match device.owner {
                DeviceOwner::Relay => true,
                DeviceOwner::Client => false,
            },
            None => {
                return not_found(device_id);
            },
        };
        let removed = if relay_owned {
            self.registry.retire(device_id)
        } else {
            self.registry.remove(device_id)
        };
        match removed {
            Some(device) => {
                let hotplug = self.udev.broadcast_remove(device_id, &device.config);
                CommandOutcome::Teardown { device, hotplug, result: ControlResult::DeviceDestroyed }
            },
            None => not_found(device_id),
        }
    }

    /// `SendInput`.
    fn send_input(&self, device_id: DeviceId, events: Vec<InputEvent>, time: TimeVal, time_ms: u32) -> (out:
        CommandOutcome)
        requires
            self.wf(),
        ensures
            control_step(
                *self,
                *self,
                ControlCommand::SendInput { device_id, events },
                time,
                time_ms,
                out,
            ),
    {
        match self.registry.get(device_id) {
            Some(device) => {
                let primary = Delivery {
                    device_id,
                    fanout: device.send_events(&events, time, time_ms),
                };
                let mirror = self.uinput.mirror_to_uinput_devices(
                    &self.registry,
                    device_id,
                    &events,
                    time,
                    time_ms,
                );
                CommandOutcome::Deliver { primary, mirror, result: ControlResult::InputSent }
            },
            None => not_found(device_id),
        }
    }

    /// `PollFeedback`.
    fn poll_feedback(&mut self, device_id: DeviceId) -> (out: CommandOutcome)
        requires
            old(self).wf(),
        ensures
            final(self).wf(),
            control_step(
                *old(self),
                *final(self),
                ControlCommand::PollFeedback { device_id },
                TimeVal { tv_sec: 0, tv_usec: 0 },
                0,
                out,
            ),
    {
        match self.registry.take(device_id) {
            Some(device) => {
                let mut device = device;
                let event = device.poll_feedback();
                self.registry.put_back(device);
                assert(self.registry.devices@ =~= old(self).registry.devices@.insert(
                    device_id,
                    self.registry.devices@[device_id],
                ));
                CommandOutcome::Reply { result: ControlResult::FeedbackPolled { event } }
            },
            None => {
                assert(self.registry.devices@ =~= old(self).registry.devices@);
                not_found(device_id)
            },
        }
    }

    /// Process a control command.
    pub fn process_command(&mut self, command: ControlCommand, time: TimeVal, time_ms: u32) -> (out:
        CommandOutcome)
        requires
            old(self).wf(),
        ensures
            final(self).wf(),
            control_step(*old(self), *final(self), command, time, time_ms, out),
    {
        match command {
            ControlCommand::Ping => CommandOutcome::Reply { result: ControlResult::Pong },
            ControlCommand::ListDevices => self.list_devices(),
            ControlCommand::CreateDevice { config } => self.begin_create(config),
            ControlCommand::DestroyDevice { device_id } => self.destroy_device(device_id),
            ControlCommand::SendInput { device_id, events } => self.send_input(
                device_id,
                events,
                time,
                time_ms,
            ),
            ControlCommand::PollFeedback { device_id } => self.poll_feedback(device_id),
        }
    }

    /// Takes the result of the building of a client's device.
    pub fn finish_create(&mut self, device: VirtualDevice, built: Result<(), String>) -> (r: (
        ControlResult,
        Option<Broadcast>,
    ))
        requires
            old(self).wf(),
            device.wf(),
            device.phase == DevicePhase::Constructing,
            old(self).registry.pending(device.id),
        ensures
            final(self).wf(),
            device_admitted(*old(self), *final(self), device, built, r.0, r.1),
    {
        match built {
            Ok(_) => {
                let device_id = device.id;
                let event_node = device.event_node.clone();
                let hotplug = self.udev.broadcast_add(device_id, &device.config);
                self.registry.insert(device);
                (ControlResult::DeviceCreated { device_id, event_node }, Some(hotplug))
            },
            Err(reason) => {
                self.registry.cancel(device.id);
                let mut message = String::from_str("Failed to create device: ");
                message.append(reason.as_str());
                (ControlResult::Error { message }, None)
            },
        }
    }
}

/// Whether `after` is `before` with the consumers of one stream replaced
/// by `consumers`.
pub open spec fn consumers_changed(
    before: VirtualDevice,
    after: VirtualDevice,
    kind: StreamKind,
    consumers: Seq<ConnId>,
) -> bool {
    &&& after.id == before.id
    &&& after.owner == before.owner
    &&& after.phase == before.phase
    &&& after.config == before.config
    &&& after.event_node == before.event_node
    &&& after.joystick_node == before.joystick_node
    &&& after.byte_order == before.byte_order
    &&& after.rumble == before.rumble
    &&& after.pending_feedback == before.pending_feedback
    &&& after.consumers(kind) == consumers
    &&& forall|other: StreamKind| other != kind ==> after.consumers(other) == before.consumers(other)
}

/// Whether only the device `id` changed between two states of a manager,
/// and stayed live.
pub open spec fn only_device_changed(pre: Manager, post: Manager, id: DeviceId) -> bool {
    &&& post.uinput == pre.uinput
    &&& post.udev == pre.udev
    &&& post.registry.ids == pre.registry.ids
    &&& pre.registry.live().contains(id)
    &&& post.registry.live().contains(id)
    &&& post.registry.devices@ == pre.registry.devices@.insert(id, post.registry.devices@[id])
}

/// Whether a stream exists on a device: the event and the feedback stream
/// always do, the joystick stream where the device has a joystick node.
pub open spec fn has_stream(device: VirtualDevice, kind: StreamKind) -> bool {
    kind == StreamKind::Joystick ==> device.joystick_node is Some
}

impl Manager {
    /// The answer to a message, with the id of the message.
    pub fn answer(id: String, result: ControlResult) -> (r: crate::protocol::ControlResponse)
        ensures
            r.id == id,
            r.result == result,
    {
        crate::protocol::ControlResponse { id, result }
    }

    /// Takes a consumer that has received its handshake into a stream of
    /// a device. Returns whether it was taken: it is where the device is
    /// live and has the stream.
    pub fn accept_consumer(&mut self, device_id: DeviceId, kind: StreamKind, conn: ConnId) -> (taken:
        bool)
        requires
            old(self).wf(),
        ensures
            final(self).wf(),
            taken == (old(self).registry.live().contains(device_id) && has_stream(
                old(self).registry.devices@[device_id],
                kind,
            )),
            !taken ==> *final(self) == *old(self),
            taken ==> only_device_changed(*old(self), *final(self), device_id) && consumers_changed(
                old(self).registry.devices@[device_id],
                final(self).registry.devices@[device_id],
                kind,
                old(self).registry.devices@[device_id].consumers(kind).push(conn),
            ),
    {
        let usable = match self.registry.get(device_id) {
            Some(device) => match kind {
                StreamKind::Joystick => device.joystick_node.is_some(),
                _ => true,
            },
            None => false,
        };
        if !usable {
            return false;
        }
        match self.registry.take(device_id) {
            Some(device) => {
                let mut device = device;
                device.add_client(kind, conn);
                self.registry.put_back(device);
                assert(self.registry.devices@ =~= old(self).registry.devices@.insert(
                    device_id,
                    self.registry.devices@[device_id],
                ));
                true
            },
            None => false,
        }
    }

    /// The consumers of one stream of a device, in the order in which a
    /// batch is written to them.
    pub fn consumers(&self, device_id: DeviceId, kind: StreamKind) -> (r: Option<Vec<ConnId>>)
        requires
            self.wf(),
        ensures
            r is Some <==> self.registry.live().contains(device_id),
            r is Some ==> r->0@ == self.registry.devices@[device_id].consumers(kind),
    {
        match self.registry.get(device_id) {
            Some(device) => Some(
                match kind {
                    StreamKind::Event => crate::udev::copy_conns(&device.clients),
                    StreamKind::Joystick => crate::udev::copy_conns(&device.joystick_clients),
                    StreamKind::Feedback => crate::udev::copy_conns(&device.feedback_clients),
                },
            ),
            None => None,
        }
    }

    /// Takes the consumers whose write failed out of a stream: `failed`
    /// gives their places in the stream, rising. The device stays as it
    /// is; the consumers that remain keep their order. Returns whether
    /// anything was done: nothing is where the device is not live or
    /// `failed` does not rise or names a place the stream does not have.
    pub fn drop_consumers(&mut self, device_id: DeviceId, kind: StreamKind, failed: &Vec<usize>) -> (done:
        bool)
        requires
            old(self).wf(),
        ensures
            final(self).wf(),
            done == (old(self).registry.live().contains(device_id) && rising_below(
                failed@,
                old(self).registry.devices@[device_id].consumers(kind).len() as int,
            )),
            !done ==> *final(self) == *old(self),
            done ==> only_device_changed(*old(self), *final(self), device_id) && consumers_changed(
                old(self).registry.devices@[device_id],
                final(self).registry.devices@[device_id],
                kind,
                keep_unmarked(old(self).registry.devices@[device_id].consumers(kind), marks(failed@)),
            ),
    {
        let valid = match self.registry.get(device_id) {
            Some(device) => {
                let n = match kind {
                    StreamKind::Event => device.clients.len(),
                    StreamKind::Joystick => device.joystick_clients.len(),
                    StreamKind::Feedback => device.feedback_clients.len(),
                };
                is_rising_below(failed, n)
            },
            None => false,
        };
        if !valid {
            return false;
        }
        match self.registry.take(device_id) {
            Some(device) => {
                let mut device = device;
                device.remove_clients(kind, failed);
                self.registry.put_back(device);
                assert(self.registry.devices@ =~= old(self).registry.devices@.insert(
                    device_id,
                    self.registry.devices@[device_id],
                ));
                true
            },
            None => false,
        }
    }

    /// Takes in a record that a consumer wrote into the event socket of a
    /// device. Returns the feedback subscribers that get the record, byte
    /// for byte: all of them where it is a force-feedback record of a live
    /// device, none otherwise.
    pub fn feedback_ingress(&mut self, device_id: DeviceId, record: &[u8]) -> (r: Option<Vec<ConnId>>)
        requires
            old(self).wf(),
        ensures
            final(self).wf(),
            !old(self).registry.live().contains(device_id) ==> r is None && *final(self) == *old(
                self,
            ),
            old(self).registry.live().contains(device_id) ==> only_device_changed(
                *old(self),
                *final(self),
                device_id,
            ) && crate::device::is_ingress(
                old(self).registry.devices@[device_id],
                final(self).registry.devices@[device_id],
                record@,
                r is Some,
            ) && (r is Some ==> r->0@ == old(self).registry.devices@[device_id].feedback_clients@),
    {
        match self.registry.take(device_id) {
            Some(device) => {
                let mut device = device;
                let ghost before = device;
                let forward = device.feedback_ingress(record);
                assert(device.consumers(StreamKind::Feedback) == before.consumers(
                    StreamKind::Feedback,
                ));
                let subscribers = if forward {
                    Some(crate::udev::copy_conns(&device.feedback_clients))
                } else {
                    None
                };
                self.registry.put_back(device);
                assert(self.registry.devices@ =~= old(self).registry.devices@.insert(
                    device_id,
                    self.registry.devices@[device_id],
                ));
                subscribers
            },
            None => None,
        }
    }

    /// Takes a hotplug monitor that has connected in.
    pub fn subscribe(&mut self, conn: ConnId)
        ensures
            final(self).registry == old(self).registry,
            final(self).uinput == old(self).uinput,
            final(self).udev.subscribers@ == old(self).udev.subscribers@.push(conn),
            final(self).udev.next_seqnum == old(self).udev.next_seqnum,
    {
        self.udev.subscribe(conn);
    }

    /// Takes one message of a uinput session.
    pub fn process_uinput_request(
        &mut self,
        session: &mut UinputSession,
        request: UinputRequest,
        time: TimeVal,
        time_ms: u32,
    ) -> (out: RequestOutcome)
        requires
            old(self).wf(),
            old(session).wf(),
            old(session).bound_to(&old(self).registry),
        ensures
            final(self).wf(),
            final(session).wf(),
            final(session).bound_to(&final(self).registry),
            relay_step(
                RelayWorld {
                    session: *old(session),
                    registry: old(self).registry,
                    mirror: old(self).uinput.mirror_map@,
                    udev: old(self).udev,
                },
                RelayWorld {
                    session: *final(session),
                    registry: final(self).registry,
                    mirror: final(self).uinput.mirror_map@,
                    udev: final(self).udev,
                },
                request,
                time,
                time_ms,
                out,
            ),
    {
        self.uinput.process_request(
            &mut self.registry,
            &mut self.udev,
            session,
            request,
            time,
            time_ms,
        )
    }

    /// Takes the result of the building of a session's mirror device.
    pub fn finish_uinput_create(
        &mut self,
        session: &mut UinputSession,
        device: VirtualDevice,
        source: DeviceId,
        built: Result<(), String>,
    ) -> (r: (UinputResponse, Option<Broadcast>))
        requires
            old(self).wf(),
            old(session).wf(),
            old(session).phase == SessionPhase::Setup,
            device.wf(),
            device.phase == DevicePhase::Constructing,
            old(self).registry.pending(device.id),
        ensures
            final(self).wf(),
            final(session).wf(),
            final(session).bound_to(&final(self).registry),
            create_finished(
                RelayWorld {
                    session: *old(session),
                    registry: old(self).registry,
                    mirror: old(self).uinput.mirror_map@,
                    udev: old(self).udev,
                },
                RelayWorld {
                    session: *final(session),
                    registry: final(self).registry,
                    mirror: final(self).uinput.mirror_map@,
                    udev: final(self).udev,
                },
                device,
                source,
                built,
                r.0,
                r.1,
            ),
    {
        self.uinput.finish_create(&mut self.registry, &mut self.udev, session, device, source, built)
    }

    /// Ends a uinput session whose transport has closed.
    pub fn close_uinput_session(&mut self, session: &mut UinputSession) -> (action: SessionAction)
        requires
            old(self).wf(),
            old(session).wf(),
            old(session).bound_to(&old(self).registry),
        ensures
            final(self).wf(),
            final(session).wf(),
            final(session).bound_to(&final(self).registry),
            session_ended(
                RelayWorld {
                    session: *old(session),
                    registry: old(self).registry,
                    mirror: old(self).uinput.mirror_map@,
                    udev: old(self).udev,
                },
                RelayWorld {
                    session: *final(session),
                    registry: final(self).registry,
                    mirror: final(self).uinput.mirror_map@,
                    udev: final(self).udev,
                },
                action,
            ),
    {
        self.uinput.close_session(&mut self.registry, &mut self.udev, session)
    }
}

/// The event sockets on disk once the I/O side has carried out the
/// outcome of a command: a device that is taken down loses its socket.
pub open spec fn sockets_after(files: Set<Seq<char>>, out: CommandOutcome) -> Set<Seq<char>> {
    match out {
        CommandOutcome::Teardown { device, hotplug, result } => files.remove(
            event_socket(device.id),
        ),
        _ => files,
    }
}

/// The event sockets on disk once the building of `device` has ended: a
/// device that was built has its socket, and a failed building leaves
/// none behind.
pub open spec fn sockets_after_build(
    files: Set<Seq<char>>,
    device: VirtualDevice,
    built: Result<(), String>,
) -> Set<Seq<char>> {
    match built {
        Ok(_) => files.insert(event_socket(device.id)),
        Err(_) => files,
    }
}

/// One thing that happens to the manager: a command, or the end of the
/// building of a device.
pub enum LifecycleEvent {
    Command { command: ControlCommand, time: TimeVal, time_ms: u32, out: CommandOutcome },
    Built {
        device: VirtualDevice,
        built: Result<(), String>,
        result: ControlResult,
        hotplug: Option<Broadcast>,
    },
}

/// One step of the lifecycle: the manager goes from `pre` to `post` and
/// the event sockets on disk from `files_pre` to `files_post`.
pub open spec fn lifecycle_step(
    pre: Manager,
    files_pre: Set<Seq<char>>,
    event: LifecycleEvent,
    post: Manager,
    files_post: Set<Seq<char>>,
) -> bool {
    &&& pre.wf()
    &&& post.wf()
    &&& match event {
        LifecycleEvent::Command { command, time, time_ms, out } => control_step(
            pre,
            post,
            command,
            time,
            time_ms,
            out,
        ) && files_post == sockets_after(files_pre, out),
        LifecycleEvent::Built { device, built, result, hotplug } => device_admitted(
            pre,
            post,
            device,
            built,
            result,
            hotplug,
        ) && files_post == sockets_after_build(files_pre, device, built),
    }
}

/// A run of the lifecycle: each state and each set of sockets follows
/// from the one before by one step.
pub open spec fn lifecycle(
    states: Seq<Manager>,
    files: Seq<Set<Seq<char>>>,
    events: Seq<LifecycleEvent>,
) -> bool {
    &&& states.len() == events.len() + 1
    &&& files.len() == states.len()
    &&& forall|i: int|
        0 <= i < events.len() ==> lifecycle_step(
            states[i],
            files[i],
            #[trigger] events[i],
            states[i + 1],
            files[i + 1],
        )
}

/// One step keeps the event sockets on disk those of the live devices.
pub proof fn lemma_step_keeps_sockets(
    pre: Manager,
    files_pre: Set<Seq<char>>,
    event: LifecycleEvent,
    post: Manager,
    files_post: Set<Seq<char>>,
)
    requires
        lifecycle_step(pre, files_pre, event, post, files_post),
        files_pre == event_sockets(pre.registry.live()),
    ensures
        files_post == event_sockets(post.registry.live()),
{
    match event {
        LifecycleEvent::Command { command, time, time_ms, out } => {
            match command {
                ControlCommand::DestroyDevice { device_id } => {
                    if pre.registry.live().contains(device_id) {
                        assert(pre.registry.admits(device_id, pre.registry.devices@[device_id]));
                        assert(post.registry.live() =~= pre.registry.live().remove(device_id));
                        lemma_event_sockets_follow(pre.registry.live(), device_id);
                    }
                },
                ControlCommand::PollFeedback { device_id } => {
                    if pre.registry.live().contains(device_id) {
                        assert(post.registry.live() =~= pre.registry.live());
                    }
                },
                _ => {},
            }
        },
        LifecycleEvent::Built { device, built, result, hotplug } => {
            match built {
                Ok(_) => {
                    assert(post.registry.live() =~= pre.registry.live().insert(device.id));
                    lemma_event_sockets_follow(pre.registry.live(), device.id);
                },
                Err(_) => {},
            }
        },
    }
}

/// Through every run of commands, the event sockets on disk are exactly
/// those of the live devices, one for each, provided they were at the
/// start.
pub proof fn lemma_sockets_match_live_devices(
    states: Seq<Manager>,
    files: Seq<Set<Seq<char>>>,
    events: Seq<LifecycleEvent>,
)
    requires
        lifecycle(states, files, events),
        files[0] == event_sockets(states[0].registry.live()),
    ensures
        forall|i: int|
            0 <= i < states.len() ==> #[trigger] files[i] == event_sockets(
                states[i].registry.live(),
            ),
    decreases events.len(),
{
    if events.len() > 0 {
        let n = events.len() as int;
        let head_states = states.drop_last();
        let head_files = files.drop_last();
        let head_events = events.drop_last();
        assert(lifecycle(head_states, head_files, head_events)) by {
            assert forall|i: int| 0 <= i < head_events.len() implies lifecycle_step(
                head_states[i],
                head_files[i],
                #[trigger] head_events[i],
                head_states[i + 1],
                head_files[i + 1],
            ) by {
                assert(head_events[i] == events[i]);
            }
        }
        lemma_sockets_match_live_devices(head_states, head_files, head_events);
        assert(head_files[n - 1] == event_sockets(head_states[n - 1].registry.live()));
        assert(lifecycle_step(states[n - 1], files[n - 1], events[n - 1], states[n], files[n]));
        lemma_step_keeps_sockets(states[n - 1], files[n - 1], events[n - 1], states[n], files[n]);
        assert forall|i: int| 0 <= i < states.len() implies #[trigger] files[i] == event_sockets(
            states[i].registry.live(),
        ) by {
            if i < n {
                assert(head_files[i] == event_sockets(head_states[i].registry.live()));
            }
        }
    }
}

/// Two pings in a row are both answered with `Pong` and leave the manager
/// as it was.
pub proof fn lemma_ping_changes_nothing(
    pre: Manager,
    mid: Manager,
    post: Manager,
    first: CommandOutcome,
    second: CommandOutcome,
    time: TimeVal,
    time_ms: u32,
)
    requires
        control_step(pre, mid, ControlCommand::Ping, time, time_ms, first),
        control_step(mid, post, ControlCommand::Ping, time, time_ms, second),
    ensures
        post == pre,
        first == (CommandOutcome::Reply { result: ControlResult::Pong }),
        second == (CommandOutcome::Reply { result: ControlResult::Pong }),
{
}

/// The id of a client's device that was destroyed is the next to be
/// handed out.
pub proof fn lemma_destroyed_id_is_reused(
    pre: Manager,
    mid: Manager,
    post: Manager,
    device_id: DeviceId,
    config: DeviceConfig,
    first: CommandOutcome,
    second: CommandOutcome,
    time: TimeVal,
    time_ms: u32,
)
    requires
        pre.registry.live().contains(device_id),
        pre.registry.devices@[device_id].owner == DeviceOwner::Client,
        name_fits(config@),
        control_step(pre, mid, ControlCommand::DestroyDevice { device_id }, time, time_ms, first),
        control_step(mid, post, ControlCommand::CreateDevice { config }, time, time_ms, second),
    ensures
        second matches CommandOutcome::Build { device } && device.id == device_id,
        post.registry.ids.free@ == pre.registry.ids.free@,
        post.registry.ids.next == pre.registry.ids.next,
{
    assert(mid.registry.ids.free@.last() == device_id);
    assert(mid.registry.ids.free@.drop_last() =~= pre.registry.ids.free@);
}

/// With an empty pool the ids are handed out in order: a device gets the
/// counter's id, and the next device the id after it.
pub proof fn lemma_ids_count_up(
    pre: Manager,
    mid: Manager,
    post: Manager,
    one: DeviceConfig,
    two: DeviceConfig,
    first: CommandOutcome,
    second: CommandOutcome,
    time: TimeVal,
    time_ms: u32,
)
    requires
        pre.registry.ids.free@.len() == 0,
        pre.registry.ids.next < u64::MAX - 1,
        name_fits(one@),
        name_fits(two@),
        control_step(pre, mid, ControlCommand::CreateDevice { config: one }, time, time_ms, first),
        control_step(mid, post, ControlCommand::CreateDevice { config: two }, time, time_ms, second),
    ensures
        first matches CommandOutcome::Build { device } && device.id == pre.registry.ids.next,
        second matches CommandOutcome::Build { device } && device.id == pre.registry.ids.next + 1,
        post.registry.ids.next == pre.registry.ids.next + 2,
        post.registry.ids.free@.len() == 0,
{
}

/// A device that is not live appears in no listing.
pub proof fn lemma_listing_shows_live_devices_only(
    list: Seq<DeviceInfo>,
    registry: Registry,
    id: DeviceId,
)
    requires
        is_listing(list, registry),
        !registry.live().contains(id),
    ensures
        forall|i: int| 0 <= i < list.len() ==> (#[trigger] list[i]).device_id != id,
{
}

} // verus!
