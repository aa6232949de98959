//! One virtual device: its identity, the names of its nodes and sockets,
//! the consumers connected to each of its streams, and what a batch of
//! events puts on those streams.

use vstd::prelude::*;
use vstd::string::StringExecFns;
use crate::evdev::{batch_bytes, encode_batch, read_record, record_of_bytes};
use crate::fanout::{keep_unmarked, marks, remove_positions, rising_below};
use crate::feedback::{decoder_after, effect_of, RumbleDecoder};
use crate::joystick::{js_batch_bytes, native_byte_order};
use crate::protocol::{
    DeviceConfig, DeviceConfigView, DeviceHandshake, DeviceId, DeviceInfo, FeedbackEvent,
    InputEvent, TimeVal, EV_FF,
};
use crate::text::{decimal, push_decimal};
use crate::wire::ByteOrder;

verus! {

/// Handle by which the I/O side names one connected consumer.
pub type ConnId = u64;

/// The streams of a device.
#[derive(Debug, Clone, Copy, PartialEq, Eq, Structural)]
pub enum StreamKind {
    Event,
    Joystick,
    Feedback,
}

/// Name of the event node of device `id`.
pub open spec fn event_node_name(id: DeviceId) -> Seq<char> {
    "event"@ + decimal(id as nat)
}

/// Name of the joystick node of device `id`.
pub open spec fn joystick_node_name(id: DeviceId) -> Seq<char> {
    "js"@ + decimal(id as nat)
}

/// Whether a device with this configuration has a joystick node: it does
/// as soon as it declares a button or an axis.
pub open spec fn has_joystick(config: DeviceConfigView) -> bool {
    config.buttons.len() > 0 || config.axes.len() > 0
}

/// Who brought a device into being.
#[derive(Debug, Clone, Copy, PartialEq, Eq, Structural)]
pub enum DeviceOwner {
    /// A library client, by `CreateDevice`.
    Client,
    /// A uinput session, as the mirror of a source device.
    Relay,
}

/// Where a device stands in its life. A device is built, serves, and is
/// taken down, in this order and never back.
#[derive(Debug, Clone, Copy, PartialEq, Eq, Structural)]
pub enum DevicePhase {
    /// Its sockets and its sysfs subtree are being brought into being.
    Constructing,
    /// It is live: consumers connect and batches go out.
    Serving,
    /// It has left the registry and what it had outside is taken away.
    Draining,
}

/// The bytes of one batch for each stream of a device.
#[derive(Debug)]
pub struct FanOut {
    /// For every consumer of the event stream.
    pub evdev: Vec<u8>,
    /// For every consumer of the joystick stream, where the device has one.
    pub joystick: Option<Vec<u8>>,
}

/// Whether `out` is what a batch of `events` puts on the streams of
/// `device`: the evdev records on the event stream and, exactly where the
/// device has a joystick node, the joystick records on the joystick stream.
pub open spec fn is_fanout(
    device: VirtualDevice,
    events: Seq<InputEvent>,
    time: TimeVal,
    time_ms: u32,
    out: FanOut,
) -> bool {
    &&& out.evdev@ == batch_bytes(events, time)
    &&& out.joystick is Some <==> device.joystick_node is Some
    &&& out.joystick is Some ==> out.joystick->0@ == js_batch_bytes(
        device.config@,
        events,
        time_ms,
        device.byte_order,
    )
}

/// Whether `after` is `before` with one record of a consumer taken in, and
/// `forward` tells whether the record goes to the feedback subscribers:
/// it does where it is one whole force-feedback record. An effect that
/// the record completes waits to be polled; nothing else changes.
pub open spec fn is_ingress(
    before: VirtualDevice,
    after: VirtualDevice,
    record: Seq<u8>,
    forward: bool,
) -> bool {
    &&& after.id == before.id
    &&& after.owner == before.owner
    &&& after.phase == before.phase
    &&& after.config == before.config
    &&& after.event_node == before.event_node
    &&& after.joystick_node == before.joystick_node
    &&& after.byte_order == before.byte_order
    &&& forall|kind: StreamKind| after.consumers(kind) == before.consumers(kind)
    &&& if record.len() == 24 {
        &&& forward == (record_of_bytes(record).event_type == EV_FF)
        &&& after.rumble == decoder_after(before.rumble, record_of_bytes(record))
        &&& after.pending_feedback@ == match effect_of(before.rumble, record_of_bytes(record)) {
            Some(effect) => before.pending_feedback@.push(effect),
            None => before.pending_feedback@,
        }
    } else {
        &&& !forward
        &&& after.rumble == before.rumble
        &&& after.pending_feedback@ == before.pending_feedback@
    }
}

/// One live virtual device.
#[derive(Debug)]
pub struct VirtualDevice {
    pub id: DeviceId,
    pub owner: DeviceOwner,
    pub phase: DevicePhase,
    pub config: DeviceConfig,
    pub event_node: String,
    pub joystick_node: Option<String>,
    pub clients: Vec<ConnId>,
    pub joystick_clients: Vec<ConnId>,
    pub feedback_clients: Vec<ConnId>,
    pub byte_order: ByteOrder,
    pub rumble: RumbleDecoder,
    pub pending_feedback: Vec<FeedbackEvent>,
}

/// The name of the event node of device `id`.
pub fn event_node(id: DeviceId) -> (s: String)
    ensures
        s@ == event_node_name(id),
{
    let mut s = String::from_str("event");
    push_decimal(&mut s, id);
    s
}

/// The name of the joystick node of device `id`.
pub fn joystick_node(id: DeviceId) -> (s: String)
    ensures
        s@ == joystick_node_name(id),
{
    let mut s = String::from_str("js");
    push_decimal(&mut s, id);
    s
}

/// A device as it is in the given phase.
pub open spec fn in_phase(device: VirtualDevice, phase: DevicePhase) -> VirtualDevice {
    VirtualDevice { phase, ..device }
}

impl VirtualDevice {
    /// This device in another phase.
    pub fn enter(self, phase: DevicePhase) -> (r: VirtualDevice)
        ensures
            r == in_phase(self, phase),
    {
        let mut r = self;
        r.phase = phase;
        r
    }

    /// The node names are those of the id, and the joystick node exists
    /// exactly where the configuration calls for one.
    pub open spec fn wf(&self) -> bool {
        &&& self.event_node@ == event_node_name(self.id)
        &&& self.joystick_node is Some <==> has_joystick(self.config@)
        &&& self.joystick_node is Some ==> self.joystick_node->0@ == joystick_node_name(self.id)
    }

    /// The consumers of one stream.
    pub open spec fn consumers(&self, kind: StreamKind) -> Seq<ConnId> {
        match kind {
            StreamKind::Event => self.clients@,
            StreamKind::Joystick => self.joystick_clients@,
            StreamKind::Feedback => self.feedback_clients@,
        }
    }

    /// Whether the node names are in order.
    pub fn is_wf(&self) -> (r: bool)
        ensures
            r == self.wf(),
    {
        let node = event_node(self.id);
        if !crate::text::str_equals(self.event_node.as_str(), node.as_str()) {
            return false;
        }
        let wanted = self.config.buttons.len() > 0 || self.config.axes.len() > 0;
        match &self.joystick_node {
            Some(js) => {
                let name = joystick_node(self.id);
                wanted && crate::text::str_equals(js.as_str(), name.as_str())
            },
            None => !wanted,
        }
    }

    /// A new device with no consumer connected.
    pub fn create(id: DeviceId, config: DeviceConfig, owner: DeviceOwner) -> (r: VirtualDevice)
        ensures
            r.wf(),
            r.id == id,
            r.owner == owner,
            r.phase == DevicePhase::Constructing,
            r.config == config,
            r.clients@.len() == 0,
            r.joystick_clients@.len() == 0,
            r.feedback_clients@.len() == 0,
            r.pending_feedback@.len() == 0,
            r.rumble == (RumbleDecoder { strong: 0, weak: 0 }),
    {
        let js = if config.buttons.len() > 0 || config.axes.len() > 0 {
            Some(joystick_node(id))
        } else {
            None
        };
        VirtualDevice {
            id,
            owner,
            phase: DevicePhase::Constructing,
            config,
            event_node: event_node(id),
            joystick_node: js,
            clients: Vec::new(),
            joystick_clients: Vec::new(),
            feedback_clients: Vec::new(),
            byte_order: native_byte_order(),
            rumble: RumbleDecoder::new(),
            pending_feedback: Vec::new(),
        }
    }

    /// Socket of the event stream, below the base directory.
    pub fn event_socket_path(&self) -> (s: String)
        ensures
            s@ == "devices/"@ + self.event_node@,
    {
        let mut s = String::from_str("devices/");
        s.append(self.event_node.as_str());
        s
    }

    /// Socket of the joystick stream, below the base directory.
    pub fn joystick_socket_path(&self) -> (s: Option<String>)
        ensures
            s is Some <==> self.joystick_node is Some,
            s is Some ==> s->0@ == "devices/"@ + self.joystick_node->0@,
    {
        match &self.joystick_node {
            Some(node) => {
                let mut s = String::from_str("devices/");
                s.append(node.as_str());
                Some(s)
            },
            None => None,
        }
    }

    /// Socket on which the owner listens for force feedback, below the
    /// base directory.
    pub fn feedback_socket_path(&self) -> (s: String)
        ensures
            s@ == "devices/"@ + self.event_node@ + ".feedback"@,
    {
        let mut s = String::from_str("devices/");
        s.append(self.event_node.as_str());
        s.append(".feedback");
        s
    }

    /// What a consumer is told first when it connects.
    pub fn handshake(&self) -> (h: DeviceHandshake)
        ensures
            h.device_id == self.id,
            h.config@ == self.config@,
    {
        DeviceHandshake { device_id: self.id, config: self.config.duplicate() }
    }

    /// What `ListDevices` tells of this device.
    pub fn info(&self) -> (r: DeviceInfo)
        ensures
            r.device_id == self.id,
            r.name@ == self.config.name@,
            r.event_node@ == self.event_node@,
            r.joystick_node is Some <==> self.joystick_node is Some,
            r.joystick_node is Some ==> r.joystick_node->0@ == self.joystick_node->0@,
            r.vendor_id == self.config.vendor_id,
            r.product_id == self.config.product_id,
    {
        let js = match &self.joystick_node {
            Some(node) => Some(node.clone()),
            None => None,
        };
        DeviceInfo {
            device_id: self.id,
            name: self.config.name.clone(),
            event_node: self.event_node.clone(),
            joystick_node: js,
            vendor_id: self.config.vendor_id,
            product_id: self.config.product_id,
        }
    }

    /// Takes a consumer that has received its handshake into a stream.
    pub fn add_client(&mut self, kind: StreamKind, conn: ConnId)
        ensures
            final(self).consumers(kind) == old(self).consumers(kind).push(conn),
            forall|other: StreamKind|
                other != kind ==> final(self).consumers(other) == old(self).consumers(other),
            final(self).id == old(self).id,
            final(self).owner == old(self).owner,
            final(self).phase == old(self).phase,
            final(self).config == old(self).config,
            final(self).event_node == old(self).event_node,
            final(self).joystick_node == old(self).joystick_node,
            final(self).byte_order == old(self).byte_order,
            final(self).rumble == old(self).rumble,
            final(self).pending_feedback == old(self).pending_feedback,
    {
        match kind {
            StreamKind::Event => self.clients.push(conn),
            StreamKind::Joystick => self.joystick_clients.push(conn),
            StreamKind::Feedback => self.feedback_clients.push(conn),
        }
    }

    /// Takes the consumers at `failed` out of a stream after a write round:
    /// the consumers whose write failed leave, the others stay in their
    /// order, and nothing else of the device changes.
    pub fn remove_clients(&mut self, kind: StreamKind, failed: &Vec<usize>)
        requires
            rising_below(failed@, old(self).consumers(kind).len() as int),
        ensures
            final(self).consumers(kind) == keep_unmarked(old(self).consumers(kind), marks(failed@)),
            forall|other: StreamKind|
                other != kind ==> final(self).consumers(other) == old(self).consumers(other),
            final(self).id == old(self).id,
            final(self).owner == old(self).owner,
            final(self).phase == old(self).phase,
            final(self).config == old(self).config,
            final(self).event_node == old(self).event_node,
            final(self).joystick_node == old(self).joystick_node,
            final(self).byte_order == old(self).byte_order,
            final(self).rumble == old(self).rumble,
            final(self).pending_feedback == old(self).pending_feedback,
    {
        match kind {
            StreamKind::Event => remove_positions(&mut self.clients, failed),
            StreamKind::Joystick => remove_positions(&mut self.joystick_clients, failed),
            StreamKind::Feedback => remove_positions(&mut self.feedback_clients, failed),
        }
    }

    /// The bytes that one batch of events puts on the streams of this
    /// device: the evdev records on the event stream and, where the device
    /// has a joystick node, the joystick records on the joystick stream.
    pub fn send_events(&self, events: &Vec<InputEvent>, time: TimeVal, time_ms: u32) -> (out:
        FanOut)
        ensures
            is_fanout(*self, events@, time, time_ms, out),
    {
        let evdev = encode_batch(events, time);
        let joystick = if self.joystick_node.is_some() {
            Some(crate::joystick::encode_batch(&self.config, events, time_ms, self.byte_order))
        } else {
            None
        };
        FanOut { evdev, joystick }
    }

    /// Takes in one record that a consumer wrote into the event socket.
    /// Returns whether it goes, byte for byte, to every feedback
    /// subscriber: that is so for force-feedback records and no others. An
    /// effect that the record completes waits to be polled.
    pub fn feedback_ingress(&mut self, record: &[u8]) -> (forward: bool)
        ensures
            is_ingress(*old(self), *final(self), record@, forward),
    {
        if record.len() != 24 {
            return false;
        }
        let e = read_record(record, 0);
        assert(record@.subrange(0, 24) =~= record@);
        match self.rumble.feed(&e) {
            Some(effect) => {
                self.pending_feedback.push(effect);
            },
            None => {},
        }
        e.event_type == EV_FF
    }

    /// Hands out the oldest effect that waits to be polled.
    pub fn poll_feedback(&mut self) -> (r: Option<FeedbackEvent>)
        ensures
            old(self).pending_feedback@.len() == 0 ==> r is None && final(self).pending_feedback@
                == old(self).pending_feedback@,
            old(self).pending_feedback@.len() > 0 ==> r == Some(old(self).pending_feedback@[0])
                && final(self).pending_feedback@ == old(self).pending_feedback@.subrange(
                1,
                old(self).pending_feedback@.len() as int,
            ),
            final(self).id == old(self).id,
            final(self).owner == old(self).owner,
            final(self).phase == old(self).phase,
            final(self).config == old(self).config,
            final(self).event_node == old(self).event_node,
            final(self).joystick_node == old(self).joystick_node,
            final(self).byte_order == old(self).byte_order,
            final(self).rumble == old(self).rumble,
            forall|kind: StreamKind| final(self).consumers(kind) == old(self).consumers(kind),
    {
        if self.pending_feedback.len() == 0 {
            None
        } else {
            let e = self.pending_feedback.remove(0);
            Some(e)
        }
    }
}

} // verus!
