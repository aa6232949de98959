//! The session state machine of the uinput relay: setup, creation of the
//! mirror device, forwarding of written events, and the cleanup when a
//! session ends.

use std::collections::HashMap;
use vstd::prelude::*;
use vstd::string::StringExecFns;
use crate::device::{in_phase, is_fanout, DeviceOwner, DevicePhase, FanOut, VirtualDevice};
use crate::idmap::remove_value;
use crate::ids::{given_back, handed_out};
use crate::protocol::{
    name_fits, DeviceConfig, DeviceId, InputEvent, LinuxInputEvent, TimeVal, UinputRequest,
    UinputResponse,
};
use crate::registry::Registry;
use crate::udev::{is_broadcast, Broadcast, UdevAction, UdevBroadcaster};
use crate::uinput::{
    blank_state, config_of, is_setup_message, logical_events, state_after, translate_records,
    UinputDeviceState,
};

verus! {

broadcast use vstd::std_specs::hash::group_hash_axioms;

/// Where a session stands.
#[derive(Debug, Clone, Copy, PartialEq, Eq, Structural)]
pub enum SessionPhase {
    /// The consumer configures its device.
    Setup,
    /// The mirror device exists and takes events.
    Running,
    /// The session is over.
    Closed,
}

/// The state of one uinput session.
#[derive(Debug)]
pub struct UinputSession {
    pub state: UinputDeviceState,
    pub phase: SessionPhase,
    /// The mirror device this session created.
    pub created_device_id: Option<DeviceId>,
    /// The device whose input the mirror device repeats.
    pub source_device_id: Option<DeviceId>,
}

impl UinputSession {
    /// A session holds a mirror device exactly while it is running, and
    /// knows its source exactly then.
    pub open spec fn wf(&self) -> bool {
        &&& self.phase == SessionPhase::Running <==> self.created_device_id is Some
        &&& self.created_device_id is Some <==> self.source_device_id is Some
    }

    /// The id of the session's mirror device is not free for another device.
    pub open spec fn bound_to(&self, registry: &Registry) -> bool {
        self.created_device_id is Some ==> registry.ids.in_use(self.created_device_id->0)
    }

    /// Whether the session is in order.
    pub fn is_wf(&self) -> (r: bool)
        ensures
            r == self.wf(),
    {
        let running = match self.phase {
            SessionPhase::Running => true,
            _ => false,
        };
        running == self.created_device_id.is_some() && self.created_device_id.is_some()
            == self.source_device_id.is_some()
    }

    /// Whether the id of the session's mirror device is not free for
    /// another device.
    pub fn is_bound_to(&self, registry: &Registry) -> (r: bool)
        ensures
            r == self.bound_to(registry),
    {
        match self.created_device_id {
            Some(id) => registry.ids.is_in_use(id),
            None => true,
        }
    }

    /// A session in which nothing is set up.
    pub fn new() -> (r: UinputSession)
        ensures
            r.wf(),
            r.phase == SessionPhase::Setup,
            r.created_device_id is None,
            r.source_device_id is None,
            r.state@ == blank_state(),
    {
        UinputSession {
            state: UinputDeviceState::new(),
            phase: SessionPhase::Setup,
            created_device_id: None,
            source_device_id: None,
        }
    }
}

/// Bytes for the consumers of one device.
#[derive(Debug)]
pub struct Delivery {
    pub device_id: DeviceId,
    pub fanout: FanOut,
}

/// What the I/O side has to do after a session message.
#[derive(Debug)]
pub enum SessionAction {
    /// Nothing.
    Nothing,
    /// Bring the sockets and the sysfs subtree of `device` into being, then
    /// report with `finish_create`.
    Build { device: VirtualDevice, source: DeviceId },
    /// Take down what `device` had outside: close its consumers, unlink its
    /// sockets, remove its sysfs subtree; then send `hotplug`.
    Teardown { device: VirtualDevice, hotplug: Broadcast },
    /// Write the bytes to the consumers of the device.
    Deliver { delivery: Delivery },
}

/// The answer to a session message, if it gets one, and what is to be done.
#[derive(Debug)]
pub struct RequestOutcome {
    pub response: Option<UinputResponse>,
    pub action: SessionAction,
}

/// The relay: the map from each source device to its mirror device.
#[derive(Debug)]
pub struct UinputEmulator {
    pub mirror_map: HashMap<DeviceId, DeviceId>,
}

/// Everything a session message can see or change.
pub struct RelayWorld {
    pub session: UinputSession,
    pub registry: Registry,
    pub mirror: Map<DeviceId, DeviceId>,
    pub udev: UdevBroadcaster,
}

/// A response that reports success.
pub open spec fn succeeded(r: UinputResponse, device_id: Option<DeviceId>) -> bool {
    r.success && r.device_id == device_id && r.error is None
}

/// A response that reports a failure in the given words.
pub open spec fn failed_with(r: UinputResponse, text: Seq<char>) -> bool {
    !r.success && r.device_id is None && r.error is Some && r.error->0@ == text
}

/// The mirror map without any entry that leads to `id`.
pub open spec fn cleared(m: Map<DeviceId, DeviceId>, id: DeviceId) -> Map<DeviceId, DeviceId> {
    m.restrict(Set::new(|k: DeviceId| m.dom().contains(k) && m[k] != id))
}

/// Whether a session kept everything but, possibly, its accumulated setup.
pub open spec fn session_kept(pre: UinputSession, post: UinputSession) -> bool {
    &&& post.phase == pre.phase
    &&& post.created_device_id == pre.created_device_id
    &&& post.source_device_id == pre.source_device_id
}

/// Whether nothing outside the session changed.
pub open spec fn surroundings_kept(pre: RelayWorld, post: RelayWorld) -> bool {
    &&& post.registry == pre.registry
    &&& post.mirror == pre.mirror
    &&& post.udev == pre.udev
}

/// Whether nothing changed at all.
pub open spec fn nothing_changed(pre: RelayWorld, post: RelayWorld) -> bool {
    &&& surroundings_kept(pre, post)
    &&& session_kept(pre.session, post.session)
    &&& post.session.state@ == pre.session.state@
}

/// A message is refused: the answer says why (a `WriteEvents` gets none),
/// nothing is to be done and nothing changes.
pub open spec fn refused(
    pre: RelayWorld,
    post: RelayWorld,
    request: UinputRequest,
    out: RequestOutcome,
    text: Seq<char>,
) -> bool {
    &&& nothing_changed(pre, post)
    &&& out.action is Nothing
    &&& if request is WriteEvents {
        out.response is None
    } else {
        out.response is Some && failed_with(out.response->0, text)
    }
}

/// The end of a session, by `DevDestroy` or by the end of its transport:
/// the session is closed and holds no device; its mirror device, if it had
/// one, is no longer live and its id is given back to the pool; no entry
/// of the mirror map leads to it, and every other entry stays; where the
/// device was still live it is handed out to be taken down, with the
/// hotplug record of its removal.
pub open spec fn session_ended(pre: RelayWorld, post: RelayWorld, action: SessionAction) -> bool {
    &&& post.session.phase == SessionPhase::Closed
    &&& post.session.created_device_id is None
    &&& post.session.source_device_id is None
    &&& post.session.state@ == pre.session.state@
    &&& post.registry.wf()
    &&& match pre.session.created_device_id {
        None => surroundings_kept(pre, post) && action is Nothing,
        Some(c) => {
            &&& post.mirror == cleared(pre.mirror, c)
            &&& post.registry.devices@ == pre.registry.devices@.remove(c)
            &&& !post.registry.live().contains(c)
            &&& given_back(pre.registry.ids, post.registry.ids, c)
            &&& !post.registry.ids.in_use(c)
            &&& forall|other: DeviceId|
                other != c ==> (#[trigger] post.registry.ids.in_use(other)
                    <==> pre.registry.ids.in_use(other))
            &&& if pre.registry.live().contains(c) {
                &&& action matches SessionAction::Teardown { device, hotplug }
                &&& device == in_phase(pre.registry.devices@[c], DevicePhase::Draining)
                &&& is_broadcast(
                    pre.udev,
                    post.udev,
                    UdevAction::Remove,
                    c,
                    device.config@,
                    hotplug,
                )
            } else {
                action is Nothing && post.udev == pre.udev
            }
        },
    }
}

/// One step of a session: what a message does in each phase.
///
/// * In a closed session every message is refused.
/// * A setup message is taken in during setup, and answered with success;
///   once the device exists it is refused.
/// * `DevCreate` during setup picks the smallest live id as the source and
///   reserves an id for the mirror device, which is handed out to be
///   built; the answer follows from `finish_create`. With a name that does
///   not fit, without a live device or without a free id it is refused, as
///   it is once the device exists.
/// * `WriteEvents` while running forwards the logical events of the
///   records to the mirror device; it is never answered.
/// * `DevDestroy` ends the session.
pub open spec fn relay_step(
    pre: RelayWorld,
    post: RelayWorld,
    request: UinputRequest,
    time: TimeVal,
    time_ms: u32,
    out: RequestOutcome,
) -> bool {
    if pre.session.phase == SessionPhase::Closed {
        refused(pre, post, request, out, "Session closed"@)
    } else if is_setup_message(request) {
        if pre.session.phase == SessionPhase::Setup {
            &&& surroundings_kept(pre, post)
            &&& session_kept(pre.session, post.session)
            &&& post.session.state@ == state_after(pre.session.state@, request)
            &&& out.action is Nothing
            &&& out.response is Some
            &&& succeeded(out.response->0, None)
        } else {
            refused(pre, post, request, out, "Device already created"@)
        }
    } else {
        match request {
            UinputRequest::DevCreate => {
                if pre.session.phase != SessionPhase::Setup {
                    refused(pre, post, request, out, "Device already created"@)
                } else if !name_fits(config_of(pre.session.state@)) {
                    refused(
                        pre,
                        post,
                        request,
                        out,
                        "Create failed: the name is longer than 79 bytes"@,
                    )
                } else if pre.registry.live() == Set::<DeviceId>::empty() {
                    refused(pre, post, request, out, "No source device"@)
                } else if pre.registry.ids.peek() is None {
                    refused(pre, post, request, out, "Create failed: no device id left"@)
                } else {
                    &&& session_kept(pre.session, post.session)
                    &&& post.session.state@ == pre.session.state@
                    &&& post.mirror == pre.mirror
                    &&& post.udev == pre.udev
                    &&& post.registry.devices == pre.registry.devices
                    &&& post.registry.wf()
                    &&& out.response is None
                    &&& out.action matches SessionAction::Build { device, source }
                    &&& pre.registry.live().contains(source)
                    &&& forall|id: DeviceId| pre.registry.live().contains(id) ==> source <= id
                    &&& Some(device.id) == pre.registry.ids.peek()
                    &&& handed_out(pre.registry.ids, post.registry.ids)
                    &&& post.registry.pending(device.id)
                    &&& forall|other: DeviceId|
                        other != device.id ==> (#[trigger] post.registry.ids.in_use(other)
                            <==> pre.registry.ids.in_use(other))
                    &&& device.wf()
                    &&& device.owner == DeviceOwner::Relay
                    &&& device.phase == DevicePhase::Constructing
                    &&& device.config@ == config_of(pre.session.state@)
                    &&& device.clients@.len() == 0
                    &&& device.joystick_clients@.len() == 0
                    &&& device.feedback_clients@.len() == 0
                }
            },
            UinputRequest::WriteEvents { events } => {
                &&& nothing_changed(pre, post)
                &&& out.response is None
                &&& if pre.session.created_device_id is Some && pre.registry.live().contains(
                    pre.session.created_device_id->0,
                ) && logical_events(events@).len() > 0 {
                    &&& out.action matches SessionAction::Deliver { delivery }
                    &&& delivery.device_id == pre.session.created_device_id->0
                    &&& is_fanout(
                        pre.registry.devices@[delivery.device_id],
                        logical_events(events@),
                        time,
                        time_ms,
                        delivery.fanout,
                    )
                } else {
                    out.action is Nothing
                }
            },
            UinputRequest::DevDestroy => {
                &&& session_ended(pre, post, out.action)
                &&& out.response is Some
                &&& succeeded(out.response->0, None)
            },
            _ => false,
        }
    }
}

/// The end of the building of a mirror device. Where it succeeded the
/// device is live, the mirror map leads from the source to it (whatever it
/// led to before), the session is running and holds both ids, the answer
/// carries the new id, and the hotplug record of the arrival goes out.
/// Where it failed the reserved id is given back to the pool, the answer
/// says why, and nothing else changes.
pub open spec fn create_finished(
    pre: RelayWorld,
    post: RelayWorld,
    device: VirtualDevice,
    source: DeviceId,
    built: Result<(), String>,
    response: UinputResponse,
    hotplug: Option<Broadcast>,
) -> bool {
    &&& post.registry.wf()
    &&& post.session.state@ == pre.session.state@
    &&& match built {
        Ok(_) => {
            &&& post.registry.devices@ == pre.registry.devices@.insert(
                device.id,
                in_phase(device, DevicePhase::Serving),
            )
            &&& post.registry.ids == pre.registry.ids
            &&& post.mirror == pre.mirror.insert(source, device.id)
            &&& post.session.phase == SessionPhase::Running
            &&& post.session.created_device_id == Some(device.id)
            &&& post.session.source_device_id == Some(source)
            &&& succeeded(response, Some(device.id))
            &&& hotplug is Some
            &&& is_broadcast(
                pre.udev,
                post.udev,
                UdevAction::Add,
                device.id,
                device.config@,
                hotplug->0,
            )
        },
        Err(reason) => {
            &&& post.registry.devices == pre.registry.devices
            &&& given_back(pre.registry.ids, post.registry.ids, device.id)
            &&& !post.registry.ids.in_use(device.id)
            &&& forall|other: DeviceId|
                other != device.id ==> (#[trigger] post.registry.ids.in_use(other)
                    <==> pre.registry.ids.in_use(other))
            &&& post.mirror == pre.mirror
            &&& post.udev == pre.udev
            &&& session_kept(pre.session, post.session)
            &&& failed_with(response, "Create failed: "@ + reason@)
            &&& hotplug is None
        },
    }
}

fn success_response(device_id: Option<DeviceId>) -> (r: UinputResponse)
    ensures
        succeeded(r, device_id),
{
    UinputResponse { success: true, device_id, error: None }
}

fn failure_response(text: &str) -> (r: UinputResponse)
    ensures
        failed_with(r, text@),
{
    UinputResponse { success: false, device_id: None, error: Some(String::from_str(text)) }
}

impl UinputEmulator {
    /// A relay without mirror devices.
    pub fn new() -> (r: UinputEmulator)
        ensures
            r.mirror_map@ == Map::<DeviceId, DeviceId>::empty(),
    {
        UinputEmulator { mirror_map: HashMap::new() }
    }

    /// Forgets every entry that leads to `id`.
    pub fn forget(&mut self, id: DeviceId)
        ensures
            final(self).mirror_map@ == cleared(old(self).mirror_map@, id),
    {
        remove_value(&mut self.mirror_map, id);
    }

    /// The bytes that a batch sent into `source_device_id` puts on the
    /// streams of its mirror device: none where the batch is empty, where
    /// the device has no mirror, or where the mirror is no longer live.
    pub fn mirror_to_uinput_devices(
        &self,
        registry: &Registry,
        source_device_id: DeviceId,
        events: &Vec<InputEvent>,
        time: TimeVal,
        time_ms: u32,
    ) -> (r: Option<Delivery>)
        requires
            registry.wf(),
        ensures
            match r {
                Some(d) => {
                    &&& events@.len() > 0
                    &&& self.mirror_map@.dom().contains(source_device_id)
                    &&& d.device_id == self.mirror_map@[source_device_id]
                    &&& registry.live().contains(d.device_id)
                    &&& is_fanout(registry.devices@[d.device_id], events@, time, time_ms, d.fanout)
                },
                None => events@.len() == 0 || !self.mirror_map@.dom().contains(source_device_id)
                    || !registry.live().contains(self.mirror_map@[source_device_id]),
            },
    {
        if events.len() == 0 {
            return None;
        }
        let mirror_id = match self.mirror_map.get(&source_device_id) {
            Some(m) => *m,
            None => {
                return None;
            },
        };
        match registry.get(mirror_id) {
            Some(device) => Some(
                Delivery { device_id: mirror_id, fanout: device.send_events(events, time, time_ms) },
            ),
            None => None,
        }
    }

    /// Ends a session whose transport has closed: the same as `DevDestroy`,
    /// without an answer.
    pub fn close_session(
        &mut self,
        registry: &mut Registry,
        udev: &mut UdevBroadcaster,
        session: &mut UinputSession,
    ) -> (action: SessionAction)
        requires
            old(registry).wf(),
            old(session).wf(),
            old(session).bound_to(old(registry)),
        ensures
            final(session).wf(),
            final(session).bound_to(final(registry)),
            session_ended(
                RelayWorld {
                    session: *old(session),
                    registry: *old(registry),
                    mirror: old(self).mirror_map@,
                    udev: *old(udev),
                },
                RelayWorld {
                    session: *final(session),
                    registry: *final(registry),
                    mirror: final(self).mirror_map@,
                    udev: *final(udev),
                },
                action,
            ),
    {
        let created = session.created_device_id;
        session.phase = SessionPhase::Closed;
        session.created_device_id = None;
        session.source_device_id = None;
        match created {
            None => SessionAction::Nothing,
            Some(c) => {
                self.forget(c);
                if registry.contains(c) {
                    let removed = registry.remove(c);
                    match removed {
                        Some(device) => {
                            let hotplug = udev.broadcast_remove(c, &device.config);
                            SessionAction::Teardown { device, hotplug }
                        },
                        None => SessionAction::Nothing,
                    }
                } else {
                    registry.cancel(c);
                    assert(registry.devices@ =~= old(registry).devices@.remove(c));
                    SessionAction::Nothing
                }
            },
        }
    }

    /// Takes one message of a session.
    pub fn process_request(
        &mut self,
        registry: &mut Registry,
        udev: &mut UdevBroadcaster,
        session: &mut UinputSession,
        request: UinputRequest,
        time: TimeVal,
        time_ms: u32,
    ) -> (out: RequestOutcome)
        requires
            old(registry).wf(),
            old(session).wf(),
            old(session).bound_to(old(registry)),
        ensures
            final(registry).wf(),
            final(session).wf(),
            final(session).bound_to(final(registry)),
            relay_step(
                RelayWorld {
                    session: *old(session),
                    registry: *old(registry),
                    mirror: old(self).mirror_map@,
                    udev: *old(udev),
                },
                RelayWorld {
                    session: *final(session),
                    registry: *final(registry),
                    mirror: final(self).mirror_map@,
                    udev: *final(udev),
                },
                request,
                time,
                time_ms,
                out,
            ),
    {
        let is_write = match &request {
            UinputRequest::WriteEvents { .. } => true,
            _ => false,
        };
        match session.phase {
            SessionPhase::Closed => {
                return refuse(is_write, "Session closed");
            },
            _ => {},
        }
        match request {
            UinputRequest::DevCreate => {
                match session.phase {
                    SessionPhase::Setup => {},
                    _ => {
                        return refuse(false, "Device already created");
                    },
                }
                let config = session.state.to_device_config();
                if !config.is_valid() {
                    return refuse(false, "Create failed: the name is longer than 79 bytes");
                }
                let source = match registry.min_id() {
                    Some(s) => s,
                    None => {
                        return refuse(false, "No source device");
                    },
                };
                assert(registry.live().contains(source));
                assert(registry.live() != Set::<DeviceId>::empty());
                let id = match registry.reserve() {
                    Some(id) => id,
                    None => {
                        return refuse(false, "Create failed: no device id left");
                    },
                };
                let device = VirtualDevice::create(id, config, DeviceOwner::Relay);
                RequestOutcome { response: None, action: SessionAction::Build { device, source } }
            },
            UinputRequest::DevDestroy => {
                let action = self.close_session(registry, udev, session);
                RequestOutcome { response: Some(success_response(None)), action }
            },
            UinputRequest::WriteEvents { events } => {
                let target = match session.created_device_id {
                    Some(c) => c,
                    None => {
                        return RequestOutcome { response: None, action: SessionAction::Nothing };
                    },
                };
                let input_events = translate_records(&events);
                if input_events.len() == 0 {
                    return RequestOutcome { response: None, action: SessionAction::Nothing };
                }
                match registry.get(target) {
                    Some(device) => RequestOutcome {
                        response: None,
                        action: SessionAction::Deliver {
                            delivery: Delivery {
                                device_id: target,
                                fanout: device.send_events(&input_events, time, time_ms),
                            },
                        },
                    },
                    None => RequestOutcome { response: None, action: SessionAction::Nothing },
                }
            },
            setup => {
                assert(is_setup_message(setup));
                match session.phase {
                    SessionPhase::Setup => {
                        session.state.apply(setup);
                        RequestOutcome {
                            response: Some(success_response(None)),
                            action: SessionAction::Nothing,
                        }
                    },
                    _ => refuse(false, "Device already created"),
                }
            },
        }
    }

    /// Takes the result of the building of a mirror device.
    pub fn finish_create(
        &mut self,
        registry: &mut Registry,
        udev: &mut UdevBroadcaster,
        session: &mut UinputSession,
        device: VirtualDevice,
        source: DeviceId,
        built: Result<(), String>,
    ) -> (r: (UinputResponse, Option<Broadcast>))
        requires
            old(registry).wf(),
            old(session).wf(),
            old(session).phase == SessionPhase::Setup,
            device.wf(),
            device.phase == DevicePhase::Constructing,
            old(registry).pending(device.id),
        ensures
            final(session).wf(),
            final(session).bound_to(final(registry)),
            create_finished(
                RelayWorld {
                    session: *old(session),
                    registry: *old(registry),
                    mirror: old(self).mirror_map@,
                    udev: *old(udev),
                },
                RelayWorld {
                    session: *final(session),
                    registry: *final(registry),
                    mirror: final(self).mirror_map@,
                    udev: *final(udev),
                },
                device,
                source,
                built,
                r.0,
                r.1,
            ),
    {
        match built {
            Ok(_) => {
                let id = device.id;
                let hotplug = udev.broadcast_add(id, &device.config);
                registry.insert(device);
                self.mirror_map.insert(source, id);
                session.phase = SessionPhase::Running;
                session.created_device_id = Some(id);
                session.source_device_id = Some(source);
                (success_response(Some(id)), Some(hotplug))
            },
            Err(reason) => {
                registry.cancel(device.id);
                let mut text = String::from_str("Create failed: ");
                text.append(reason.as_str());
                (UinputResponse { success: false, device_id: None, error: Some(text) }, None)
            },
        }
    }
}

/// The outcome of a refusal.
fn refuse(is_write: bool, text: &str) -> (out: RequestOutcome)
    ensures
        out.action is Nothing,
        is_write ==> out.response is None,
        !is_write ==> out.response is Some && failed_with(out.response->0, text@),
{
    if is_write {
        RequestOutcome { response: None, action: SessionAction::Nothing }
    } else {
        RequestOutcome { response: Some(failure_response(text)), action: SessionAction::Nothing }
    }
}

/// A session that has created its mirror device leaves no trace of it
/// when it ends: the device is not live any more, so no listing of the
/// live devices shows it, and no mirror entry leads to it. Every entry
/// that leads to another device stays as it was.
pub proof fn lemma_ended_session_leaves_no_device(
    pre: RelayWorld,
    post: RelayWorld,
    action: SessionAction,
)
    requires
        session_ended(pre, post, action),
        pre.session.created_device_id is Some,
    ensures
        !post.registry.live().contains(pre.session.created_device_id->0),
        forall|source: DeviceId|
            post.mirror.dom().contains(source) ==> post.mirror[source]
                != pre.session.created_device_id->0,
        forall|source: DeviceId|
            pre.mirror.dom().contains(source) && pre.mirror[source]
                != pre.session.created_device_id->0 ==> post.mirror.dom().contains(source)
                && post.mirror[source] == pre.mirror[source],
{
}

} // verus!
