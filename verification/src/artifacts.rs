//! What a device has outside the manager: the sockets it listens on and
//! its sysfs subtree. The plans here tell the I/O side what to bring into
//! being when a device is built and what to take away when it goes.

use vstd::prelude::*;
use vstd::string::StringExecFns;
use crate::device::{
    event_node_name, has_joystick, joystick_node_name, StreamKind, VirtualDevice,
};
use crate::protocol::{DeviceConfigView, DeviceId};
use crate::sysfs::{
    capability_entries, class_link, device_entries, directory_entries, entries_view, event_dir,
    identity_entries, input_dir, node_entries, paths_view, removed_paths, udev_data_file,
    SysfsEntry, SysfsEntryView, SysfsGenerator,
};
use crate::text::has_prefix;

verus! {

/// One socket of a device.
#[derive(Debug, Clone, PartialEq, Eq)]
pub struct SocketSpec {
    pub kind: StreamKind,
    /// Where the socket stands, below the base directory.
    pub path: String,
}

/// What is to be brought into being for a device, in this order: the
/// event socket, the sysfs subtree, the feedback socket and, where the
/// device has a joystick node, the joystick socket. Where any of it
/// fails, what was made is taken away again as the teardown plan says.
#[derive(Debug)]
pub struct ConstructionPlan {
    pub event_socket: SocketSpec,
    pub sysfs: Vec<SysfsEntry>,
    pub feedback_socket: SocketSpec,
    pub joystick_socket: Option<SocketSpec>,
}

/// What is to be taken away when a device goes.
#[derive(Debug)]
pub struct TeardownPlan {
    /// The socket files to unlink.
    pub sockets: Vec<String>,
    /// The sysfs entries to remove with everything below them.
    pub sysfs: Vec<String>,
}

/// Path of the event socket of device `id`.
pub open spec fn event_socket(id: DeviceId) -> Seq<char> {
    "devices/"@ + event_node_name(id)
}

/// Path of the feedback socket of device `id`.
pub open spec fn feedback_socket(id: DeviceId) -> Seq<char> {
    "devices/"@ + event_node_name(id) + ".feedback"@
}

/// Path of the joystick socket of device `id`.
pub open spec fn joystick_socket(id: DeviceId) -> Seq<char> {
    "devices/"@ + joystick_node_name(id)
}

/// The paths of all sockets of a device.
pub open spec fn socket_paths(id: DeviceId, config: DeviceConfigView) -> Seq<Seq<char>> {
    if has_joystick(config) {
        seq![event_socket(id), feedback_socket(id), joystick_socket(id)]
    } else {
        seq![event_socket(id), feedback_socket(id)]
    }
}

/// Whether a plan is the construction plan of a device.
pub open spec fn is_construction_plan(plan: ConstructionPlan, id: DeviceId, config: DeviceConfigView) -> bool {
    &&& plan.event_socket.kind == StreamKind::Event
    &&& plan.event_socket.path@ == event_socket(id)
    &&& entries_view(plan.sysfs@) == device_entries(id, config)
    &&& plan.feedback_socket.kind == StreamKind::Feedback
    &&& plan.feedback_socket.path@ == feedback_socket(id)
    &&& plan.joystick_socket is Some <==> has_joystick(config)
    &&& plan.joystick_socket is Some ==> plan.joystick_socket->0.kind == StreamKind::Joystick
        && plan.joystick_socket->0.path@ == joystick_socket(id)
}

/// Whether a plan is the teardown plan of a device.
pub open spec fn is_teardown_plan(plan: TeardownPlan, id: DeviceId, config: DeviceConfigView) -> bool {
    &&& paths_view(plan.sockets@) == socket_paths(id, config)
    &&& paths_view(plan.sysfs@) == removed_paths(id)
}

impl VirtualDevice {
    /// What is to be brought into being for this device.
    pub fn construction_plan(&self) -> (plan: ConstructionPlan)
        requires
            self.wf(),
        ensures
            is_construction_plan(plan, self.id, self.config@),
    {
        let joystick_socket = match self.joystick_socket_path() {
            Some(path) => Some(SocketSpec { kind: StreamKind::Joystick, path }),
            None => None,
        };
        ConstructionPlan {
            event_socket: SocketSpec { kind: StreamKind::Event, path: self.event_socket_path() },
            sysfs: SysfsGenerator::create_device_files(self.id, &self.config),
            feedback_socket: SocketSpec {
                kind: StreamKind::Feedback,
                path: self.feedback_socket_path(),
            },
            joystick_socket,
        }
    }

    /// What is to be taken away when this device goes.
    pub fn teardown_plan(&self) -> (plan: TeardownPlan)
        requires
            self.wf(),
        ensures
            is_teardown_plan(plan, self.id, self.config@),
    {
        let mut sockets: Vec<String> = Vec::new();
        sockets.push(self.event_socket_path());
        sockets.push(self.feedback_socket_path());
        match self.joystick_socket_path() {
            Some(path) => {
                sockets.push(path);
            },
            None => {},
        }
        assert(paths_view(sockets@) =~= socket_paths(self.id, self.config@));
        TeardownPlan { sockets, sysfs: SysfsGenerator::remove_device_files(self.id) }
    }
}

/// A text starts with each of its beginnings.
pub proof fn lemma_starts_with_beginning(a: Seq<char>, b: Seq<char>)
    ensures
        has_prefix(a + b, a),
{
    assert((a + b).subrange(0, a.len() as int) =~= a);
}

/// Whether a path is removed when the paths in `roots` are removed with
/// everything below them.
pub open spec fn is_removed_with(path: Seq<char>, roots: Seq<Seq<char>>) -> bool {
    exists|i: int| 0 <= i < roots.len() && has_prefix(path, #[trigger] roots[i])
}

/// Whether an entry is one of the two directories that all devices share.
pub open spec fn is_shared_directory(e: SysfsEntryView) -> bool {
    e.path == "sysfs/class/input"@ || e.path == "udev_data"@
}

/// Whatever the building of a device writes is taken away when the
/// device goes: every socket of the construction plan is in the teardown
/// plan, and every sysfs entry is one of the shared directories or stands
/// at or below a path that the teardown plan removes.
pub proof fn lemma_teardown_covers_construction(
    construction: ConstructionPlan,
    teardown: TeardownPlan,
    id: DeviceId,
    config: DeviceConfigView,
)
    requires
        is_construction_plan(construction, id, config),
        is_teardown_plan(teardown, id, config),
    ensures
        paths_view(teardown.sockets@).contains(construction.event_socket.path@),
        paths_view(teardown.sockets@).contains(construction.feedback_socket.path@),
        construction.joystick_socket is Some ==> paths_view(teardown.sockets@).contains(
            construction.joystick_socket->0.path@,
        ),
        forall|i: int|
            0 <= i < construction.sysfs@.len() ==> is_shared_directory(
                #[trigger] entries_view(construction.sysfs@)[i],
            ) || is_removed_with(
                entries_view(construction.sysfs@)[i].path,
                paths_view(teardown.sysfs@),
            ),
{
    let sockets = paths_view(teardown.sockets@);
    assert(sockets[0] == event_socket(id));
    assert(sockets[1] == feedback_socket(id));
    if has_joystick(config) {
        assert(sockets[2] == joystick_socket(id));
    }
    let roots = paths_view(teardown.sysfs@);
    assert(roots[0] == class_link(id));
    assert(roots[1] == input_dir(id));
    assert(roots[2] == udev_data_file(id));
    let entries = entries_view(construction.sysfs@);
    lemma_entries_are_covered(id, config);
    assert forall|i: int| 0 <= i < construction.sysfs@.len() implies is_shared_directory(
        #[trigger] entries[i],
    ) || is_removed_with(entries[i].path, roots) by {
        let e = entries[i];
        if !is_shared_directory(e) {
            if has_prefix(e.path, input_dir(id)) {
                assert(has_prefix(e.path, roots[1]));
            } else if has_prefix(e.path, class_link(id)) {
                assert(has_prefix(e.path, roots[0]));
            } else {
                assert(has_prefix(e.path, roots[2]));
            }
        }
    }
}

/// Every entry of a device's subtree is a shared directory or stands at
/// or below the device directory, the class link or the udev data file.
pub proof fn lemma_entries_are_covered(id: DeviceId, config: DeviceConfigView)
    ensures
        forall|i: int|
            0 <= i < device_entries(id, config).len() ==> {
                let e = #[trigger] device_entries(id, config)[i];
                is_shared_directory(e) || has_prefix(e.path, input_dir(id)) || has_prefix(
                    e.path,
                    class_link(id),
                ) || has_prefix(e.path, udev_data_file(id))
            },
{
    let base = input_dir(id);
    let event = event_dir(id);
    assert forall|suffix: Seq<char>| has_prefix(#[trigger] (base + suffix), base) by {
        lemma_starts_with_beginning(base, suffix);
    }
    assert forall|suffix: Seq<char>| has_prefix(#[trigger] (event + suffix), base) by {
        assert(event + suffix =~= base + ("/"@ + event_node_name(id) + suffix));
        lemma_starts_with_beginning(base, "/"@ + event_node_name(id) + suffix);
    }
    assert(has_prefix(base, base)) by {
        assert(base.subrange(0, base.len() as int) =~= base);
    }
    assert(has_prefix(event, base)) by {
        assert(event =~= base + ("/"@ + event_node_name(id)));
        lemma_starts_with_beginning(base, "/"@ + event_node_name(id));
    }
    assert(has_prefix(class_link(id), class_link(id))) by {
        assert(class_link(id).subrange(0, class_link(id).len() as int) =~= class_link(id));
    }
    assert(has_prefix(udev_data_file(id), udev_data_file(id))) by {
        assert(udev_data_file(id).subrange(0, udev_data_file(id).len() as int)
            =~= udev_data_file(id));
    }
    let d = directory_entries(id);
    let n = identity_entries(id, config);
    let c = capability_entries(id, config);
    let o = node_entries(id, config);
    let all = device_entries(id, config);
    assert(all.len() == 30);
    assert forall|i: int| 0 <= i < all.len() implies {
        let e = #[trigger] all[i];
        is_shared_directory(e) || has_prefix(e.path, base) || has_prefix(e.path, class_link(id))
            || has_prefix(e.path, udev_data_file(id))
    } by {
        if i < 4 {
            assert(all[i] == d[i]);
        } else if i < 11 {
            assert(all[i] == n[i - 4]);
        } else if i < 22 {
            assert(all[i] == c[i - 11]);
        } else {
            assert(all[i] == o[i - 22]);
        }
    }
}

/// Different devices have different event sockets: no device's building
/// or taking down touches the event socket of another.
pub proof fn lemma_event_sockets_differ(a: DeviceId, b: DeviceId)
    requires
        event_socket(a) == event_socket(b),
    ensures
        a == b,
{
    assert(event_socket(a) =~= ("devices/"@ + "event"@) + crate::text::decimal(a as nat));
    assert(event_socket(b) =~= ("devices/"@ + "event"@) + crate::text::decimal(b as nat));
    crate::text::lemma_decimal_is_injective("devices/"@ + "event"@, a as nat, b as nat);
}

/// The event sockets of a set of devices.
pub open spec fn event_sockets(ids: Set<DeviceId>) -> Set<Seq<char>> {
    Set::new(|path: Seq<char>| exists|id: DeviceId| ids.contains(id) && path == event_socket(id))
}

/// Binding the event socket of a device adds exactly that file to the
/// event sockets on disk, and unlinking it takes exactly that file away.
pub proof fn lemma_event_sockets_follow(ids: Set<DeviceId>, id: DeviceId)
    ensures
        event_sockets(ids.insert(id)) == event_sockets(ids).insert(event_socket(id)),
        event_sockets(ids.remove(id)) == event_sockets(ids).remove(event_socket(id)),
{
    assert forall|path: Seq<char>| event_sockets(ids.insert(id)).contains(path)
        == event_sockets(ids).insert(event_socket(id)).contains(path) by {
        if event_sockets(ids.insert(id)).contains(path) {
            let x = choose|x: DeviceId| ids.insert(id).contains(x) && path == event_socket(x);
            if x != id {
                assert(ids.contains(x));
            }
        }
        if event_sockets(ids).contains(path) {
            let x = choose|x: DeviceId| ids.contains(x) && path == event_socket(x);
            assert(ids.insert(id).contains(x));
        }
        if path == event_socket(id) {
            assert(ids.insert(id).contains(id));
        }
    }
    assert(event_sockets(ids.insert(id)) =~= event_sockets(ids).insert(event_socket(id)));
    assert forall|path: Seq<char>| event_sockets(ids.remove(id)).contains(path)
        == event_sockets(ids).remove(event_socket(id)).contains(path) by {
        if event_sockets(ids.remove(id)).contains(path) {
            let x = choose|x: DeviceId| ids.remove(id).contains(x) && path == event_socket(x);
            assert(ids.contains(x));
            if path == event_socket(id) {
                lemma_event_sockets_differ(x, id);
            }
        }
        if event_sockets(ids).contains(path) && path != event_socket(id) {
            let x = choose|x: DeviceId| ids.contains(x) && path == event_socket(x);
            assert(ids.remove(id).contains(x));
        }
    }
    assert(event_sockets(ids.remove(id)) =~= event_sockets(ids).remove(event_socket(id)));
}

} // verus!
