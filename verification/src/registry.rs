//! The registry of live devices, keyed by device id, together with the
//! allocator the ids come from.

use std::collections::HashMap;
use vstd::pervasive::unreached;
use vstd::prelude::*;
use crate::device::{in_phase, DevicePhase, VirtualDevice};
use crate::idmap::{keys_of, min_key};
use crate::ids::{given_back, handed_out, IdAllocator};
use crate::protocol::{DeviceId, DeviceInfo};

verus! {

broadcast use vstd::std_specs::hash::group_hash_axioms;

/// Live devices and the ids in circulation.
#[derive(Debug)]
pub struct Registry {
    pub devices: HashMap<DeviceId, VirtualDevice>,
    pub ids: IdAllocator,
}

impl Registry {
    /// The ids of the live devices.
    pub open spec fn live(&self) -> Set<DeviceId> {
        self.devices@.dom()
    }

    /// Whether `id` is reserved for a device that is not live yet.
    pub open spec fn pending(&self, id: DeviceId) -> bool {
        self.ids.in_use(id) && !self.live().contains(id)
    }

    /// Whether a device may stand in the registry under `id`: it is its
    /// own id, an id that is handed out and not given back, its node names
    /// are in order, and it serves.
    pub open spec fn admits(&self, id: DeviceId, device: VirtualDevice) -> bool {
        &&& device.id == id
        &&& device.wf()
        &&& device.phase == DevicePhase::Serving
        &&& self.ids.in_use(id)
    }

    /// Every live device is stored under its own id, an id that is handed
    /// out and not given back, and serves; so no freed id names a live
    /// device.
    pub open spec fn wf(&self) -> bool {
        &&& self.ids.wf()
        &&& forall|id: DeviceId| #[trigger]
            self.live().contains(id) ==> self.admits(id, self.devices@[id])
    }

    /// Whether the registry is in order.
    pub fn is_wf(&self) -> (r: bool)
        ensures
            r == self.wf(),
    {
        if !self.ids.is_wf() {
            return false;
        }
        let keys = keys_of(&self.devices);
        let n: usize = keys.len();
        let mut i: usize = 0;
        while i < n
            invariant
                i <= n,
                n == keys@.len(),
                keys@.to_set() == self.live(),
                self.ids.wf(),
                forall|k: int|
                    0 <= k < i ==> self.admits(#[trigger] keys@[k], self.devices@[keys@[k]]),
            decreases n - i,
        {
            let key = keys[i];
            assert(keys@.to_set().contains(key)) by {
                assert(keys@.contains(keys@[i as int]));
            }
            let sound = match self.devices.get(&key) {
                Some(device) => {
                    let serving = match device.phase {
                        DevicePhase::Serving => true,
                        _ => false,
                    };
                    device.id == key && device.is_wf() && serving && self.ids.is_in_use(key)
                },
                None => false,
            };
            if !sound {
                assert(self.live().contains(key));
                return false;
            }
            i = i + 1;
        }
        proof {
            assert forall|id: DeviceId| #[trigger] self.live().contains(id) implies self.admits(
                id,
                self.devices@[id],
            ) by {
                assert(keys@.to_set().contains(id));
                assert(keys@.contains(id));
                let k = choose|k: int| 0 <= k < keys@.len() && keys@[k] == id;
                assert(self.admits(keys@[k], self.devices@[keys@[k]]));
            }
        }
        true
    }

    /// Whether `id` is reserved for a device that is not live yet.
    pub fn is_pending(&self, id: DeviceId) -> (r: bool)
        requires
            self.wf(),
        ensures
            r == self.pending(id),
    {
        self.ids.is_in_use(id) && !self.devices.contains_key(&id)
    }

    /// A registry without devices.
    pub fn new() -> (r: Registry)
        ensures
            r.wf(),
            r.live() == Set::<DeviceId>::empty(),
            r.ids.next == 0,
            r.ids.free@.len() == 0,
    {
        let r = Registry { devices: HashMap::new(), ids: IdAllocator::new() };
        assert(r.live() =~= Set::<DeviceId>::empty());
        r
    }

    /// Whether `id` names a live device.
    pub fn contains(&self, id: DeviceId) -> (r: bool)
        requires
            self.wf(),
        ensures
            r == self.live().contains(id),
    {
        self.devices.contains_key(&id)
    }

    /// The live device `id`.
    pub fn get(&self, id: DeviceId) -> (r: Option<&VirtualDevice>)
        requires
            self.wf(),
        ensures
            match r {
                Some(d) => self.live().contains(id) && *d == self.devices@[id] && self.admits(
                    id,
                    *d,
                ),
                None => !self.live().contains(id),
            },
    {
        let r = self.devices.get(&id);
        proof {
            if r is Some {
                assert(self.live().contains(id));
            }
        }
        r
    }

    /// Reserves an id for a device about to be built. `None` where no id
    /// is left.
    pub fn reserve(&mut self) -> (r: Option<DeviceId>)
        requires
            old(self).wf(),
        ensures
            final(self).wf(),
            final(self).devices == old(self).devices,
            r == old(self).ids.peek(),
            match r {
                Some(id) => final(self).pending(id) && !old(self).ids.in_use(id) && handed_out(
                    old(self).ids,
                    final(self).ids,
                ),
                None => old(self).ids.free@.len() == 0 && old(self).ids.next == u64::MAX
                    && final(self).ids == old(self).ids,
            },
            forall|other: DeviceId|
                r != Some(other) ==> (#[trigger] final(self).ids.in_use(other) <==> old(
                    self,
                ).ids.in_use(other)),
    {
        let r = self.ids.allocate();
        proof {
            assert forall|id: DeviceId| #[trigger] self.live().contains(id) implies self.admits(
                id,
                self.devices@[id],
            ) by {
                assert(old(self).live().contains(id));
                assert(old(self).ids.in_use(id));
            }
            if r is Some {
                if self.live().contains(r->0) {
                    assert(old(self).live().contains(r->0));
                }
            }
        }
        r
    }

    /// Gives back an id that was reserved and whose device was never built.
    pub fn cancel(&mut self, id: DeviceId)
        requires
            old(self).wf(),
            old(self).pending(id),
        ensures
            final(self).wf(),
            final(self).devices == old(self).devices,
            !final(self).ids.in_use(id),
            given_back(old(self).ids, final(self).ids, id),
            forall|other: DeviceId|
                other != id ==> (#[trigger] final(self).ids.in_use(other) <==> old(
                    self,
                ).ids.in_use(other)),
    {
        self.ids.release(id);
        proof {
            assert forall|other: DeviceId| #[trigger] self.live().contains(other) implies self.admits(
                other,
                self.devices@[other],
            ) by {
                assert(old(self).live().contains(other));
            }
        }
    }

    /// Takes a device that was built under a reserved id in: from now on
    /// it serves.
    pub fn insert(&mut self, device: VirtualDevice)
        requires
            old(self).wf(),
            device.wf(),
            device.phase == DevicePhase::Constructing,
            old(self).pending(device.id),
        ensures
            final(self).wf(),
            final(self).devices@ == old(self).devices@.insert(
                device.id,
                in_phase(device, DevicePhase::Serving),
            ),
            final(self).live() == old(self).live().insert(device.id),
            final(self).ids == old(self).ids,
    {
        let id = device.id;
        self.devices.insert(id, device.enter(DevicePhase::Serving));
        assert(self.live() =~= old(self).live().insert(id));
        proof {
            assert forall|other: DeviceId| #[trigger] self.live().contains(other) implies self.admits(
                other,
                self.devices@[other],
            ) by {
                if other != id {
                    assert(old(self).live().contains(other));
                }
            }
        }
    }

    /// Puts back a serving device that `take` handed out, after a change
    /// that kept its id.
    pub fn put_back(&mut self, device: VirtualDevice)
        requires
            old(self).wf(),
            device.wf(),
            device.phase == DevicePhase::Serving,
            old(self).pending(device.id),
        ensures
            final(self).wf(),
            final(self).devices@ == old(self).devices@.insert(device.id, device),
            final(self).live() == old(self).live().insert(device.id),
            final(self).ids == old(self).ids,
    {
        let id = device.id;
        self.devices.insert(id, device);
        assert(self.live() =~= old(self).live().insert(id));
        proof {
            assert forall|other: DeviceId| #[trigger] self.live().contains(other) implies self.admits(
                other,
                self.devices@[other],
            ) by {
                if other != id {
                    assert(old(self).live().contains(other));
                }
            }
        }
    }

    /// Hands a live device out for a change; its id stays reserved.
    pub fn take(&mut self, id: DeviceId) -> (r: Option<VirtualDevice>)
        requires
            old(self).wf(),
        ensures
            final(self).wf(),
            final(self).ids == old(self).ids,
            final(self).devices@ == old(self).devices@.remove(id),
            r is None ==> *final(self) == *old(self),
            match r {
                Some(d) => old(self).live().contains(id) && d == old(self).devices@[id]
                    && old(self).admits(id, d) && final(self).pending(id),
                None => !old(self).live().contains(id),
            },
    {
        if !self.devices.contains_key(&id) {
            assert(self.devices@ =~= old(self).devices@.remove(id));
            return None;
        }
        let r = self.devices.remove(&id);
        proof {
            assert forall|other: DeviceId| #[trigger] self.live().contains(other) implies self.admits(
                other,
                self.devices@[other],
            ) by {
                assert(old(self).live().contains(other));
            }
            if r is Some {
                assert(old(self).live().contains(id));
            }
        }
        r
    }

    /// Takes the live device `id` out for good, to be taken down; its id
    /// stays reserved.
    pub fn retire(&mut self, id: DeviceId) -> (r: Option<VirtualDevice>)
        requires
            old(self).wf(),
        ensures
            final(self).wf(),
            final(self).ids == old(self).ids,
            final(self).devices@ == old(self).devices@.remove(id),
            final(self).live() == old(self).live().remove(id),
            r is None ==> *final(self) == *old(self),
            match r {
                Some(d) => old(self).live().contains(id) && d == in_phase(
                    old(self).devices@[id],
                    DevicePhase::Draining,
                ) && d.id == id && d.wf() && final(self).pending(id),
                None => !old(self).live().contains(id),
            },
    {
        let found = self.take(id);
        assert(self.live() =~= old(self).live().remove(id));
        match found {
            Some(d) => Some(d.enter(DevicePhase::Draining)),
            None => None,
        }
    }

    /// Takes the live device `id` out for good, to be taken down, and gives
    /// its id back.
    pub fn remove(&mut self, id: DeviceId) -> (r: Option<VirtualDevice>)
        requires
            old(self).wf(),
        ensures
            final(self).wf(),
            final(self).devices@ == old(self).devices@.remove(id),
            final(self).live() == old(self).live().remove(id),
            !final(self).live().contains(id),
            r is None ==> *final(self) == *old(self),
            match r {
                Some(d) => old(self).live().contains(id) && d == in_phase(
                    old(self).devices@[id],
                    DevicePhase::Draining,
                ) && d.id == id && d.wf() && given_back(old(self).ids, final(self).ids, id)
                    && !final(self).ids.in_use(id),
                None => !old(self).live().contains(id) && final(self).ids == old(self).ids,
            },
            forall|other: DeviceId|
                other != id ==> (#[trigger] final(self).ids.in_use(other) <==> old(
                    self,
                ).ids.in_use(other)),
    {
        let found = self.retire(id);
        match found {
            Some(d) => {
                self.cancel(id);
                Some(d)
            },
            None => None,
        }
    }

    /// The smallest live id.
    pub fn min_id(&self) -> (r: Option<DeviceId>)
        requires
            self.wf(),
        ensures
            match r {
                Some(m) => self.live().contains(m) && forall|id: DeviceId|
                    self.live().contains(id) ==> m <= id,
                None => self.live() == Set::<DeviceId>::empty(),
            },
    {
        min_key(&self.devices)
    }

    /// One description per live device; no device is described twice and
    /// none is left out.
    pub fn list(&self) -> (out: Vec<DeviceInfo>)
        requires
            self.wf(),
        ensures
            out@.len() == self.live().len(),
            forall|i: int|
                0 <= i < out@.len() ==> self.live().contains(#[trigger] out@[i].device_id)
                    && describes(out@[i], self.devices@[out@[i].device_id]),
            forall|i: int, j: int|
                0 <= i < j < out@.len() ==> out@[i].device_id != out@[j].device_id,
            forall|id: DeviceId|
                self.live().contains(id) ==> exists|i: int|
                    0 <= i < out@.len() && #[trigger] out@[i].device_id == id,
    {
        let keys = keys_of(&self.devices);
        let n: usize = keys.len();
        let mut out: Vec<DeviceInfo> = Vec::new();
        let mut i: usize = 0;
        while i < n
            invariant
                self.wf(),
                n == keys@.len(),
                keys@.to_set() == self.live(),
                i <= n,
                out@.len() == i,
                forall|k: int| 0 <= k < i ==> #[trigger] out@[k].device_id == keys@[k],
                forall|k: int|
                    0 <= k < i ==> describes(#[trigger] out@[k], self.devices@[keys@[k]]),
            decreases n - i,
        {
            let key = keys[i];
            assert(keys@.to_set().contains(key)) by {
                assert(keys@.contains(keys@[i as int]));
            }
            assert(self.live().contains(key));
            assert(self.admits(key, self.devices@[key]));
            match self.devices.get(&key) {
                Some(device) => {
                    out.push(device.info());
                },
                None => unreached(),
            }
            i = i + 1;
        }
        proof {
            assert forall|k: int| 0 <= k < out@.len() implies self.live().contains(
                #[trigger] out@[k].device_id,
            ) && describes(out@[k], self.devices@[out@[k].device_id]) by {
                assert(keys@.contains(keys@[k]));
                assert(keys@.to_set().contains(keys@[k]));
            }
            assert forall|id: DeviceId| self.live().contains(id) implies exists|k: int|
                0 <= k < out@.len() && #[trigger] out@[k].device_id == id by {
                assert(keys@.to_set().contains(id));
                assert(keys@.contains(id));
                let k = choose|k: int| 0 <= k < keys@.len() && keys@[k] == id;
                assert(out@[k].device_id == id);
            }
        }
        out
    }
}

/// The ids in use are the live devices and the ids reserved for devices
/// that are being built or whose session still holds them; no freed id
/// names a live device, and none is pooled twice to be handed out twice.
pub proof fn lemma_freed_ids_name_no_device(registry: Registry, i: int)
    requires
        registry.wf(),
        0 <= i < registry.ids.free@.len(),
    ensures
        !registry.live().contains(registry.ids.free@[i]),
        !registry.ids.in_use(registry.ids.free@[i]),
        forall|j: int|
            0 <= j < registry.ids.free@.len() && j != i ==> registry.ids.free@[j]
                != registry.ids.free@[i],
{
    let id = registry.ids.free@[i];
    assert(registry.ids.free@.contains(id));
    if registry.live().contains(id) {
        assert(registry.admits(id, registry.devices@[id]));
    }
}

/// Whether `info` is what `ListDevices` tells of `device`.
pub open spec fn describes(info: DeviceInfo, device: VirtualDevice) -> bool {
    &&& info.device_id == device.id
    &&& info.name@ == device.config.name@
    &&& info.event_node@ == device.event_node@
    &&& info.joystick_node is Some <==> device.joystick_node is Some
    &&& info.joystick_node is Some ==> info.joystick_node->0@ == device.joystick_node->0@
    &&& info.vendor_id == device.config.vendor_id
    &&& info.product_id == device.config.product_id
}

} // verus!
