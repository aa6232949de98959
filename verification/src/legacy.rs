//! The libevdev-style control protocol: devices that a client builds up
//! call by call under a handle of its own choosing, and uinput devices
//! made from them.

use std::collections::HashMap;
use vstd::prelude::*;
use vstd::string::StringExecFns;
use crate::text::{decimal, push_decimal};

verus! {

broadcast use vstd::std_specs::hash::group_hash_axioms;

/// The calls of the protocol.
#[derive(Debug, Clone, PartialEq, Eq)]
pub enum DeviceCommand {
    New { ptr: u64 },
    SetName { ptr: u64, name: String },
    SetPhys { ptr: u64, phys: String },
    SetUniq { ptr: u64, uniq: String },
    SetIdBustype { ptr: u64, bustype: u16 },
    SetIdVendor { ptr: u64, vendor: u16 },
    SetIdProduct { ptr: u64, product: u16 },
    SetIdVersion { ptr: u64, version: u16 },
    SetDriverVersion { ptr: u64, version: u32 },
    EnableEventType { ptr: u64, type_: u32 },
    EnableEventCode { ptr: u64, type_: u32, code: u32 },
    UinputCreateFromDevice { ptr: u64, uinput_ptr: u64 },
    Free { ptr: u64 },
    UinputDestroy { uinput_ptr: u64 },
    UinputWriteEvent { uinput_ptr: u64, type_: u32, code: u32, value: i32 },
}

/// The answers of the protocol.
#[derive(Debug, Clone, PartialEq, Eq)]
pub enum DeviceResponse {
    Success,
    UinputCreated { uinput_ptr: u64 },
    Error { message: String },
}

/// A call with the id its answer will echo.
#[derive(Debug, Clone, PartialEq, Eq)]
pub struct Message {
    pub id: String,
    pub command: DeviceCommand,
}

/// An answer with the id of the call it belongs to.
#[derive(Debug, Clone, PartialEq, Eq)]
pub struct Response {
    pub id: String,
    pub response: DeviceResponse,
}

/// One enabled event type with its enabled codes, in the order in which
/// they were enabled.
#[derive(Debug, Clone, PartialEq, Eq)]
pub struct EventType {
    pub type_: u32,
    pub codes: Vec<u32>,
}

/// A device as its client has described it so far.
#[derive(Debug, Clone, PartialEq, Eq)]
pub struct VirtualDevice {
    pub name: String,
    pub phys: String,
    pub uniq: String,
    pub id_bustype: u16,
    pub id_vendor: u16,
    pub id_product: u16,
    pub id_version: u16,
    pub driver_version: u32,
    pub enabled_event_types: Vec<EventType>,
}

/// A uinput device: a copy of the device it was made from.
#[derive(Debug, Clone, PartialEq, Eq)]
pub struct VirtualUinputDevice {
    pub device_ptr: u64,
    pub device: VirtualDevice,
}

/// What a `VirtualDevice` holds, as mathematical values.
pub struct VirtualDeviceView {
    pub name: Seq<char>,
    pub phys: Seq<char>,
    pub uniq: Seq<char>,
    pub id_bustype: u16,
    pub id_vendor: u16,
    pub id_product: u16,
    pub id_version: u16,
    pub driver_version: u32,
    pub enabled_event_types: Seq<(u32, Seq<u32>)>,
}

/// The enabled types of a list, as mathematical values.
pub open spec fn types_view(types: Seq<EventType>) -> Seq<(u32, Seq<u32>)> {
    types.map(|i: int, t: EventType| (t.type_, t.codes@))
}

impl View for VirtualDevice {
    type V = VirtualDeviceView;

    open spec fn view(&self) -> VirtualDeviceView {
        VirtualDeviceView {
            name: self.name@,
            phys: self.phys@,
            uniq: self.uniq@,
            id_bustype: self.id_bustype,
            id_vendor: self.id_vendor,
            id_product: self.id_product,
            id_version: self.id_version,
            driver_version: self.driver_version,
            enabled_event_types: types_view(self.enabled_event_types@),
        }
    }
}

/// A device of which nothing is known yet.
pub open spec fn blank_device() -> VirtualDeviceView {
    VirtualDeviceView {
        name: Seq::empty(),
        phys: Seq::empty(),
        uniq: Seq::empty(),
        id_bustype: 0,
        id_vendor: 0,
        id_product: 0,
        id_version: 0,
        driver_version: 0,
        enabled_event_types: Seq::empty(),
    }
}

/// The place of an event type among the enabled ones.
pub open spec fn type_index(types: Seq<(u32, Seq<u32>)>, type_: u32) -> Option<int> {
    types.map(|i: int, t: (u32, Seq<u32>)| t.0).index_of_first(type_)
}

/// The enabled types with `type_` enabled: a new type comes last, without
/// codes; a known one stays as it is.
pub open spec fn with_type(types: Seq<(u32, Seq<u32>)>, type_: u32) -> Seq<(u32, Seq<u32>)> {
    match type_index(types, type_) {
        Some(_) => types,
        None => types.push((type_, Seq::empty())),
    }
}

/// The enabled types with `code` enabled for `type_`: the code comes last
/// among the codes of the type, which is enabled with it where it was not.
pub open spec fn with_code(types: Seq<(u32, Seq<u32>)>, type_: u32, code: u32) -> Seq<
    (u32, Seq<u32>),
> {
    match type_index(types, type_) {
        Some(i) => types.update(i, (type_, types[i].1.push(code))),
        None => types.push((type_, seq![code])),
    }
}

/// What a call that describes a device does to the device. Calls that do
/// not describe a device leave it as it is.
pub open spec fn described(d: VirtualDeviceView, command: DeviceCommand) -> VirtualDeviceView {
    match command {
        DeviceCommand::SetName { ptr, name } => VirtualDeviceView { name: name@, ..d },
        DeviceCommand::SetPhys { ptr, phys } => VirtualDeviceView { phys: phys@, ..d },
        DeviceCommand::SetUniq { ptr, uniq } => VirtualDeviceView { uniq: uniq@, ..d },
        DeviceCommand::SetIdBustype { ptr, bustype } => VirtualDeviceView {
            id_bustype: bustype,
            ..d
        },
        DeviceCommand::SetIdVendor { ptr, vendor } => VirtualDeviceView { id_vendor: vendor, ..d },
        DeviceCommand::SetIdProduct { ptr, product } => VirtualDeviceView {
            id_product: product,
            ..d
        },
        DeviceCommand::SetIdVersion { ptr, version } => VirtualDeviceView {
            id_version: version,
            ..d
        },
        DeviceCommand::SetDriverVersion { ptr, version } => VirtualDeviceView {
            driver_version: version,
            ..d
        },
        DeviceCommand::EnableEventType { ptr, type_ } => VirtualDeviceView {
            enabled_event_types: with_type(d.enabled_event_types, type_),
            ..d
        },
        DeviceCommand::EnableEventCode { ptr, type_, code } => VirtualDeviceView {
            enabled_event_types: with_code(d.enabled_event_types, type_, code),
            ..d
        },
        _ => d,
    }
}

/// The device a describing call speaks of; none for the other calls.
pub open spec fn described_ptr(command: DeviceCommand) -> Option<u64> {
    match command {
        DeviceCommand::SetName { ptr, name } => Some(ptr),
        DeviceCommand::SetPhys { ptr, phys } => Some(ptr),
        DeviceCommand::SetUniq { ptr, uniq } => Some(ptr),
        DeviceCommand::SetIdBustype { ptr, bustype } => Some(ptr),
        DeviceCommand::SetIdVendor { ptr, vendor } => Some(ptr),
        DeviceCommand::SetIdProduct { ptr, product } => Some(ptr),
        DeviceCommand::SetIdVersion { ptr, version } => Some(ptr),
        DeviceCommand::SetDriverVersion { ptr, version } => Some(ptr),
        DeviceCommand::EnableEventType { ptr, type_ } => Some(ptr),
        DeviceCommand::EnableEventCode { ptr, type_, code } => Some(ptr),
        _ => None,
    }
}

/// The manager of the protocol: the devices and the uinput devices, each
/// under the handle its client chose.
#[derive(Debug)]
pub struct InputManager {
    pub devices: HashMap<u64, VirtualDevice>,
    pub uinput_devices: HashMap<u64, VirtualUinputDevice>,
}

/// The words that tell that no device has the handle.
pub open spec fn device_missing(ptr: u64) -> Seq<char> {
    "Device "@ + decimal(ptr as nat) + " not found"@
}

/// The words that tell that no uinput device has the handle.
pub open spec fn uinput_missing(ptr: u64) -> Seq<char> {
    "Uinput device "@ + decimal(ptr as nat) + " not found"@
}

/// An answer that reports an error in the given words.
pub open spec fn is_error(response: DeviceResponse, text: Seq<char>) -> bool {
    response matches DeviceResponse::Error { message } && message@ == text
}

/// One call of the protocol.
///
/// * `New` puts a blank device under the handle, in the place of any
///   device that was there.
/// * A describing call changes the device it names.
/// * `UinputCreateFromDevice` puts a copy of the device under the uinput
///   handle.
/// * `Free` and `UinputDestroy` take a device away; a handle without a
///   device is no error.
/// * `UinputWriteEvent` is accepted where the uinput device exists.
/// * A call that names a device that does not exist is answered with an
///   error and changes nothing.
pub open spec fn legacy_step(
    pre: InputManager,
    post: InputManager,
    command: DeviceCommand,
    response: DeviceResponse,
) -> bool {
    match command {
        DeviceCommand::New { ptr } => {
            &&& post.uinput_devices == pre.uinput_devices
            &&& post.devices@.dom().contains(ptr)
            &&& post.devices@ == pre.devices@.insert(ptr, post.devices@[ptr])
            &&& post.devices@[ptr]@ == blank_device()
            &&& response == DeviceResponse::Success
        },
        DeviceCommand::UinputCreateFromDevice { ptr, uinput_ptr } => {
            if pre.devices@.dom().contains(ptr) {
                &&& post.devices == pre.devices
                &&& post.uinput_devices@.dom().contains(uinput_ptr)
                &&& post.uinput_devices@ == pre.uinput_devices@.insert(
                    uinput_ptr,
                    post.uinput_devices@[uinput_ptr],
                )
                &&& post.uinput_devices@[uinput_ptr].device_ptr == ptr
                &&& post.uinput_devices@[uinput_ptr].device@ == pre.devices@[ptr]@
                &&& response == (DeviceResponse::UinputCreated { uinput_ptr })
            } else {
                post == pre && is_error(response, device_missing(ptr))
            }
        },
        DeviceCommand::Free { ptr } => {
            &&& post.uinput_devices == pre.uinput_devices
            &&& post.devices@ == pre.devices@.remove(ptr)
            &&& response == DeviceResponse::Success
        },
        DeviceCommand::UinputDestroy { uinput_ptr } => {
            &&& post.devices == pre.devices
            &&& post.uinput_devices@ == pre.uinput_devices@.remove(uinput_ptr)
            &&& response == DeviceResponse::Success
        },
        DeviceCommand::UinputWriteEvent { uinput_ptr, type_, code, value } => {
            &&& post == pre
            &&& if pre.uinput_devices@.dom().contains(uinput_ptr) {
                response == DeviceResponse::Success
            } else {
                is_error(response, uinput_missing(uinput_ptr))
            }
        },
        _ => {
            let ptr = described_ptr(command)->0;
            if pre.devices@.dom().contains(ptr) {
                &&& post.uinput_devices == pre.uinput_devices
                &&& post.devices@.dom().contains(ptr)
                &&& post.devices@ == pre.devices@.insert(ptr, post.devices@[ptr])
                &&& post.devices@[ptr]@ == described(pre.devices@[ptr]@, command)
                &&& response == DeviceResponse::Success
            } else {
                post == pre && is_error(response, device_missing(ptr))
            }
        },
    }
}

fn missing(what: &str, ptr: u64) -> (r: DeviceResponse)
    ensures
        is_error(r, what@ + decimal(ptr as nat) + " not found"@),
{
    let mut message = String::from_str(what);
    push_decimal(&mut message, ptr);
    message.append(" not found");
    DeviceResponse::Error { message }
}

fn copy_codes(src: &Vec<u32>) -> (dst: Vec<u32>)
    ensures
        dst@ == src@,
{
    let mut dst: Vec<u32> = Vec::new();
    let mut i: usize = 0;
    while i < src.len()
        invariant
            i <= src.len(),
            dst@ == src@.subrange(0, i as int),
        decreases src.len() - i,
    {
        dst.push(src[i]);
        i = i + 1;
        assert(dst@ =~= src@.subrange(0, i as int));
    }
    assert(dst@ =~= src@);
    dst
}

fn type_position(types: &Vec<EventType>, type_: u32) -> (r: Option<usize>)
    ensures
        match r {
            Some(i) => type_index(types_view(types@), type_) == Some(i as int) && i < types@.len(),
            None => type_index(types_view(types@), type_) is None,
        },
{
    let ghost keys = types_view(types@).map(|i: int, t: (u32, Seq<u32>)| t.0);
    let mut i: usize = 0;
    while i < types.len()
        invariant
            i <= types.len(),
            keys == types_view(types@).map(|i: int, t: (u32, Seq<u32>)| t.0),
            forall|k: int| 0 <= k < i ==> keys[k] != type_,
        decreases types.len() - i,
    {
        if types[i].type_ == type_ {
            proof {
                assert(keys[i as int] == type_);
                crate::joystick::lemma_first_index(keys, type_, i as int);
            }
            return Some(i);
        }
        assert(keys[i as int] != type_);
        i = i + 1;
    }
    proof {
        keys.index_of_first_ensures(type_);
    }
    None
}

impl VirtualDevice {
    /// A device of which nothing is known yet.
    pub fn new() -> (d: VirtualDevice)
        ensures
            d@ == blank_device(),
    {
        let d = VirtualDevice {
            name: String::new(),
            phys: String::new(),
            uniq: String::new(),
            id_bustype: 0,
            id_vendor: 0,
            id_product: 0,
            id_version: 0,
            driver_version: 0,
            enabled_event_types: Vec::new(),
        };
        assert(types_view(d.enabled_event_types@) =~= Seq::empty());
        d
    }

    /// A copy that holds the same values.
    pub fn duplicate(&self) -> (d: VirtualDevice)
        ensures
            d@ == self@,
    {
        let mut types: Vec<EventType> = Vec::new();
        let mut i: usize = 0;
        while i < self.enabled_event_types.len()
            invariant
                i <= self.enabled_event_types.len(),
                types@.len() == i,
                forall|k: int|
                    0 <= k < i ==> (#[trigger] types@[k]).type_
                        == self.enabled_event_types@[k].type_ && types@[k].codes@
                        == self.enabled_event_types@[k].codes@,
            decreases self.enabled_event_types.len() - i,
        {
            let t = &self.enabled_event_types[i];
            types.push(EventType { type_: t.type_, codes: copy_codes(&t.codes) });
            i = i + 1;
        }
        assert(types_view(types@) =~= types_view(self.enabled_event_types@));
        VirtualDevice {
            name: self.name.clone(),
            phys: self.phys.clone(),
            uniq: self.uniq.clone(),
            id_bustype: self.id_bustype,
            id_vendor: self.id_vendor,
            id_product: self.id_product,
            id_version: self.id_version,
            driver_version: self.driver_version,
            enabled_event_types: types,
        }
    }

    /// Enables an event type.
    pub fn enable_event_type(&mut self, type_: u32)
        ensures
            final(self)@ == (VirtualDeviceView {
                enabled_event_types: with_type(old(self)@.enabled_event_types, type_),
                ..old(self)@
            }),
    {
        match type_position(&self.enabled_event_types, type_) {
            Some(_) => {},
            None => {
                self.enabled_event_types.push(EventType { type_, codes: Vec::new() });
                assert(types_view(self.enabled_event_types@) =~= types_view(
                    old(self).enabled_event_types@,
                ).push((type_, Seq::empty())));
            },
        }
    }

    /// Enables a code of an event type.
    pub fn enable_event_code(&mut self, type_: u32, code: u32)
        ensures
            final(self)@ == (VirtualDeviceView {
                enabled_event_types: with_code(old(self)@.enabled_event_types, type_, code),
                ..old(self)@
            }),
    {
        match type_position(&self.enabled_event_types, type_) {
            Some(i) => {
                let mut codes = copy_codes(&self.enabled_event_types[i].codes);
                codes.push(code);
                self.enabled_event_types.set(i, EventType { type_, codes });
                assert(types_view(self.enabled_event_types@) =~= types_view(
                    old(self).enabled_event_types@,
                ).update(
                    i as int,
                    (type_, types_view(old(self).enabled_event_types@)[i as int].1.push(code)),
                ));
            },
            None => {
                let mut codes: Vec<u32> = Vec::new();
                codes.push(code);
                assert(codes@ =~= seq![code]);
                self.enabled_event_types.push(EventType { type_, codes });
                assert(types_view(self.enabled_event_types@) =~= types_view(
                    old(self).enabled_event_types@,
                ).push((type_, seq![code])));
            },
        }
    }

    /// Takes one describing call in.
    pub fn describe(&mut self, command: DeviceCommand)
        ensures
            final(self)@ == described(old(self)@, command),
    {
        match command {
            DeviceCommand::SetName { ptr: _, name } => {
                self.name = name;
            },
            DeviceCommand::SetPhys { ptr: _, phys } => {
                self.phys = phys;
            },
            DeviceCommand::SetUniq { ptr: _, uniq } => {
                self.uniq = uniq;
            },
            DeviceCommand::SetIdBustype { ptr: _, bustype } => {
                self.id_bustype = bustype;
            },
            DeviceCommand::SetIdVendor { ptr: _, vendor } => {
                self.id_vendor = vendor;
            },
            DeviceCommand::SetIdProduct { ptr: _, product } => {
                self.id_product = product;
            },
            DeviceCommand::SetIdVersion { ptr: _, version } => {
                self.id_version = version;
            },
            DeviceCommand::SetDriverVersion { ptr: _, version } => {
                self.driver_version = version;
            },
            DeviceCommand::EnableEventType { ptr: _, type_ } => {
                self.enable_event_type(type_);
            },
            DeviceCommand::EnableEventCode { ptr: _, type_, code } => {
                self.enable_event_code(type_, code);
            },
            _ => {},
        }
    }
}

/// The device a describing call speaks of.
fn target_of(command: &DeviceCommand) -> (r: Option<u64>)
    ensures
        r == described_ptr(*command),
{
    match command {
        DeviceCommand::SetName { ptr, name: _ } => Some(*ptr),
        DeviceCommand::SetPhys { ptr, phys: _ } => Some(*ptr),
        DeviceCommand::SetUniq { ptr, uniq: _ } => Some(*ptr),
        DeviceCommand::SetIdBustype { ptr, bustype: _ } => Some(*ptr),
        DeviceCommand::SetIdVendor { ptr, vendor: _ } => Some(*ptr),
        DeviceCommand::SetIdProduct { ptr, product: _ } => Some(*ptr),
        DeviceCommand::SetIdVersion { ptr, version: _ } => Some(*ptr),
        DeviceCommand::SetDriverVersion { ptr, version: _ } => Some(*ptr),
        DeviceCommand::EnableEventType { ptr, type_: _ } => Some(*ptr),
        DeviceCommand::EnableEventCode { ptr, type_: _, code: _ } => Some(*ptr),
        _ => None,
    }
}

impl InputManager {
    /// A manager without devices.
    pub fn new() -> (m: InputManager)
        ensures
            m.devices@ == Map::<u64, VirtualDevice>::empty(),
            m.uinput_devices@ == Map::<u64, VirtualUinputDevice>::empty(),
    {
        InputManager { devices: HashMap::new(), uinput_devices: HashMap::new() }
    }

    /// Takes a describing call in.
    fn describe(&mut self, ptr: u64, command: DeviceCommand) -> (response: DeviceResponse)
        requires
            described_ptr(command) == Some(ptr),
        ensures
            legacy_step(*old(self), *final(self), command, response),
    {
        if !self.devices.contains_key(&ptr) {
            return missing("Device ", ptr);
        }
        match self.devices.remove(&ptr) {
            Some(device) => {
                let mut device = device;
                device.describe(command);
                self.devices.insert(ptr, device);
                assert(self.devices@ =~= old(self).devices@.insert(ptr, self.devices@[ptr]));
                DeviceResponse::Success
            },
            None => missing("Device ", ptr),
        }
    }

    /// Takes one call of the protocol.
    pub fn process_command(&mut self, command: DeviceCommand) -> (response: DeviceResponse)
        ensures
            legacy_step(*old(self), *final(self), command, response),
    {
        match target_of(&command) {
            Some(ptr) => {
                return self.describe(ptr, command);
            },
            None => {},
        }
        match command {
            DeviceCommand::New { ptr } => {
                self.devices.insert(ptr, VirtualDevice::new());
                DeviceResponse::Success
            },
            DeviceCommand::UinputCreateFromDevice { ptr, uinput_ptr } => {
                let copy = match self.devices.get(&ptr) {
                    Some(device) => device.duplicate(),
                    None => {
                        return missing("Device ", ptr);
                    },
                };
                self.uinput_devices.insert(
                    uinput_ptr,
                    VirtualUinputDevice { device_ptr: ptr, device: copy },
                );
                DeviceResponse::UinputCreated { uinput_ptr }
            },
            DeviceCommand::Free { ptr } => {
                self.devices.remove(&ptr);
                DeviceResponse::Success
            },
            DeviceCommand::UinputDestroy { uinput_ptr } => {
                self.uinput_devices.remove(&uinput_ptr);
                DeviceResponse::Success
            },
            DeviceCommand::UinputWriteEvent { uinput_ptr, type_: _, code: _, value: _ } => {
                if self.uinput_devices.contains_key(&uinput_ptr) {
                    DeviceResponse::Success
                } else {
                    missing("Uinput device ", uinput_ptr)
                }
            },
            _ => DeviceResponse::Success,
        }
    }

    /// Takes one message and gives the answer, with the id of the message.
    pub fn process_message(&mut self, message: Message) -> (r: Response)
        ensures
            r.id == message.id,
            legacy_step(*old(self), *final(self), message.command, r.response),
    {
        let response = self.process_command(message.command);
        Response { id: message.id, response }
    }
}

} // verus!
