//! The uinput relay: what a consumer's setup calls accumulate, the state
//! machine of one session, and the mirror device a session brings into
//! being.

use vstd::prelude::*;
use vstd::string::StringExecFns;
use crate::device::{DeviceOwner, FanOut, VirtualDevice};
use crate::evdev::batch_bytes;
use crate::joystick::js_batch_bytes;
use crate::protocol::{
    Axis, AxisConfig, BusType, Button, DeviceConfig, DeviceConfigView, DeviceId, DeviceSetup,
    InputEvent, LinuxAbsEvent, LinuxInputEvent, TimeVal, UinputRequest, UinputResponse, EV_ABS,
    EV_KEY, EV_SYN,
};
use crate::registry::Registry;
use crate::udev::{device_event, Broadcast, Transport, UdevAction, UdevBroadcaster};

verus! {

pub const UI_SET_EVBIT: u64 = 0x40045564;

pub const UI_SET_KEYBIT: u64 = 0x40045565;

pub const UI_SET_RELBIT: u64 = 0x40045566;

pub const UI_SET_ABSBIT: u64 = 0x40045567;

pub const UI_SET_MSCBIT: u64 = 0x40045568;

pub const UI_SET_LEDBIT: u64 = 0x40045569;

pub const UI_SET_SNDBIT: u64 = 0x4004556a;

pub const UI_SET_FFBIT: u64 = 0x4004556b;

pub const UI_SET_PHYS: u64 = 0x4004556c;

pub const UI_SET_SWBIT: u64 = 0x4004556d;

pub const UI_SET_PROPBIT: u64 = 0x4004556e;

pub const UI_DEV_SETUP: u64 = 0x405c5503;

pub const UI_DEV_CREATE: u64 = 0x5501;

pub const UI_DEV_DESTROY: u64 = 0x5502;

pub const UI_ABS_SETUP: u64 = 0x401c5504;

/// The request number of `UI_GET_SYSNAME` for a buffer of `len` bytes: a
/// read request of type `U`, number 0x2c, with the low 13 bits of `len` as
/// its size.
pub fn ui_get_sysname(len: usize) -> (r: u64)
    ensures
        r == 0x8000_552c + (len % 0x2000) * 0x1_0000,
{
    let l: u64 = len as u64;
    let size: u64 = l % 0x2000;
    assert(size == len % 0x2000);
    0x8000_552c + size * 0x1_0000
}

/// `struct input_id` of the kernel.
#[allow(non_camel_case_types)]
#[derive(Debug, Clone, Copy, PartialEq, Eq, Structural)]
pub struct input_id {
    pub bustype: u16,
    pub vendor: u16,
    pub product: u16,
    pub version: u16,
}

/// `struct uinput_setup` of the kernel.
#[allow(non_camel_case_types)]
#[derive(Debug, Clone, PartialEq, Eq)]
pub struct uinput_setup {
    pub id: input_id,
    pub name: [u8; 80],
    pub ff_effects_max: u32,
}

/// `struct input_absinfo` of the kernel.
#[allow(non_camel_case_types)]
#[derive(Debug, Clone, Copy, PartialEq, Eq, Structural)]
pub struct input_absinfo {
    pub value: i32,
    pub minimum: i32,
    pub maximum: i32,
    pub fuzz: i32,
    pub flat: i32,
    pub resolution: i32,
}

/// `struct uinput_abs_setup` of the kernel.
#[allow(non_camel_case_types)]
#[derive(Debug, Clone, Copy, PartialEq, Eq, Structural)]
pub struct uinput_abs_setup {
    pub code: u16,
    pub absinfo: input_absinfo,
}

/// One absolute axis a session has enabled, with its range.
#[derive(Debug, Clone, Copy, PartialEq, Eq, Structural)]
pub struct AbsAxis {
    pub code: u16,
    pub info: LinuxAbsEvent,
}

/// What the setup calls of one session have accumulated.
#[derive(Debug)]
pub struct UinputDeviceState {
    pub name: Option<String>,
    pub vendor_id: u16,
    pub product_id: u16,
    pub version: u16,
    pub bustype: u16,
    pub ev_types: Vec<u16>,
    pub keys: Vec<u16>,
    pub abs_axes: Vec<AbsAxis>,
    pub rel_axes: Vec<u16>,
}

/// What a `UinputDeviceState` holds, as mathematical values.
pub struct UinputDeviceStateView {
    pub name: Option<Seq<char>>,
    pub vendor_id: u16,
    pub product_id: u16,
    pub version: u16,
    pub bustype: u16,
    pub ev_types: Seq<u16>,
    pub keys: Seq<u16>,
    pub abs_axes: Seq<AbsAxis>,
    pub rel_axes: Seq<u16>,
}

impl View for UinputDeviceState {
    type V = UinputDeviceStateView;

    open spec fn view(&self) -> UinputDeviceStateView {
        UinputDeviceStateView {
            name: match self.name {
                Some(n) => Some(n@),
                None => None,
            },
            vendor_id: self.vendor_id,
            product_id: self.product_id,
            version: self.version,
            bustype: self.bustype,
            ev_types: self.ev_types@,
            keys: self.keys@,
            abs_axes: self.abs_axes@,
            rel_axes: self.rel_axes@,
        }
    }
}

/// The range an axis has until `AbsSetup` gives it one.
pub open spec fn default_absinfo() -> LinuxAbsEvent {
    LinuxAbsEvent { value: 0, minimum: -32768i32, maximum: 32767, fuzz: 16, flat: 128, resolution: 0 }
}

/// The setup of a session that has received no message.
pub open spec fn blank_state() -> UinputDeviceStateView {
    UinputDeviceStateView {
        name: None,
        vendor_id: 0,
        product_id: 0,
        version: 0,
        bustype: 0,
        ev_types: Seq::empty(),
        keys: Seq::empty(),
        abs_axes: Seq::empty(),
        rel_axes: Seq::empty(),
    }
}

/// The codes of the enabled axes.
pub open spec fn abs_codes(abs: Seq<AbsAxis>) -> Seq<u16> {
    abs.map(|i: int, a: AbsAxis| a.code)
}

/// A list of enabled codes with `x` enabled: `x` is added at the end where
/// it is new.
pub open spec fn with_bit(bits: Seq<u16>, x: u16) -> Seq<u16> {
    if bits.contains(x) {
        bits
    } else {
        bits.push(x)
    }
}

/// The axes with `code` enabled: a new axis gets the default range, a
/// known one keeps its range.
pub open spec fn with_abs_default(abs: Seq<AbsAxis>, code: u16) -> Seq<AbsAxis> {
    if abs_codes(abs).contains(code) {
        abs
    } else {
        abs.push(AbsAxis { code, info: default_absinfo() })
    }
}

/// The axes with the range of `code` set to `info`: a known axis keeps its
/// place, a new one is added at the end.
pub open spec fn with_abs(abs: Seq<AbsAxis>, code: u16, info: LinuxAbsEvent) -> Seq<AbsAxis> {
    match abs_codes(abs).index_of_first(code) {
        Some(i) => abs.update(i, AbsAxis { code, info }),
        None => abs.push(AbsAxis { code, info }),
    }
}

/// The buttons that a list of key codes names; codes without a name are
/// left out.
pub open spec fn buttons_of(keys: Seq<u16>) -> Seq<Button>
    decreases keys.len(),
{
    if keys.len() == 0 {
        Seq::empty()
    } else {
        let head = buttons_of(keys.drop_last());
        match Button::spec_from_ev_code(keys.last()) {
            Some(b) => head.push(b),
            None => head,
        }
    }
}

/// The axis descriptions that a list of enabled axes gives; codes without
/// a name are left out.
pub open spec fn axes_of(abs: Seq<AbsAxis>) -> Seq<AxisConfig>
    decreases abs.len(),
{
    if abs.len() == 0 {
        Seq::empty()
    } else {
        let head = axes_of(abs.drop_last());
        match Axis::spec_from_ev_code(abs.last().code) {
            Some(axis) => head.push(
                AxisConfig {
                    axis,
                    min: abs.last().info.minimum,
                    max: abs.last().info.maximum,
                    fuzz: abs.last().info.fuzz,
                    flat: abs.last().info.flat,
                },
            ),
            None => head,
        }
    }
}

/// The name of a device whose session never gave one.
pub open spec fn default_name() -> Seq<char> {
    "virtual uinput Device"@
}

/// The configuration that the accumulated setup finalizes to.
pub open spec fn config_of(state: UinputDeviceStateView) -> DeviceConfigView {
    DeviceConfigView {
        name: match state.name {
            Some(n) => n,
            None => default_name(),
        },
        vendor_id: state.vendor_id,
        product_id: state.product_id,
        version: state.version,
        bustype: BusType::spec_from_code(state.bustype),
        buttons: buttons_of(state.keys),
        axes: axes_of(state.abs_axes),
    }
}

/// Whether a message is one of the six that configure the device.
pub open spec fn is_setup_message(request: UinputRequest) -> bool {
    request is SetEvBit || request is SetKeyBit || request is SetAbsBit || request is SetRelBit
        || request is AbsSetup || request is DevSetup
}

/// The accumulated setup after one more setup message.
pub open spec fn state_after(state: UinputDeviceStateView, request: UinputRequest) -> UinputDeviceStateView {
    match request {
        UinputRequest::SetEvBit { ev_type } => UinputDeviceStateView {
            ev_types: with_bit(state.ev_types, ev_type),
            ..state
        },
        UinputRequest::SetKeyBit { key_code } => UinputDeviceStateView {
            keys: with_bit(state.keys, key_code),
            ..state
        },
        UinputRequest::SetAbsBit { abs_code } => UinputDeviceStateView {
            abs_axes: with_abs_default(state.abs_axes, abs_code),
            ..state
        },
        UinputRequest::SetRelBit { rel_code } => UinputDeviceStateView {
            rel_axes: with_bit(state.rel_axes, rel_code),
            ..state
        },
        UinputRequest::AbsSetup { code, absinfo } => UinputDeviceStateView {
            abs_axes: with_abs(state.abs_axes, code, absinfo),
            ..state
        },
        UinputRequest::DevSetup { setup } => UinputDeviceStateView {
            name: Some(setup.name@),
            vendor_id: setup.vendor_id,
            product_id: setup.product_id,
            version: setup.version,
            bustype: setup.bustype,
            ..state
        },
        _ => state,
    }
}

/// The logical event an evdev record written by the consumer stands for: a
/// key record with a named code is a button, pressed unless its value is
/// zero; an absolute-axis record with a named code is an axis movement; a
/// synchronization record is a sync; every other record stands for nothing.
pub open spec fn logical_event(e: LinuxInputEvent) -> Option<InputEvent> {
    if e.event_type == EV_KEY {
        match Button::spec_from_ev_code(e.code) {
            Some(button) => Some(InputEvent::Button { button, pressed: e.value != 0 }),
            None => None,
        }
    } else if e.event_type == EV_ABS {
        match Axis::spec_from_ev_code(e.code) {
            Some(axis) => Some(InputEvent::Axis { axis, value: e.value }),
            None => None,
        }
    } else if e.event_type == EV_SYN {
        Some(InputEvent::Sync)
    } else {
        None
    }
}

/// The logical events of a list of records, in order.
pub open spec fn logical_events(recs: Seq<LinuxInputEvent>) -> Seq<InputEvent>
    decreases recs.len(),
{
    if recs.len() == 0 {
        Seq::empty()
    } else {
        let head = logical_events(recs.drop_last());
        match logical_event(recs.last()) {
            Some(ev) => head.push(ev),
            None => head,
        }
    }
}

/// Every axis has one range: no setup message makes a code occur twice
/// among the enabled axes, and the axes enabled before keep their places.
pub proof fn lemma_axes_stay_distinct(state: UinputDeviceStateView, request: UinputRequest)
    requires
        is_setup_message(request),
        abs_codes(state.abs_axes).no_duplicates(),
    ensures
        abs_codes(state_after(state, request).abs_axes).no_duplicates(),
        state.abs_axes.len() <= state_after(state, request).abs_axes.len(),
        forall|i: int|
            0 <= i < state.abs_axes.len() ==> (#[trigger] state_after(
                state,
                request,
            ).abs_axes[i]).code == state.abs_axes[i].code,
{
    let before = state.abs_axes;
    let after = state_after(state, request).abs_axes;
    match request {
        UinputRequest::SetAbsBit { abs_code } => {
            if !abs_codes(before).contains(abs_code) {
                assert(abs_codes(after) =~= abs_codes(before).push(abs_code));
                assert forall|i: int, j: int|
                    0 <= i < abs_codes(after).len() && 0 <= j < abs_codes(after).len() && i
                        != j implies abs_codes(after)[i] != abs_codes(after)[j] by {
                    if i < before.len() {
                        assert(abs_codes(before).contains(abs_codes(before)[i]));
                    }
                    if j < before.len() {
                        assert(abs_codes(before).contains(abs_codes(before)[j]));
                    }
                }
            }
        },
        UinputRequest::AbsSetup { code, absinfo } => {
            abs_codes(before).index_of_first_ensures(code);
            match abs_codes(before).index_of_first(code) {
                Some(i) => {
                    assert(abs_codes(after) =~= abs_codes(before));
                },
                None => {
                    assert(abs_codes(after) =~= abs_codes(before).push(code));
                    assert forall|i: int, j: int|
                        0 <= i < abs_codes(after).len() && 0 <= j < abs_codes(after).len() && i
                            != j implies abs_codes(after)[i] != abs_codes(after)[j] by {
                        if i < before.len() {
                            assert(abs_codes(before).contains(abs_codes(before)[i]));
                        }
                        if j < before.len() {
                            assert(abs_codes(before).contains(abs_codes(before)[j]));
                        }
                    }
                },
            }
        },
        _ => {},
    }
}

/// Enables `x` in a list of codes.
pub fn enable_code(bits: &mut Vec<u16>, x: u16)
    ensures
        final(bits)@ == with_bit(old(bits)@, x),
{
    let mut i: usize = 0;
    while i < bits.len()
        invariant
            i <= bits.len(),
            bits@ == old(bits)@,
            forall|k: int| 0 <= k < i ==> bits@[k] != x,
        decreases bits.len() - i,
    {
        if bits[i] == x {
            assert(bits@.contains(x));
            return ;
        }
        i = i + 1;
    }
    bits.push(x);
}

/// The place of the axis with `code`.
fn abs_position(abs: &Vec<AbsAxis>, code: u16) -> (r: Option<usize>)
    ensures
        match r {
            Some(i) => abs_codes(abs@).index_of_first(code) == Some(i as int) && i < abs@.len(),
            None => abs_codes(abs@).index_of_first(code) is None && !abs_codes(abs@).contains(code),
        },
{
    let mut i: usize = 0;
    while i < abs.len()
        invariant
            i <= abs.len(),
            forall|k: int| 0 <= k < i ==> abs_codes(abs@)[k] != code,
        decreases abs.len() - i,
    {
        if abs[i].code == code {
            proof {
                crate::joystick::lemma_first_index(abs_codes(abs@), code, i as int);
            }
            return Some(i);
        }
        assert(abs_codes(abs@)[i as int] != code);
        i = i + 1;
    }
    proof {
        abs_codes(abs@).index_of_first_ensures(code);
    }
    None
}

impl UinputDeviceState {
    /// A state in which nothing is set.
    pub fn new() -> (r: UinputDeviceState)
        ensures
            r@ == blank_state(),
    {
        UinputDeviceState {
            name: None,
            vendor_id: 0,
            product_id: 0,
            version: 0,
            bustype: 0,
            ev_types: Vec::new(),
            keys: Vec::new(),
            abs_axes: Vec::new(),
            rel_axes: Vec::new(),
        }
    }

    /// Takes one setup message in.
    pub fn apply(&mut self, request: UinputRequest)
        requires
            is_setup_message(request),
        ensures
            final(self)@ == state_after(old(self)@, request),
    {
        match request {
            UinputRequest::SetEvBit { ev_type } => {
                enable_code(&mut self.ev_types, ev_type);
            },
            UinputRequest::SetKeyBit { key_code } => {
                enable_code(&mut self.keys, key_code);
            },
            UinputRequest::SetAbsBit { abs_code } => {
                match abs_position(&self.abs_axes, abs_code) {
                    Some(_) => {
                        assert(abs_codes(self.abs_axes@).contains(abs_code)) by {
                            abs_codes(self.abs_axes@).index_of_first_ensures(abs_code);
                        }
                    },
                    None => {
                        self.abs_axes.push(
                            AbsAxis {
                                code: abs_code,
                                info: LinuxAbsEvent {
                                    value: 0,
                                    minimum: -32768,
                                    maximum: 32767,
                                    fuzz: 16,
                                    flat: 128,
                                    resolution: 0,
                                },
                            },
                        );
                    },
                }
            },
            UinputRequest::SetRelBit { rel_code } => {
                enable_code(&mut self.rel_axes, rel_code);
            },
            UinputRequest::AbsSetup { code, absinfo } => {
                match abs_position(&self.abs_axes, code) {
                    Some(i) => {
                        self.abs_axes.set(i, AbsAxis { code, info: absinfo });
                    },
                    None => {
                        self.abs_axes.push(AbsAxis { code, info: absinfo });
                    },
                }
            },
            UinputRequest::DevSetup { setup } => {
                self.vendor_id = setup.vendor_id;
                self.product_id = setup.product_id;
                self.version = setup.version;
                self.bustype = setup.bustype;
                self.name = Some(setup.name);
            },
            _ => {},
        }
    }

    /// Convert to the configuration of the device to create.
    pub fn to_device_config(&self) -> (r: DeviceConfig)
        ensures
            r@ == config_of(self@),
    {
        let name = match &self.name {
            Some(n) => n.clone(),
            None => String::from_str("virtual uinput Device"),
        };
        let mut buttons: Vec<Button> = Vec::new();
        let mut i: usize = 0;
        while i < self.keys.len()
            invariant
                i <= self.keys.len(),
                buttons@ == buttons_of(self.keys@.subrange(0, i as int)),
            decreases self.keys.len() - i,
        {
            proof {
                let next = self.keys@.subrange(0, i + 1);
                assert(next.drop_last() =~= self.keys@.subrange(0, i as int));
                assert(next.last() == self.keys@[i as int]);
            }
            match Button::from_ev_code(self.keys[i]) {
                Some(b) => {
                    buttons.push(b);
                },
                None => {},
            }
            i = i + 1;
        }
        assert(self.keys@.subrange(0, i as int) =~= self.keys@);
        let mut axes: Vec<AxisConfig> = Vec::new();
        let mut j: usize = 0;
        while j < self.abs_axes.len()
            invariant
                j <= self.abs_axes.len(),
                axes@ == axes_of(self.abs_axes@.subrange(0, j as int)),
            decreases self.abs_axes.len() - j,
        {
            proof {
                let next = self.abs_axes@.subrange(0, j + 1);
                assert(next.drop_last() =~= self.abs_axes@.subrange(0, j as int));
                assert(next.last() == self.abs_axes@[j as int]);
            }
            let a = self.abs_axes[j];
            match Axis::from_ev_code(a.code) {
                Some(axis) => {
                    axes.push(
                        AxisConfig {
                            axis,
                            min: a.info.minimum,
                            max: a.info.maximum,
                            fuzz: a.info.fuzz,
                            flat: a.info.flat,
                        },
                    );
                },
                None => {},
            }
            j = j + 1;
        }
        assert(self.abs_axes@.subrange(0, j as int) =~= self.abs_axes@);
        DeviceConfig {
            name,
            vendor_id: self.vendor_id,
            product_id: self.product_id,
            version: self.version,
            bustype: BusType::from_code(self.bustype),
            buttons,
            axes,
        }
    }
}

/// The logical event of one record.
pub fn translate_record(e: &LinuxInputEvent) -> (r: Option<InputEvent>)
    ensures
        r == logical_event(*e),
{
    if e.event_type == EV_KEY {
        match Button::from_ev_code(e.code) {
            Some(button) => Some(InputEvent::Button { button, pressed: e.value != 0 }),
            None => None,
        }
    } else if e.event_type == EV_ABS {
        match Axis::from_ev_code(e.code) {
            Some(axis) => Some(InputEvent::Axis { axis, value: e.value }),
            None => None,
        }
    } else if e.event_type == EV_SYN {
        Some(InputEvent::Sync)
    } else {
        None
    }
}

/// The logical events of the records a consumer wrote.
pub fn translate_records(recs: &Vec<LinuxInputEvent>) -> (events: Vec<InputEvent>)
    ensures
        events@ == logical_events(recs@),
{
    let mut events: Vec<InputEvent> = Vec::new();
    let mut i: usize = 0;
    while i < recs.len()
        invariant
            i <= recs.len(),
            events@ == logical_events(recs@.subrange(0, i as int)),
        decreases recs.len() - i,
    {
        proof {
            let next = recs@.subrange(0, i + 1);
            assert(next.drop_last() =~= recs@.subrange(0, i as int));
            assert(next.last() == recs@[i as int]);
        }
        match translate_record(&recs[i]) {
            Some(ev) => {
                events.push(ev);
            },
            None => {},
        }
        i = i + 1;
    }
    assert(recs@.subrange(0, i as int) =~= recs@);
    events
}

} // verus!
