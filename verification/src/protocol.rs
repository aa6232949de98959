//! Wire-level vocabulary shared by every component: device identity,
//! buttons and axes with their Linux event codes, logical input events and
//! the control-plane messages.

use vstd::prelude::*;
use vstd::string::StringSliceAdditionalSpecFns;

verus! {

/// Dense identifier of one virtual device.
pub type DeviceId = u64;

pub const EV_SYN: u16 = 0x00;

pub const EV_KEY: u16 = 0x01;

pub const EV_REL: u16 = 0x02;

pub const EV_ABS: u16 = 0x03;

pub const EV_FF: u16 = 0x15;

pub const SYN_REPORT: u16 = 0;

/// First force-feedback code of a rumble command.
pub const FF_RUMBLE: u16 = 0x50;

/// Bus a virtual controller claims to sit on.
#[derive(Debug, Clone, Copy, PartialEq, Eq, Structural)]
pub enum BusType {
    Usb,
    Bluetooth,
    Virtual,
}

impl BusType {
    /// The Linux `BUS_*` number of this bus.
    pub open spec fn spec_code(self) -> u16 {
        match self {
            BusType::Usb => 0x03,
            BusType::Bluetooth => 0x05,
            BusType::Virtual => 0x06,
        }
    }

    /// The bus a raw `BUS_*` number stands for; unknown numbers are virtual.
    pub open spec fn spec_from_code(code: u16) -> BusType {
        if code == 0x03 {
            BusType::Usb
        } else if code == 0x05 {
            BusType::Bluetooth
        } else {
            BusType::Virtual
        }
    }

    #[verifier::when_used_as_spec(spec_code)]
    pub fn code(self) -> (r: u16)
        ensures
            r == self.spec_code(),
    {
        match self {
            BusType::Usb => 0x03,
            BusType::Bluetooth => 0x05,
            BusType::Virtual => 0x06,
        }
    }

    #[verifier::when_used_as_spec(spec_from_code)]
    pub fn from_code(code: u16) -> (r: BusType)
        ensures
            r == BusType::spec_from_code(code),
    {
        if code == 0x03 {
            BusType::Usb
        } else if code == 0x05 {
            BusType::Bluetooth
        } else {
            BusType::Virtual
        }
    }

    /// Every bus is found again from its number.
    pub proof fn lemma_code_round_trip(bus: BusType)
        ensures
            BusType::spec_from_code(bus.spec_code()) == bus,
    {
    }
}

/// Common controller buttons.
#[derive(Debug, Clone, Copy, PartialEq, Eq, Hash, Structural)]
pub enum Button {
    A,
    B,
    X,
    Y,
    LeftBumper,
    RightBumper,
    LeftTrigger,
    RightTrigger,
    LeftStick,
    RightStick,
    DPadUp,
    DPadDown,
    DPadLeft,
    DPadRight,
    Start,
    Select,
    Guide,
    /// Any other key, by its raw code.
    Custom(u16),
}

impl Button {
    /// The Linux key code of a button.
    pub open spec fn spec_to_ev_code(self) -> u16 {
        match self {
            Button::A => 0x130,
            Button::B => 0x131,
            Button::X => 0x133,
            Button::Y => 0x134,
            Button::LeftBumper => 0x136,
            Button::RightBumper => 0x137,
            Button::LeftTrigger => 0x138,
            Button::RightTrigger => 0x139,
            Button::Select => 0x13a,
            Button::Start => 0x13b,
            Button::Guide => 0x13c,
            Button::LeftStick => 0x13d,
            Button::RightStick => 0x13e,
            Button::DPadUp => 0x220,
            Button::DPadDown => 0x221,
            Button::DPadLeft => 0x222,
            Button::DPadRight => 0x223,
            Button::Custom(code) => code,
        }
    }

    /// The named button of a Linux key code, if it has one.
    pub open spec fn spec_from_ev_code(code: u16) -> Option<Button> {
        if code == 0x130 {
            Some(Button::A)
        } else if code == 0x131 {
            Some(Button::B)
        } else if code == 0x133 {
            Some(Button::X)
        } else if code == 0x134 {
            Some(Button::Y)
        } else if code == 0x136 {
            Some(Button::LeftBumper)
        } else if code == 0x137 {
            Some(Button::RightBumper)
        } else if code == 0x138 {
            Some(Button::LeftTrigger)
        } else if code == 0x139 {
            Some(Button::RightTrigger)
        } else if code == 0x13a {
            Some(Button::Select)
        } else if code == 0x13b {
            Some(Button::Start)
        } else if code == 0x13c {
            Some(Button::Guide)
        } else if code == 0x13d {
            Some(Button::LeftStick)
        } else if code == 0x13e {
            Some(Button::RightStick)
        } else if code == 0x220 {
            Some(Button::DPadUp)
        } else if code == 0x221 {
            Some(Button::DPadDown)
        } else if code == 0x222 {
            Some(Button::DPadLeft)
        } else if code == 0x223 {
            Some(Button::DPadRight)
        } else {
            None
        }
    }

    /// Convert a button to its Linux input event code.
    #[verifier::when_used_as_spec(spec_to_ev_code)]
    pub fn to_ev_code(self) -> (code: u16)
        ensures
            code == self.spec_to_ev_code(),
    {
        match self {
            Button::A => 0x130,
            Button::B => 0x131,
            Button::X => 0x133,
            Button::Y => 0x134,
            Button::LeftBumper => 0x136,
            Button::RightBumper => 0x137,
            Button::LeftTrigger => 0x138,
            Button::RightTrigger => 0x139,
            Button::Select => 0x13a,
            Button::Start => 0x13b,
            Button::Guide => 0x13c,
            Button::LeftStick => 0x13d,
            Button::RightStick => 0x13e,
            Button::DPadUp => 0x220,
            Button::DPadDown => 0x221,
            Button::DPadLeft => 0x222,
            Button::DPadRight => 0x223,
            Button::Custom(code) => code,
        }
    }

    /// Convert a Linux input event code to the button it names.
    #[verifier::when_used_as_spec(spec_from_ev_code)]
    pub fn from_ev_code(code: u16) -> (button: Option<Button>)
        ensures
            button == Button::spec_from_ev_code(code),
    {
        match code {
            0x130 => Some(Button::A),
            0x131 => Some(Button::B),
            0x133 => Some(Button::X),
            0x134 => Some(Button::Y),
            0x136 => Some(Button::LeftBumper),
            0x137 => Some(Button::RightBumper),
            0x138 => Some(Button::LeftTrigger),
            0x139 => Some(Button::RightTrigger),
            0x13a => Some(Button::Select),
            0x13b => Some(Button::Start),
            0x13c => Some(Button::Guide),
            0x13d => Some(Button::LeftStick),
            0x13e => Some(Button::RightStick),
            0x220 => Some(Button::DPadUp),
            0x221 => Some(Button::DPadDown),
            0x222 => Some(Button::DPadLeft),
            0x223 => Some(Button::DPadRight),
            _ => None,
        }
    }

    /// A named button is found again from its code.
    pub proof fn lemma_code_round_trip(button: Button)
        requires
            !(button is Custom),
        ensures
            Button::spec_from_ev_code(button.spec_to_ev_code()) == Some(button),
    {
    }

    /// A code that names a button is the code of that button, and the button
    /// it names is never a custom one.
    pub proof fn lemma_from_code_sound(code: u16)
        ensures
            match Button::spec_from_ev_code(code) {
                Some(button) => button.spec_to_ev_code() == code && !(button is Custom),
                None => true,
            },
    {
    }
}

/// Controller axes.
#[derive(Debug, Clone, Copy, PartialEq, Eq, Hash, Structural)]
pub enum Axis {
    LeftStickX,
    LeftStickY,
    LeftTrigger,
    RightStickX,
    RightStickY,
    RightTrigger,
    DPadX,
    DPadY,
    /// Any other absolute axis, by its raw code.
    Custom(u16),
}

impl Axis {
    /// The Linux absolute-axis code of an axis.
    pub open spec fn spec_to_ev_code(self) -> u16 {
        match self {
            Axis::LeftStickX => 0x00,
            Axis::LeftStickY => 0x01,
            Axis::LeftTrigger => 0x02,
            Axis::RightStickX => 0x03,
            Axis::RightStickY => 0x04,
            Axis::RightTrigger => 0x05,
            Axis::DPadX => 0x10,
            Axis::DPadY => 0x11,
            Axis::Custom(code) => code,
        }
    }

    /// The named axis of a Linux absolute-axis code, if it has one.
    pub open spec fn spec_from_ev_code(code: u16) -> Option<Axis> {
        if code == 0x00 {
            Some(Axis::LeftStickX)
        } else if code == 0x01 {
            Some(Axis::LeftStickY)
        } else if code == 0x02 {
            Some(Axis::LeftTrigger)
        } else if code == 0x03 {
            Some(Axis::RightStickX)
        } else if code == 0x04 {
            Some(Axis::RightStickY)
        } else if code == 0x05 {
            Some(Axis::RightTrigger)
        } else if code == 0x10 {
            Some(Axis::DPadX)
        } else if code == 0x11 {
            Some(Axis::DPadY)
        } else {
            None
        }
    }

    /// Convert an axis to its Linux input event code.
    #[verifier::when_used_as_spec(spec_to_ev_code)]
    pub fn to_ev_code(self) -> (code: u16)
        ensures
            code == self.spec_to_ev_code(),
    {
        match self {
            Axis::LeftStickX => 0x00,
            Axis::LeftStickY => 0x01,
            Axis::LeftTrigger => 0x02,
            Axis::RightStickX => 0x03,
            Axis::RightStickY => 0x04,
            Axis::RightTrigger => 0x05,
            Axis::DPadX => 0x10,
            Axis::DPadY => 0x11,
            Axis::Custom(code) => code,
        }
    }

    /// Convert a Linux input event code to the axis it names.
    #[verifier::when_used_as_spec(spec_from_ev_code)]
    pub fn from_ev_code(code: u16) -> (axis: Option<Axis>)
        ensures
            axis == Axis::spec_from_ev_code(code),
    {
        match code {
            0x00 => Some(Axis::LeftStickX),
            0x01 => Some(Axis::LeftStickY),
            0x02 => Some(Axis::LeftTrigger),
            0x03 => Some(Axis::RightStickX),
            0x04 => Some(Axis::RightStickY),
            0x05 => Some(Axis::RightTrigger),
            0x10 => Some(Axis::DPadX),
            0x11 => Some(Axis::DPadY),
            _ => None,
        }
    }

    /// A named axis is found again from its code.
    pub proof fn lemma_code_round_trip(axis: Axis)
        requires
            !(axis is Custom),
        ensures
            Axis::spec_from_ev_code(axis.spec_to_ev_code()) == Some(axis),
    {
    }

    /// A code that names an axis is the code of that axis, and the axis it
    /// names is never a custom one.
    pub proof fn lemma_from_code_sound(code: u16)
        ensures
            match Axis::spec_from_ev_code(code) {
                Some(axis) => axis.spec_to_ev_code() == code && !(axis is Custom),
                None => true,
            },
    {
    }
}

/// Range and dead zone of one axis.
#[derive(Debug, Clone, Copy, PartialEq, Eq, Structural)]
pub struct AxisConfig {
    pub axis: Axis,
    pub min: i32,
    pub max: i32,
    pub fuzz: i32,
    pub flat: i32,
}

impl AxisConfig {
    /// An axis with the given range and neither fuzz nor flat.
    pub fn new(axis: Axis, min: i32, max: i32) -> (r: AxisConfig)
        ensures
            r == (AxisConfig { axis, min, max, fuzz: 0, flat: 0 }),
    {
        AxisConfig { axis, min, max, fuzz: 0, flat: 0 }
    }
}

/// Identity and capabilities of one virtual controller. The order of
/// `buttons` and of `axes` is the numbering of the joystick protocol.
#[derive(Debug, Clone, PartialEq, Eq)]
pub struct DeviceConfig {
    pub name: String,
    pub vendor_id: u16,
    pub product_id: u16,
    pub version: u16,
    pub bustype: BusType,
    pub buttons: Vec<Button>,
    pub axes: Vec<AxisConfig>,
}

/// What a `DeviceConfig` holds, as mathematical values.
pub struct DeviceConfigView {
    pub name: Seq<char>,
    pub vendor_id: u16,
    pub product_id: u16,
    pub version: u16,
    pub bustype: BusType,
    pub buttons: Seq<Button>,
    pub axes: Seq<AxisConfig>,
}

impl View for DeviceConfig {
    type V = DeviceConfigView;

    open spec fn view(&self) -> DeviceConfigView {
        DeviceConfigView {
            name: self.name@,
            vendor_id: self.vendor_id,
            product_id: self.product_id,
            version: self.version,
            bustype: self.bustype,
            buttons: self.buttons@,
            axes: self.axes@,
        }
    }
}

/// A copy of a list of plain values.
pub fn copy_buttons(src: &Vec<Button>) -> (dst: Vec<Button>)
    ensures
        dst@ == src@,
{
    let mut dst: Vec<Button> = Vec::new();
    let mut i: usize = 0;
    while i < src.len()
        invariant
            i <= src.len(),
            dst@ == src@.subrange(0, i as int),
        decreases src.len() - i,
    {
        dst.push(src[i]);
        i = i + 1;
        assert(dst@ =~= src@.subrange(0, i as int));
    }
    assert(dst@ =~= src@);
    dst
}

/// A copy of a list of axis descriptions.
pub fn copy_axes(src: &Vec<AxisConfig>) -> (dst: Vec<AxisConfig>)
    ensures
        dst@ == src@,
{
    let mut dst: Vec<AxisConfig> = Vec::new();
    let mut i: usize = 0;
    while i < src.len()
        invariant
            i <= src.len(),
            dst@ == src@.subrange(0, i as int),
        decreases src.len() - i,
    {
        dst.push(src[i]);
        i = i + 1;
        assert(dst@ =~= src@.subrange(0, i as int));
    }
    assert(dst@ =~= src@);
    dst
}

/// The longest name a device can have, in bytes.
pub const MAX_NAME_LEN: usize = 79;

/// Whether the name of a configuration fits: it is at most 79 bytes long.
pub open spec fn name_fits(config: DeviceConfigView) -> bool {
    vstd::utf8::encode_utf8(config.name).len() <= 79
}

impl DeviceConfig {
    /// Whether a device can have this configuration.
    pub fn is_valid(&self) -> (r: bool)
        ensures
            r == name_fits(self@),
    {
        self.name.as_str().as_bytes().len() <= MAX_NAME_LEN
    }

    /// A copy that holds the same values.
    pub fn duplicate(&self) -> (r: DeviceConfig)
        ensures
            r@ == self@,
    {
        DeviceConfig {
            name: self.name.clone(),
            vendor_id: self.vendor_id,
            product_id: self.product_id,
            version: self.version,
            bustype: self.bustype,
            buttons: copy_buttons(&self.buttons),
            axes: copy_axes(&self.axes),
        }
    }
}

/// One logical input event.
#[derive(Debug, Clone, Copy, PartialEq, Eq, Structural)]
pub enum InputEvent {
    /// Button press or release.
    Button { button: Button, pressed: bool },
    /// Axis movement.
    Axis { axis: Axis, value: i32 },
    /// A raw Linux input event, passed through.
    Raw { event_type: u16, code: u16, value: i32 },
    /// End of one report.
    Sync,
}

/// What `ListDevices` tells of one live device.
#[derive(Debug, Clone, PartialEq, Eq)]
pub struct DeviceInfo {
    pub device_id: DeviceId,
    pub name: String,
    pub event_node: String,
    pub joystick_node: Option<String>,
    pub vendor_id: u16,
    pub product_id: u16,
}

/// Seconds and microseconds since the Unix epoch.
#[derive(Debug, Clone, Copy, PartialEq, Eq, Structural)]
pub struct TimeVal {
    pub tv_sec: i64,
    pub tv_usec: i64,
}

impl TimeVal {
    /// The time that a clock shows as `secs` whole seconds and `micros`
    /// microseconds since the Unix epoch.
    pub fn from_clock(secs: u64, micros: u32) -> (t: TimeVal)
        requires
            secs <= i64::MAX,
            micros < 1_000_000,
        ensures
            t.tv_sec == secs,
            t.tv_usec == micros,
    {
        TimeVal { tv_sec: secs as i64, tv_usec: micros as i64 }
    }
}

/// One evdev record as the kernel lays it out.
#[derive(Debug, Clone, Copy, PartialEq, Eq, Structural)]
pub struct LinuxInputEvent {
    pub time: TimeVal,
    pub event_type: u16,
    pub code: u16,
    pub value: i32,
}

impl LinuxInputEvent {
    /// A record stamped with `time`.
    pub fn new(time: TimeVal, event_type: u16, code: u16, value: i32) -> (r: LinuxInputEvent)
        ensures
            r == (LinuxInputEvent { time, event_type, code, value }),
    {
        LinuxInputEvent { time, event_type, code, value }
    }
}

/// Range description of one absolute axis (`struct input_absinfo`).
#[derive(Debug, Clone, Copy, PartialEq, Eq, Structural)]
pub struct LinuxAbsEvent {
    pub value: i32,
    pub minimum: i32,
    pub maximum: i32,
    pub fuzz: i32,
    pub flat: i32,
    pub resolution: i32,
}

/// One record of the legacy joystick interface.
#[derive(Debug, Clone, Copy, PartialEq, Eq, Structural)]
pub struct LinuxJsEvent {
    pub time: u32,
    pub value: i16,
    pub type_: u8,
    pub number: u8,
}

/// A force-feedback effect on its way back to the owner of a device.
#[derive(Debug, Clone, Copy, PartialEq, Eq, Structural)]
pub enum FeedbackEvent {
    Rumble { strong_magnitude: u16, weak_magnitude: u16, duration_ms: u16 },
    RumbleStop,
    Raw { code: u16, value: i32 },
}

/// Commands of the library client.
#[derive(Debug, Clone, PartialEq, Eq)]
pub enum ControlCommand {
    CreateDevice { config: DeviceConfig },
    DestroyDevice { device_id: DeviceId },
    SendInput { device_id: DeviceId, events: Vec<InputEvent> },
    ListDevices,
    Ping,
    PollFeedback { device_id: DeviceId },
}

/// Answers of the manager.
#[derive(Debug, Clone, PartialEq, Eq)]
pub enum ControlResult {
    DeviceCreated { device_id: DeviceId, event_node: String },
    DeviceDestroyed,
    InputSent,
    DeviceList(Vec<DeviceInfo>),
    Pong,
    Error { message: String },
    FeedbackPolled { event: Option<FeedbackEvent> },
}

/// A command with the id its answer will echo.
#[derive(Debug, Clone, PartialEq, Eq)]
pub struct ControlMessage {
    pub id: String,
    pub command: ControlCommand,
}

/// An answer with the id of the command it belongs to.
#[derive(Debug, Clone, PartialEq, Eq)]
pub struct ControlResponse {
    pub id: String,
    pub result: ControlResult,
}

/// What a consumer is told first on a device socket.
#[derive(Debug, Clone, PartialEq, Eq)]
pub struct DeviceHandshake {
    pub device_id: DeviceId,
    pub config: DeviceConfig,
}

/// Identity given by a uinput consumer in `DevSetup`.
#[derive(Debug, Clone, PartialEq, Eq)]
pub struct DeviceSetup {
    pub name: String,
    pub vendor_id: u16,
    pub product_id: u16,
    pub version: u16,
    pub bustype: u16,
}

/// Messages of a uinput session.
#[derive(Debug, Clone, PartialEq, Eq)]
pub enum UinputRequest {
    SetEvBit { ev_type: u16 },
    SetKeyBit { key_code: u16 },
    SetAbsBit { abs_code: u16 },
    SetRelBit { rel_code: u16 },
    AbsSetup { code: u16, absinfo: LinuxAbsEvent },
    DevSetup { setup: DeviceSetup },
    DevCreate,
    DevDestroy,
    WriteEvents { events: Vec<LinuxInputEvent> },
}

/// Answer to every uinput message but `WriteEvents`.
#[derive(Debug, Clone, PartialEq, Eq)]
pub struct UinputResponse {
    pub success: bool,
    pub device_id: Option<DeviceId>,
    pub error: Option<String>,
}

} // verus!
