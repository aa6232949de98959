//! Ready-made controller configurations and a builder for custom ones.

use vstd::prelude::*;
use vstd::string::StringExecFns;
use crate::protocol::{Axis, AxisConfig, BusType, Button, DeviceConfig, DeviceConfigView};

verus! {

/// An axis that spans the signed 16-bit range.
pub open spec fn stick(axis: Axis) -> AxisConfig {
    AxisConfig { axis, min: -32768i32, max: 32767, fuzz: 0, flat: 0 }
}

/// A D-pad axis: -1, 0 or 1.
pub open spec fn hat(axis: Axis) -> AxisConfig {
    AxisConfig { axis, min: -1i32, max: 1, fuzz: 0, flat: 0 }
}

/// A trigger axis of one byte.
pub open spec fn trigger(axis: Axis) -> AxisConfig {
    AxisConfig { axis, min: 0, max: 255, fuzz: 0, flat: 0 }
}

/// The buttons of an Xbox pad.
pub open spec fn xbox_buttons() -> Seq<Button> {
    seq![
        Button::A,
        Button::B,
        Button::X,
        Button::Y,
        Button::LeftBumper,
        Button::RightBumper,
        Button::Select,
        Button::Start,
        Button::Guide,
        Button::LeftStick,
        Button::RightStick,
    ]
}

/// The buttons of a PlayStation pad.
pub open spec fn playstation_buttons() -> Seq<Button> {
    seq![
        Button::X,
        Button::A,
        Button::B,
        Button::Y,
        Button::LeftBumper,
        Button::RightBumper,
        Button::LeftTrigger,
        Button::RightTrigger,
        Button::Select,
        Button::Start,
        Button::Guide,
        Button::LeftStick,
        Button::RightStick,
    ]
}

/// Two sticks, two triggers and a D-pad.
pub open spec fn full_axes() -> Seq<AxisConfig> {
    seq![
        stick(Axis::LeftStickX),
        stick(Axis::LeftStickY),
        stick(Axis::RightStickX),
        stick(Axis::RightStickY),
        stick(Axis::LeftTrigger),
        stick(Axis::RightTrigger),
        hat(Axis::DPadX),
        hat(Axis::DPadY),
    ]
}

/// Two sticks.
pub open spec fn stick_axes() -> Seq<AxisConfig> {
    seq![
        stick(Axis::LeftStickX),
        stick(Axis::LeftStickY),
        stick(Axis::RightStickX),
        stick(Axis::RightStickY),
    ]
}

/// A USB controller.
pub open spec fn usb_pad(
    name: Seq<char>,
    vendor_id: u16,
    product_id: u16,
    version: u16,
    buttons: Seq<Button>,
    axes: Seq<AxisConfig>,
) -> DeviceConfigView {
    DeviceConfigView { name, vendor_id, product_id, version, bustype: BusType::Usb, buttons, axes }
}

fn push_buttons(list: &mut Vec<Button>, more: &[Button])
    ensures
        final(list)@ == old(list)@ + more@,
{
    let mut i: usize = 0;
    while i < more.len()
        invariant
            i <= more.len(),
            list@ == old(list)@ + more@.subrange(0, i as int),
        decreases more.len() - i,
    {
        list.push(more[i]);
        i = i + 1;
        assert(list@ =~= old(list)@ + more@.subrange(0, i as int));
    }
    assert(more@.subrange(0, i as int) =~= more@);
}

fn push_axes(list: &mut Vec<AxisConfig>, more: &[AxisConfig])
    ensures
        final(list)@ == old(list)@ + more@,
{
    let mut i: usize = 0;
    while i < more.len()
        invariant
            i <= more.len(),
            list@ == old(list)@ + more@.subrange(0, i as int),
        decreases more.len() - i,
    {
        list.push(more[i]);
        i = i + 1;
        assert(list@ =~= old(list)@ + more@.subrange(0, i as int));
    }
    assert(more@.subrange(0, i as int) =~= more@);
}

fn xbox_button_list() -> (v: Vec<Button>)
    ensures
        v@ == xbox_buttons(),
{
    let mut v: Vec<Button> = Vec::new();
    v.push(Button::A);
    v.push(Button::B);
    v.push(Button::X);
    v.push(Button::Y);
    v.push(Button::LeftBumper);
    v.push(Button::RightBumper);
    v.push(Button::Select);
    v.push(Button::Start);
    v.push(Button::Guide);
    v.push(Button::LeftStick);
    v.push(Button::RightStick);
    assert(v@ =~= xbox_buttons());
    v
}

fn playstation_button_list() -> (v: Vec<Button>)
    ensures
        v@ == playstation_buttons(),
{
    let mut v: Vec<Button> = Vec::new();
    v.push(Button::X);
    v.push(Button::A);
    v.push(Button::B);
    v.push(Button::Y);
    v.push(Button::LeftBumper);
    v.push(Button::RightBumper);
    v.push(Button::LeftTrigger);
    v.push(Button::RightTrigger);
    v.push(Button::Select);
    v.push(Button::Start);
    v.push(Button::Guide);
    v.push(Button::LeftStick);
    v.push(Button::RightStick);
    assert(v@ =~= playstation_buttons());
    v
}

fn stick_axis_list() -> (v: Vec<AxisConfig>)
    ensures
        v@ == stick_axes(),
{
    let mut v: Vec<AxisConfig> = Vec::new();
    v.push(AxisConfig::new(Axis::LeftStickX, -32768, 32767));
    v.push(AxisConfig::new(Axis::LeftStickY, -32768, 32767));
    v.push(AxisConfig::new(Axis::RightStickX, -32768, 32767));
    v.push(AxisConfig::new(Axis::RightStickY, -32768, 32767));
    assert(v@ =~= stick_axes());
    v
}

fn full_axis_list() -> (v: Vec<AxisConfig>)
    ensures
        v@ == full_axes(),
{
    let mut v = stick_axis_list();
    v.push(AxisConfig::new(Axis::LeftTrigger, -32768, 32767));
    v.push(AxisConfig::new(Axis::RightTrigger, -32768, 32767));
    v.push(AxisConfig::new(Axis::DPadX, -1, 1));
    v.push(AxisConfig::new(Axis::DPadY, -1, 1));
    assert(v@ =~= full_axes());
    v
}

/// Pre-configured controller templates.
#[derive(Debug, Clone, Copy, PartialEq, Eq, Structural)]
pub struct ControllerTemplates;

impl ControllerTemplates {
    /// Xbox 360 Controller.
    pub fn xbox360() -> (c: DeviceConfig)
        ensures
            c@ == usb_pad(
                "Microsoft X-Box 360 pad"@,
                0x045e,
                0x028e,
                0x0110,
                xbox_buttons(),
                full_axes(),
            ),
    {
        DeviceConfig {
            name: String::from_str("Microsoft X-Box 360 pad"),
            vendor_id: 0x045e,
            product_id: 0x028e,
            version: 0x0110,
            bustype: BusType::Usb,
            buttons: xbox_button_list(),
            axes: full_axis_list(),
        }
    }

    /// Xbox One Controller.
    pub fn xbox_one() -> (c: DeviceConfig)
        ensures
            c@ == usb_pad(
                "Microsoft X-Box One pad"@,
                0x045e,
                0x02ea,
                0x0408,
                xbox_buttons(),
                full_axes(),
            ),
    {
        DeviceConfig {
            name: String::from_str("Microsoft X-Box One pad"),
            vendor_id: 0x045e,
            product_id: 0x02ea,
            version: 0x0408,
            bustype: BusType::Usb,
            buttons: xbox_button_list(),
            axes: full_axis_list(),
        }
    }

    /// PlayStation 4 Controller (DualShock 4).
    pub fn ps4() -> (c: DeviceConfig)
        ensures
            c@ == usb_pad(
                "Sony Interactive Entertainment Wireless Controller"@,
                0x054c,
                0x09cc,
                0x8111,
                playstation_buttons(),
                full_axes(),
            ),
    {
        DeviceConfig {
            name: String::from_str("Sony Interactive Entertainment Wireless Controller"),
            vendor_id: 0x054c,
            product_id: 0x09cc,
            version: 0x8111,
            bustype: BusType::Usb,
            buttons: playstation_button_list(),
            axes: full_axis_list(),
        }
    }

    /// PlayStation 5 Controller (DualSense).
    pub fn ps5() -> (c: DeviceConfig)
        ensures
            c@ == usb_pad(
                "Sony Interactive Entertainment DualSense Wireless Controller"@,
                0x054c,
                0x0ce6,
                0x8111,
                playstation_buttons(),
                full_axes(),
            ),
    {
        DeviceConfig {
            name: String::from_str("Sony Interactive Entertainment DualSense Wireless Controller"),
            vendor_id: 0x054c,
            product_id: 0x0ce6,
            version: 0x8111,
            bustype: BusType::Usb,
            buttons: playstation_button_list(),
            axes: full_axis_list(),
        }
    }

    /// Nintendo Switch Pro Controller.
    pub fn switch_pro() -> (c: DeviceConfig)
        ensures
            c@ == usb_pad(
                "Nintendo Switch Pro Controller"@,
                0x057e,
                0x2009,
                0x8111,
                seq![
                    Button::B,
                    Button::A,
                    Button::Y,
                    Button::X,
                    Button::LeftBumper,
                    Button::RightBumper,
                    Button::LeftTrigger,
                    Button::RightTrigger,
                    Button::Select,
                    Button::Start,
                    Button::Guide,
                    Button::LeftStick,
                    Button::RightStick,
                    Button::Custom(317),
                ],
                stick_axes() + seq![hat(Axis::DPadX), hat(Axis::DPadY)],
            ),
    {
        let mut buttons: Vec<Button> = Vec::new();
        buttons.push(Button::B);
        buttons.push(Button::A);
        buttons.push(Button::Y);
        buttons.push(Button::X);
        buttons.push(Button::LeftBumper);
        buttons.push(Button::RightBumper);
        buttons.push(Button::LeftTrigger);
        buttons.push(Button::RightTrigger);
        buttons.push(Button::Select);
        buttons.push(Button::Start);
        buttons.push(Button::Guide);
        buttons.push(Button::LeftStick);
        buttons.push(Button::RightStick);
        buttons.push(Button::Custom(317));
        let mut axes = stick_axis_list();
        axes.push(AxisConfig::new(Axis::DPadX, -1, 1));
        axes.push(AxisConfig::new(Axis::DPadY, -1, 1));
        let c = DeviceConfig {
            name: String::from_str("Nintendo Switch Pro Controller"),
            vendor_id: 0x057e,
            product_id: 0x2009,
            version: 0x8111,
            bustype: BusType::Usb,
            buttons,
            axes,
        };
        assert(c@.buttons =~= seq![
            Button::B,
            Button::A,
            Button::Y,
            Button::X,
            Button::LeftBumper,
            Button::RightBumper,
            Button::LeftTrigger,
            Button::RightTrigger,
            Button::Select,
            Button::Start,
            Button::Guide,
            Button::LeftStick,
            Button::RightStick,
            Button::Custom(317),
        ]);
        assert(c@.axes =~= stick_axes() + seq![hat(Axis::DPadX), hat(Axis::DPadY)]);
        c
    }

    /// Generic USB gamepad (basic configuration).
    pub fn generic_gamepad() -> (c: DeviceConfig)
        ensures
            c@ == usb_pad(
                "Generic USB Gamepad"@,
                0x0079,
                0x0006,
                0x0110,
                seq![
                    Button::A,
                    Button::B,
                    Button::X,
                    Button::Y,
                    Button::LeftBumper,
                    Button::RightBumper,
                    Button::Select,
                    Button::Start,
                ],
                stick_axes(),
            ),
    {
        let mut buttons: Vec<Button> = Vec::new();
        buttons.push(Button::A);
        buttons.push(Button::B);
        buttons.push(Button::X);
        buttons.push(Button::Y);
        buttons.push(Button::LeftBumper);
        buttons.push(Button::RightBumper);
        buttons.push(Button::Select);
        buttons.push(Button::Start);
        let c = DeviceConfig {
            name: String::from_str("Generic USB Gamepad"),
            vendor_id: 0x0079,
            product_id: 0x0006,
            version: 0x0110,
            bustype: BusType::Usb,
            buttons,
            axes: stick_axis_list(),
        };
        assert(c@.buttons =~= seq![
            Button::A,
            Button::B,
            Button::X,
            Button::Y,
            Button::LeftBumper,
            Button::RightBumper,
            Button::Select,
            Button::Start,
        ]);
        c
    }

    /// Steam Controller.
    pub fn steam_controller() -> (c: DeviceConfig)
        ensures
            c@ == usb_pad(
                "Steam Controller"@,
                0x28de,
                0x1142,
                0x0111,
                seq![
                    Button::A,
                    Button::B,
                    Button::X,
                    Button::Y,
                    Button::LeftBumper,
                    Button::RightBumper,
                    Button::LeftTrigger,
                    Button::RightTrigger,
                    Button::Select,
                    Button::Start,
                    Button::Guide,
                    Button::LeftStick,
                    Button::RightStick,
                    Button::Custom(289),
                    Button::Custom(290),
                ],
                seq![
                    stick(Axis::LeftStickX),
                    stick(Axis::LeftStickY),
                    stick(Axis::Custom(3)),
                    stick(Axis::Custom(4)),
                    stick(Axis::Custom(5)),
                    stick(Axis::Custom(6)),
                    stick(Axis::LeftTrigger),
                    stick(Axis::RightTrigger),
                ],
            ),
    {
        let mut buttons: Vec<Button> = Vec::new();
        buttons.push(Button::A);
        buttons.push(Button::B);
        buttons.push(Button::X);
        buttons.push(Button::Y);
        buttons.push(Button::LeftBumper);
        buttons.push(Button::RightBumper);
        buttons.push(Button::LeftTrigger);
        buttons.push(Button::RightTrigger);
        buttons.push(Button::Select);
        buttons.push(Button::Start);
        buttons.push(Button::Guide);
        buttons.push(Button::LeftStick);
        buttons.push(Button::RightStick);
        buttons.push(Button::Custom(289));
        buttons.push(Button::Custom(290));
        let mut axes: Vec<AxisConfig> = Vec::new();
        axes.push(AxisConfig::new(Axis::LeftStickX, -32768, 32767));
        axes.push(AxisConfig::new(Axis::LeftStickY, -32768, 32767));
        axes.push(AxisConfig::new(Axis::Custom(3), -32768, 32767));
        axes.push(AxisConfig::new(Axis::Custom(4), -32768, 32767));
        axes.push(AxisConfig::new(Axis::Custom(5), -32768, 32767));
        axes.push(AxisConfig::new(Axis::Custom(6), -32768, 32767));
        axes.push(AxisConfig::new(Axis::LeftTrigger, -32768, 32767));
        axes.push(AxisConfig::new(Axis::RightTrigger, -32768, 32767));
        let c = DeviceConfig {
            name: String::from_str("Steam Controller"),
            vendor_id: 0x28de,
            product_id: 0x1142,
            version: 0x0111,
            bustype: BusType::Usb,
            buttons,
            axes,
        };
        assert(c@.buttons =~= seq![
            Button::A,
            Button::B,
            Button::X,
            Button::Y,
            Button::LeftBumper,
            Button::RightBumper,
            Button::LeftTrigger,
            Button::RightTrigger,
            Button::Select,
            Button::Start,
            Button::Guide,
            Button::LeftStick,
            Button::RightStick,
            Button::Custom(289),
            Button::Custom(290),
        ]);
        assert(c@.axes =~= seq![
            stick(Axis::LeftStickX),
            stick(Axis::LeftStickY),
            stick(Axis::Custom(3)),
            stick(Axis::Custom(4)),
            stick(Axis::Custom(5)),
            stick(Axis::Custom(6)),
            stick(Axis::LeftTrigger),
            stick(Axis::RightTrigger),
        ]);
        c
    }
}

/// Builder for custom controller configurations.
#[derive(Debug)]
pub struct ControllerBuilder {
    pub config: DeviceConfig,
}

impl View for ControllerBuilder {
    type V = DeviceConfigView;

    open spec fn view(&self) -> DeviceConfigView {
        self.config@
    }
}

impl ControllerBuilder {
    /// Start building a custom controller: a virtual device of version
    /// 0x0100 without buttons or axes.
    pub fn new(name: String) -> (b: ControllerBuilder)
        ensures
            b@ == (DeviceConfigView {
                name: name@,
                vendor_id: 0,
                product_id: 0,
                version: 0x0100,
                bustype: BusType::Virtual,
                buttons: Seq::empty(),
                axes: Seq::empty(),
            }),
    {
        ControllerBuilder {
            config: DeviceConfig {
                name,
                vendor_id: 0x0000,
                product_id: 0x0000,
                version: 0x0100,
                bustype: BusType::Virtual,
                buttons: Vec::new(),
                axes: Vec::new(),
            },
        }
    }

    /// Set vendor ID.
    pub fn vendor_id(self, vendor_id: u16) -> (b: ControllerBuilder)
        ensures
            b@ == (DeviceConfigView { vendor_id, ..self@ }),
    {
        let mut b = self;
        b.config.vendor_id = vendor_id;
        b
    }

    /// Set product ID.
    pub fn product_id(self, product_id: u16) -> (b: ControllerBuilder)
        ensures
            b@ == (DeviceConfigView { product_id, ..self@ }),
    {
        let mut b = self;
        b.config.product_id = product_id;
        b
    }

    /// Set version.
    pub fn version(self, version: u16) -> (b: ControllerBuilder)
        ensures
            b@ == (DeviceConfigView { version, ..self@ }),
    {
        let mut b = self;
        b.config.version = version;
        b
    }

    /// Set bus type.
    pub fn bustype(self, bustype: BusType) -> (b: ControllerBuilder)
        ensures
            b@ == (DeviceConfigView { bustype, ..self@ }),
    {
        let mut b = self;
        b.config.bustype = bustype;
        b
    }

    /// Add a button.
    pub fn button(self, button: Button) -> (b: ControllerBuilder)
        ensures
            b@ == (DeviceConfigView { buttons: self@.buttons.push(button), ..self@ }),
    {
        let mut b = self;
        b.config.buttons.push(button);
        b
    }

    /// Add multiple buttons.
    pub fn buttons(self, buttons: &[Button]) -> (b: ControllerBuilder)
        ensures
            b@ == (DeviceConfigView { buttons: self@.buttons + buttons@, ..self@ }),
    {
        let mut b = self;
        push_buttons(&mut b.config.buttons, buttons);
        b
    }

    /// Add an axis.
    pub fn axis(self, axis: Axis, min: i32, max: i32) -> (b: ControllerBuilder)
        ensures
            b@ == (DeviceConfigView {
                axes: self@.axes.push(AxisConfig { axis, min, max, fuzz: 0, flat: 0 }),
                ..self@
            }),
    {
        let mut b = self;
        b.config.axes.push(AxisConfig::new(axis, min, max));
        b
    }

    /// Add an axis with full configuration.
    pub fn axis_config(self, config: AxisConfig) -> (b: ControllerBuilder)
        ensures
            b@ == (DeviceConfigView { axes: self@.axes.push(config), ..self@ }),
    {
        let mut b = self;
        b.config.axes.push(config);
        b
    }

    /// Add multiple axes.
    pub fn axes(self, axes: &[AxisConfig]) -> (b: ControllerBuilder)
        ensures
            b@ == (DeviceConfigView { axes: self@.axes + axes@, ..self@ }),
    {
        let mut b = self;
        push_axes(&mut b.config.axes, axes);
        b
    }

    /// Build the configuration.
    pub fn build(self) -> (c: DeviceConfig)
        ensures
            c@ == self@,
    {
        self.config
    }

    /// Add standard face buttons (A, B, X, Y).
    pub fn face_buttons(self) -> (b: ControllerBuilder)
        ensures
            b@ == (DeviceConfigView {
                buttons: self@.buttons + seq![Button::A, Button::B, Button::X, Button::Y],
                ..self@
            }),
    {
        let list: [Button; 4] = [Button::A, Button::B, Button::X, Button::Y];
        assert(list@ =~= seq![Button::A, Button::B, Button::X, Button::Y]);
        self.buttons(list.as_slice())
    }

    /// Add shoulder buttons (L1, R1, L2, R2).
    pub fn shoulder_buttons(self) -> (b: ControllerBuilder)
        ensures
            b@ == (DeviceConfigView {
                buttons: self@.buttons + seq![
                    Button::LeftBumper,
                    Button::RightBumper,
                    Button::LeftTrigger,
                    Button::RightTrigger,
                ],
                ..self@
            }),
    {
        let list: [Button; 4] = [
            Button::LeftBumper,
            Button::RightBumper,
            Button::LeftTrigger,
            Button::RightTrigger,
        ];
        assert(list@ =~= seq![
            Button::LeftBumper,
            Button::RightBumper,
            Button::LeftTrigger,
            Button::RightTrigger,
        ]);
        self.buttons(list.as_slice())
    }

    /// Add standard menu buttons (Start, Select, Guide).
    pub fn menu_buttons(self) -> (b: ControllerBuilder)
        ensures
            b@ == (DeviceConfigView {
                buttons: self@.buttons + seq![Button::Start, Button::Select, Button::Guide],
                ..self@
            }),
    {
        let list: [Button; 3] = [Button::Start, Button::Select, Button::Guide];
        assert(list@ =~= seq![Button::Start, Button::Select, Button::Guide]);
        self.buttons(list.as_slice())
    }

    /// Add stick click buttons.
    pub fn stick_buttons(self) -> (b: ControllerBuilder)
        ensures
            b@ == (DeviceConfigView {
                buttons: self@.buttons + seq![Button::LeftStick, Button::RightStick],
                ..self@
            }),
    {
        let list: [Button; 2] = [Button::LeftStick, Button::RightStick];
        assert(list@ =~= seq![Button::LeftStick, Button::RightStick]);
        self.buttons(list.as_slice())
    }

    /// Add D-pad buttons.
    pub fn dpad_buttons(self) -> (b: ControllerBuilder)
        ensures
            b@ == (DeviceConfigView {
                buttons: self@.buttons + seq![
                    Button::DPadUp,
                    Button::DPadDown,
                    Button::DPadLeft,
                    Button::DPadRight,
                ],
                ..self@
            }),
    {
        let list: [Button; 4] = [
            Button::DPadUp,
            Button::DPadDown,
            Button::DPadLeft,
            Button::DPadRight,
        ];
        assert(list@ =~= seq![
            Button::DPadUp,
            Button::DPadDown,
            Button::DPadLeft,
            Button::DPadRight,
        ]);
        self.buttons(list.as_slice())
    }

    /// Add standard dual analog sticks.
    pub fn dual_analog_sticks(self) -> (b: ControllerBuilder)
        ensures
            b@ == (DeviceConfigView { axes: self@.axes + stick_axes(), ..self@ }),
    {
        let list = stick_axis_list();
        self.axes(list.as_slice())
    }

    /// Add analog triggers.
    pub fn analog_triggers(self) -> (b: ControllerBuilder)
        ensures
            b@ == (DeviceConfigView {
                axes: self@.axes + seq![trigger(Axis::LeftTrigger), trigger(Axis::RightTrigger)],
                ..self@
            }),
    {
        let list: [AxisConfig; 2] = [
            AxisConfig::new(Axis::LeftTrigger, 0, 255),
            AxisConfig::new(Axis::RightTrigger, 0, 255),
        ];
        assert(list@ =~= seq![trigger(Axis::LeftTrigger), trigger(Axis::RightTrigger)]);
        self.axes(list.as_slice())
    }

    /// Add D-pad as axes.
    pub fn dpad_axes(self) -> (b: ControllerBuilder)
        ensures
            b@ == (DeviceConfigView { axes: self@.axes + seq![hat(Axis::DPadX), hat(Axis::DPadY)], ..self@ }),
    {
        let list: [AxisConfig; 2] = [
            AxisConfig::new(Axis::DPadX, -1, 1),
            AxisConfig::new(Axis::DPadY, -1, 1),
        ];
        assert(list@ =~= seq![hat(Axis::DPadX), hat(Axis::DPadY)]);
        self.axes(list.as_slice())
    }
}

} // verus!
