//! Virtual input device emulation.
//!
//! A manager owns a set of virtual game controllers and shows each of them
//! to unmodified applications as if a real gamepad were plugged in: as an
//! event node, a joystick node, a sysfs subtree and a stream of hotplug
//! records. This crate is the core of that façade, free of I/O: the wire
//! formats, the state of the manager and of each device, and what every
//! command, message and ioctl is answered with. The program around it
//! reads and writes the sockets and files.
//!
//! * Wire formats: [`evdev`], [`joystick`], [`udev`], [`framing`],
//!   [`murmur`], [`wire`], [`text`].
//! * Sysfs: [`sysfs`], [`caps`], [`artifacts`].
//! * Devices and their consumers: [`device`], [`fanout`], [`feedback`].
//! * The manager: [`manager`], [`registry`], [`ids`], [`idmap`].
//! * The uinput relay: [`relay`], [`uinput`], [`consumer`].
//! * What consumers ask of a node: [`ioctl`], [`stat`], [`path_redirect`],
//!   [`seccomp`], [`handler`], [`libudev`].
//! * The library client: [`client`], [`templates`], [`legacy`].

pub mod artifacts;
pub mod caps;
pub mod client;
pub mod consumer;
pub mod device;
pub mod evdev;
pub mod fanout;
pub mod feedback;
pub mod framing;
pub mod handler;
pub mod idmap;
pub mod ids;
pub mod ioctl;
pub mod joystick;
pub mod legacy;
pub mod libudev;
pub mod manager;
pub mod murmur;
pub mod path_redirect;
pub mod protocol;
pub mod registry;
pub mod relay;
pub mod seccomp;
pub mod stat;
pub mod sysfs;
pub mod templates;
pub mod text;
pub mod udev;
pub mod uinput;
pub mod wire;

pub use client::{VimputtiClient, VirtualController};
pub use protocol::{
    Axis, AxisConfig, BusType, Button, DeviceConfig, DeviceId, DeviceInfo, InputEvent,
    LinuxAbsEvent, LinuxJsEvent, EV_ABS, EV_KEY, EV_REL, EV_SYN,
};
pub use templates::{ControllerBuilder, ControllerTemplates};
