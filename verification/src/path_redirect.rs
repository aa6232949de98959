//! Where the paths of the kernel's input stack lead inside the façade's
//! base directory, and which of them are device nodes.

use vstd::prelude::*;
use vstd::string::{StrSliceExecFns, StringExecFns};
use crate::ioctl::DeviceType;
use crate::text::{has_prefix, is_all_digits, is_number, starts_with, str_equals, suffix_from};

verus! {

/// The base directory used where none is configured.
pub open spec fn default_base_path() -> Seq<char> {
    "/tmp/vimputti"@
}

/// The text after the first `n` characters.
pub open spec fn after(path: Seq<char>, n: nat) -> Seq<char> {
    path.subrange(n as int, path.len() as int)
}

/// Where one of the six fixed paths leads.
pub open spec fn redirect_exact(path: Seq<char>, base: Seq<char>) -> Option<Seq<char>> {
    if path == "/dev/uinput"@ {
        Some(base + "/uinput"@)
    } else if path == "/dev/input"@ {
        Some(base + "/devices"@)
    } else if path == "/sys/class/input"@ {
        Some(base + "/sysfs/class/input"@)
    } else if path == "/sys/devices/virtual/input"@ {
        Some(base + "/sysfs/devices/virtual/input"@)
    } else if path == "/run/udev/control"@ {
        Some(base + "/udev"@)
    } else if path == "/run/udev/data"@ {
        Some(base + "/udev_data"@)
    } else {
        None
    }
}

/// Where a path below one of the four redirected directories leads.
pub open spec fn redirect_below(path: Seq<char>, base: Seq<char>) -> Option<Seq<char>> {
    if has_prefix(path, "/dev/input/"@) {
        Some(base + "/devices/"@ + after(path, "/dev/input/"@.len()))
    } else if has_prefix(path, "/sys/class/input/"@) {
        Some(base + "/sysfs/class/input/"@ + after(path, "/sys/class/input/"@.len()))
    } else if has_prefix(path, "/sys/devices/virtual/input/"@) {
        Some(
            base + "/sysfs/devices/virtual/input/"@ + after(
                path,
                "/sys/devices/virtual/input/"@.len(),
            ),
        )
    } else if has_prefix(path, "/run/udev/data/"@) {
        Some(base + "/udev_data/"@ + after(path, "/run/udev/data/"@.len()))
    } else {
        None
    }
}

/// Where a path leads, if it is redirected at all.
pub open spec fn redirected(path: Seq<char>, base: Seq<char>) -> Option<Seq<char>> {
    match redirect_exact(path, base) {
        Some(p) => Some(p),
        None => redirect_below(path, base),
    }
}

/// Whether a path is `prefix` followed by a number.
pub open spec fn is_numbered(path: Seq<char>, prefix: Seq<char>) -> bool {
    has_prefix(path, prefix) && is_number(after(path, prefix.len()))
}

/// Whether a path names an event node: `/dev/input/event` and a number.
pub open spec fn names_event_device(path: Seq<char>) -> bool {
    is_numbered(path, "/dev/input/event"@)
}

/// Whether a path names a joystick node: `/dev/input/js` and a number.
pub open spec fn names_joystick_device(path: Seq<char>) -> bool {
    is_numbered(path, "/dev/input/js"@)
}

/// Whether a path names a node that is opened by connecting to a socket:
/// the uinput device, an event node or a joystick node.
pub open spec fn names_input_device(path: Seq<char>) -> bool {
    path == "/dev/uinput"@ || names_event_device(path) || names_joystick_device(path)
}

/// Redirects the paths of the input stack into the base directory.
#[derive(Debug, Clone, PartialEq, Eq)]
pub struct PathRedirector {
    pub base_path: String,
}

fn numbered(path: &str, prefix: &str) -> (r: bool)
    ensures
        r == is_numbered(path@, prefix@),
{
    if starts_with(path, prefix) {
        let n: usize = prefix.unicode_len();
        is_all_digits(suffix_from(path, n))
    } else {
        false
    }
}

impl PathRedirector {
    /// A redirector into the default base directory.
    pub fn new() -> (r: PathRedirector)
        ensures
            r.base_path@ == default_base_path(),
    {
        PathRedirector { base_path: String::from_str("/tmp/vimputti") }
    }

    /// A redirector into `base_path`.
    pub fn with_base(base_path: String) -> (r: PathRedirector)
        ensures
            r.base_path == base_path,
    {
        PathRedirector { base_path }
    }

    fn below(&self, path: &str, prefix: &str, target: &str) -> (r: Option<String>)
        ensures
            r is Some <==> has_prefix(path@, prefix@),
            r is Some ==> r->0@ == self.base_path@ + target@ + after(path@, prefix@.len()),
    {
        if starts_with(path, prefix) {
            let n: usize = prefix.unicode_len();
            let mut s = self.base_path.clone();
            s.append(target);
            s.append(suffix_from(path, n));
            Some(s)
        } else {
            None
        }
    }

    fn exact(&self, path: &str, fixed: &str, target: &str) -> (r: Option<String>)
        ensures
            r is Some <==> path@ == fixed@,
            r is Some ==> r->0@ == self.base_path@ + target@,
    {
        if str_equals(path, fixed) {
            let mut s = self.base_path.clone();
            s.append(target);
            Some(s)
        } else {
            None
        }
    }

    /// Where a path below one of the redirected directories leads.
    pub fn redirect_prefix(&self, path: &str) -> (r: Option<String>)
        ensures
            r is Some <==> redirect_below(path@, self.base_path@) is Some,
            r is Some ==> r->0@ == redirect_below(path@, self.base_path@)->0,
    {
        match self.below(path, "/dev/input/", "/devices/") {
            Some(s) => {
                return Some(s);
            },
            None => {},
        }
        match self.below(path, "/sys/class/input/", "/sysfs/class/input/") {
            Some(s) => {
                return Some(s);
            },
            None => {},
        }
        match self.below(path, "/sys/devices/virtual/input/", "/sysfs/devices/virtual/input/") {
            Some(s) => {
                return Some(s);
            },
            None => {},
        }
        self.below(path, "/run/udev/data/", "/udev_data/")
    }

    /// Check if a path should be redirected, and return the new path.
    pub fn redirect(&self, path: &str) -> (r: Option<String>)
        ensures
            r is Some <==> redirected(path@, self.base_path@) is Some,
            r is Some ==> r->0@ == redirected(path@, self.base_path@)->0,
    {
        match self.exact(path, "/dev/uinput", "/uinput") {
            Some(s) => {
                return Some(s);
            },
            None => {},
        }
        match self.exact(path, "/dev/input", "/devices") {
            Some(s) => {
                return Some(s);
            },
            None => {},
        }
        match self.exact(path, "/sys/class/input", "/sysfs/class/input") {
            Some(s) => {
                return Some(s);
            },
            None => {},
        }
        match self.exact(path, "/sys/devices/virtual/input", "/sysfs/devices/virtual/input") {
            Some(s) => {
                return Some(s);
            },
            None => {},
        }
        match self.exact(path, "/run/udev/control", "/udev") {
            Some(s) => {
                return Some(s);
            },
            None => {},
        }
        match self.exact(path, "/run/udev/data", "/udev_data") {
            Some(s) => {
                return Some(s);
            },
            None => {},
        }
        self.redirect_prefix(path)
    }

    /// Check if path is an evdev event node (e.g., /dev/input/event0).
    pub fn is_event_device(path: &str) -> (r: bool)
        ensures
            r == names_event_device(path@),
    {
        numbered(path, "/dev/input/event")
    }

    /// Check if path is a joystick node (e.g., /dev/input/js0).
    pub fn is_joystick_device(path: &str) -> (r: bool)
        ensures
            r == names_joystick_device(path@),
    {
        numbered(path, "/dev/input/js")
    }

    /// Check if path is an input device node that is opened by a socket
    /// connection and a handshake. Feedback sockets and all other files are
    /// none.
    pub fn is_input_device(path: &str) -> (r: bool)
        ensures
            r == names_input_device(path@),
    {
        str_equals(path, "/dev/uinput") || Self::is_event_device(path) || Self::is_joystick_device(
            path,
        )
    }

    /// The kind of node a path names, if it names a device node.
    pub fn device_type(path: &str) -> (r: Option<DeviceType>)
        ensures
            r == if path@ == "/dev/uinput"@ {
                Some(DeviceType::Uinput)
            } else if names_joystick_device(path@) {
                Some(DeviceType::Joystick)
            } else if names_event_device(path@) {
                Some(DeviceType::Event)
            } else {
                None
            },
    {
        if str_equals(path, "/dev/uinput") {
            Some(DeviceType::Uinput)
        } else if Self::is_joystick_device(path) {
            Some(DeviceType::Joystick)
        } else if Self::is_event_device(path) {
            Some(DeviceType::Event)
        } else {
            None
        }
    }
}

/// What the supervisor does with an `open`.
#[derive(Debug, PartialEq, Eq)]
pub enum OpenDecision {
    /// Connect to the socket at `socket_path`, take the handshake, and
    /// hand the connection to the caller as its descriptor.
    Device { socket_path: String, device_type: DeviceType },
    /// Open the file at `path` in the caller's place.
    File { path: String },
    /// The kernel carries the call out.
    Continue,
}

/// Decides an `open` of `path`: a device node is opened by a socket
/// connection, any other redirected path as the file it leads to, and
/// every other path is left to the kernel.
pub fn handle_openat(redirector: &PathRedirector, path: &str) -> (r: OpenDecision)
    ensures
        match r {
            OpenDecision::Device { socket_path, device_type } => names_input_device(path@)
                && redirected(path@, redirector.base_path@) == Some(socket_path@) && (device_type
                == if path@ == "/dev/uinput"@ {
                DeviceType::Uinput
            } else if names_joystick_device(path@) {
                DeviceType::Joystick
            } else {
                DeviceType::Event
            }),
            OpenDecision::File { path: target } => !names_input_device(path@) && redirected(
                path@,
                redirector.base_path@,
            ) == Some(target@),
            OpenDecision::Continue => redirected(path@, redirector.base_path@) is None,
        },
{
    proof {
        if names_input_device(path@) {
            lemma_device_nodes_are_redirected(path@, redirector.base_path@);
        }
    }
    let target = redirector.redirect(path);
    match target {
        None => OpenDecision::Continue,
        Some(socket_path) => match PathRedirector::device_type(path) {
            Some(device_type) => OpenDecision::Device { socket_path, device_type },
            None => OpenDecision::File { path: socket_path },
        },
    }
}

/// A longer prefix implies a shorter one.
pub proof fn lemma_prefix_of_prefix(path: Seq<char>, long: Seq<char>, short: Seq<char>)
    requires
        has_prefix(path, long),
        has_prefix(long, short),
    ensures
        has_prefix(path, short),
{
    assert(path.subrange(0, short.len() as int) =~= long.subrange(0, short.len() as int));
}

/// Every device node is redirected.
pub proof fn lemma_device_nodes_are_redirected(path: Seq<char>, base: Seq<char>)
    requires
        names_input_device(path),
    ensures
        redirected(path, base) is Some,
{
    reveal_strlit("/dev/input/");
    reveal_strlit("/dev/input/event");
    reveal_strlit("/dev/input/js");
    if names_event_device(path) {
        assert("/dev/input/event"@.subrange(0, 11) =~= "/dev/input/"@);
        lemma_prefix_of_prefix(path, "/dev/input/event"@, "/dev/input/"@);
    } else if names_joystick_device(path) {
        assert("/dev/input/js"@.subrange(0, 11) =~= "/dev/input/"@);
        lemma_prefix_of_prefix(path, "/dev/input/js"@, "/dev/input/"@);
    }
}

} // verus!
