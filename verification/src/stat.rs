//! What `stat` tells of a device node: a character device with the numbers
//! the kernel would give it.

use vstd::prelude::*;
use vstd::string::StrSliceExecFns;
use crate::path_redirect::{
    after, names_event_device, names_input_device, names_joystick_device, PathRedirector,
};
use crate::text::{
    digits_value, has_prefix, is_number, parse_decimal, starts_with, str_equals, suffix_from,
};

verus! {

/// File type bits of a character device.
pub const S_IFCHR: u32 = 0o020000;

/// Mask of the file type bits.
pub const S_IFMT: u32 = 0o170000;

/// `struct stat` as a 64-bit kernel lays it out.
#[derive(Debug, Clone, Copy, PartialEq, Eq)]
pub struct Stat64 {
    pub st_dev: u64,
    pub st_ino: u64,
    pub st_nlink: u64,
    pub st_mode: u32,
    pub st_uid: u32,
    pub st_gid: u32,
    pub __pad0: u32,
    pub st_rdev: u64,
    pub st_size: i64,
    pub st_blksize: i64,
    pub st_blocks: i64,
    pub st_atime: i64,
    pub st_atime_nsec: i64,
    pub st_mtime: i64,
    pub st_mtime_nsec: i64,
    pub st_ctime: i64,
    pub st_ctime_nsec: i64,
    pub __unused: [i64; 3],
}

/// The device number of a major and a minor number: the low 8 bits of the
/// minor, the low 12 bits of the major, the next 24 bits of the minor and
/// the next 20 bits of the major, from the lowest bit up.
pub open spec fn spec_makedev(major: u64, minor: u64) -> u64 {
    ((minor % 0x100) + (major % 0x1000) * 0x100 + ((minor / 0x100) % 0x100_0000) * 0x10_0000 + ((major
        / 0x1000) % 0x10_0000) * 0x1000_0000_0000) as u64
}

/// Create a device number from major and minor.
#[verifier::when_used_as_spec(spec_makedev)]
pub fn makedev(major: u64, minor: u64) -> (r: u64)
    ensures
        r == spec_makedev(major, minor),
{
    (minor % 0x100) + (major % 0x1000) * 0x100 + ((minor / 0x100) % 0x100_0000) * 0x10_0000 + ((major
        / 0x1000) % 0x10_0000) * 0x1000_0000_0000
}

/// The number at the end of a node name or path: zero where there is none
/// or it does not fit in 64 bits.
pub open spec fn node_number(text: Seq<char>, prefix: Seq<char>) -> u64 {
    let digits = after(text, prefix.len());
    if is_number(digits) && digits_value(digits) <= u64::MAX {
        digits_value(digits) as u64
    } else {
        0
    }
}

/// The minor number of event node `n`: 64 more than `n`, or 64 where that
/// does not fit in 64 bits.
pub open spec fn event_minor(n: u64) -> u64 {
    if n <= u64::MAX - 64 {
        (64 + n) as u64
    } else {
        64
    }
}

/// Major and minor number of the node that a text names, where `event`
/// and `js` are what event and joystick nodes start with and `uinput` is
/// the uinput device: event nodes have major 13 and minors from 64 on,
/// joystick nodes major 81, the uinput device is 10:223, and anything
/// else counts as the first event node.
pub open spec fn numbers_of(
    text: Seq<char>,
    event: Seq<char>,
    js: Seq<char>,
    uinput: Seq<char>,
) -> (u64, u64) {
    if has_prefix(text, event) {
        (13, event_minor(node_number(text, event)))
    } else if has_prefix(text, js) {
        (81, node_number(text, js))
    } else if text == uinput {
        (10, 223)
    } else {
        (13, 64)
    }
}

/// Major and minor number of the device node at `path`.
pub open spec fn path_numbers(path: Seq<char>) -> (u64, u64) {
    numbers_of(path, "/dev/input/event"@, "/dev/input/js"@, "/dev/uinput"@)
}

/// Major and minor number of the node named `name`.
pub open spec fn name_numbers(name: Seq<char>) -> (u64, u64) {
    numbers_of(name, "event"@, "js"@, "uinput"@)
}

fn number_after(text: &str, prefix: &str) -> (n: u64)
    requires
        has_prefix(text@, prefix@),
    ensures
        n == node_number(text@, prefix@),
{
    let k: usize = prefix.unicode_len();
    match parse_decimal(suffix_from(text, k)) {
        Some(v) => v,
        None => 0,
    }
}

fn numbers(text: &str, event: &str, js: &str, uinput: &str) -> (r: (u64, u64))
    ensures
        r == numbers_of(text@, event@, js@, uinput@),
{
    if starts_with(text, event) {
        let n = number_after(text, event);
        if n <= u64::MAX - 64 {
            (13, 64 + n)
        } else {
            (13, 64)
        }
    } else if starts_with(text, js) {
        (81, number_after(text, js))
    } else if str_equals(text, uinput) {
        (10, 223)
    } else {
        (13, 64)
    }
}

/// Check if `stat` is to be faked for this path: it is for the device
/// nodes and for nothing else.
pub fn should_fake_stat(path: &str) -> (r: bool)
    ensures
        r == names_input_device(path@),
{
    PathRedirector::is_input_device(path)
}

/// What `stat` tells of the device node at `path`, given what it tells of
/// the socket that stands for it: everything of the socket but the mode,
/// which is that of a character device with the socket's permissions, and
/// the device number.
pub open spec fn faked_stat(path: Seq<char>, found: Stat64) -> Stat64 {
    Stat64 {
        st_mode: (S_IFCHR + found.st_mode % 0o10000) as u32,
        st_rdev: spec_makedev(path_numbers(path).0, path_numbers(path).1),
        __pad0: 0,
        __unused: found.__unused,
        ..found
    }
}

/// Create a fake stat structure that looks like a character device.
pub fn fake_device_stat(path: &str, found: &Stat64) -> (r: Stat64)
    ensures
        r == faked_stat(path@, *found),
{
    let (major, minor) = numbers(path, "/dev/input/event", "/dev/input/js", "/dev/uinput");
    Stat64 {
        st_dev: found.st_dev,
        st_ino: found.st_ino,
        st_nlink: found.st_nlink,
        st_mode: S_IFCHR + found.st_mode % 0o10000,
        st_uid: found.st_uid,
        st_gid: found.st_gid,
        __pad0: 0,
        st_rdev: makedev(major, minor),
        st_size: found.st_size,
        st_blksize: found.st_blksize,
        st_blocks: found.st_blocks,
        st_atime: found.st_atime,
        st_atime_nsec: found.st_atime_nsec,
        st_mtime: found.st_mtime,
        st_mtime_nsec: found.st_mtime_nsec,
        st_ctime: found.st_ctime,
        st_ctime_nsec: found.st_ctime_nsec,
        __unused: found.__unused,
    }
}

/// What `fstat` tells of a descriptor that stands for the node `name`: a
/// character device on devtmpfs, readable and writable by owner and
/// group, owned by the caller, with all its times at `now`.
pub open spec fn descriptor_stat(name: Seq<char>, uid: u32, gid: u32, now: i64, unused: [i64; 3]) -> Stat64 {
    Stat64 {
        st_dev: spec_makedev(0, 5),
        st_ino: ((1000 + name_numbers(name).1) % 0x1_0000_0000_0000_0000) as u64,
        st_nlink: 1,
        st_mode: (S_IFCHR + 0o660) as u32,
        st_uid: uid,
        st_gid: gid,
        __pad0: 0,
        st_rdev: spec_makedev(name_numbers(name).0, name_numbers(name).1),
        st_size: 0,
        st_blksize: 4096,
        st_blocks: 0,
        st_atime: now,
        st_atime_nsec: 0,
        st_mtime: now,
        st_mtime_nsec: 0,
        st_ctime: now,
        st_ctime_nsec: 0,
        __unused: unused,
    }
}

/// Answer `fstat` on a descriptor that stands for a device node.
pub fn handle_fstat(event_node: &str, uid: u32, gid: u32, now: i64) -> (r: Stat64)
    ensures
        r == descriptor_stat(event_node@, uid, gid, now, r.__unused),
        r.__unused@ == seq![0i64, 0i64, 0i64],
{
    let (major, minor) = numbers(event_node, "event", "js", "uinput");
    let ino: u64 = if minor <= u64::MAX - 1000 {
        1000 + minor
    } else {
        minor - (u64::MAX - 1000) - 1
    };
    let unused: [i64; 3] = [0, 0, 0];
    assert(unused@ =~= seq![0i64, 0i64, 0i64]);
    Stat64 {
        st_dev: makedev(0, 5),
        st_ino: ino,
        st_nlink: 1,
        st_mode: S_IFCHR + 0o660,
        st_uid: uid,
        st_gid: gid,
        __pad0: 0,
        st_rdev: makedev(major, minor),
        st_size: 0,
        st_blksize: 4096,
        st_blocks: 0,
        st_atime: now,
        st_atime_nsec: 0,
        st_mtime: now,
        st_mtime_nsec: 0,
        st_ctime: now,
        st_ctime_nsec: 0,
        __unused: unused,
    }
}

} // verus!
