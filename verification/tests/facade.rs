use vimputti::ioctl::{
    absinfo, complete_ioctl, handle_eviocgabs, handle_eviocgbit, handle_evdev_ioctl, handle_ioctl,
    handle_joystick_ioctl, ioc_dir, ioc_nr, ioc_size, ioc_type, set_bit, DeviceType, IoctlReply,
    IoctlResult, VirtualFdContext,
};
use vimputti::path_redirect::{handle_openat, OpenDecision, PathRedirector};
use vimputti::protocol::{Axis, AxisConfig, BusType, Button, DeviceConfig, LinuxAbsEvent};
use vimputti::handler::{
    complete_open, complete_socket, complete_stat, dirfd_for, handle_ioctl_syscall,
    handle_newfstatat, handle_syscall, receive_failure, syscall_name, OpenOutcome, ReceiveFailure,
    SocketOutcome, StatDecision, StatOutcome, Syscall, SyscallResult,
};
use vimputti::seccomp::{
    build_filter, build_input_device_filter, handle_bind, handle_socket, supervised_syscalls,
    SeccompData, SeccompNotifResp, SockFilter, SocketDecision,
};
use vimputti::stat::{fake_device_stat, handle_fstat, makedev, should_fake_stat, Stat64};
use vimputti::wire::ByteOrder;

fn pad() -> DeviceConfig {
    DeviceConfig {
        name: "Pad".to_string(),
        vendor_id: 0x045e,
        product_id: 0x028e,
        version: 0x0110,
        bustype: BusType::Usb,
        buttons: vec![Button::A, Button::B, Button::Start],
        axes: vec![
            AxisConfig::new(Axis::LeftStickX, -32768, 32767),
            AxisConfig::new(Axis::DPadX, -1, 1),
            AxisConfig { axis: Axis::LeftStickX, min: 0, max: 9, fuzz: 3, flat: 4 },
        ],
    }
}

// _IOC(dir, type, nr, size)
fn ioc(dir: u32, ty: u8, nr: u8, size: u32) -> u32 {
    (dir << 30) | (size << 16) | ((ty as u32) << 8) | nr as u32
}

fn written(reply: IoctlReply) -> (Vec<u8>, i64) {
    match reply {
        IoctlReply::Write { data, ret, required: true } => (data, ret),
        other => panic!("{:?}", other),
    }
}

#[test]
fn request_numbers_are_taken_apart() {
    let cmd = 0x8008_4502u32;
    assert_eq!(ioc_dir(cmd), 2);
    assert_eq!(ioc_type(cmd), b'E');
    assert_eq!(ioc_nr(cmd), 0x02);
    assert_eq!(ioc_size(cmd), 8);
    let cmd = ioc(3, b'j', 0x34, 0x3fff);
    assert_eq!((ioc_dir(cmd), ioc_type(cmd), ioc_nr(cmd), ioc_size(cmd)), (3, b'j', 0x34, 0x3fff));
    assert_eq!(ioc_dir(0x4004_4590), 1);
    assert_eq!(ioc_dir(0x5501), 0);
}

#[test]
fn evdev_version_and_identity() {
    let config = pad();
    let (data, ret) = written(handle_evdev_ioctl(0x8004_4501, 3, &config, ByteOrder::Little));
    assert_eq!((data, ret), (0x010001i32.to_le_bytes().to_vec(), 0));
    let (data, _) = written(handle_evdev_ioctl(0x8004_4501, 3, &config, ByteOrder::Big));
    assert_eq!(data, 0x010001i32.to_be_bytes().to_vec());
    let (data, ret) = written(handle_evdev_ioctl(0x8008_4502, 3, &config, ByteOrder::Little));
    assert_eq!(data, vec![0x03, 0, 0x5e, 0x04, 0x8e, 0x02, 0x10, 0x01]);
    assert_eq!(ret, 0);
    assert_eq!(
        handle_evdev_ioctl(0x4004_4590, 3, &config, ByteOrder::Little),
        IoctlReply::Return { ret: 0 }
    );
    assert_eq!(
        handle_evdev_ioctl(0x4004_4591, 3, &config, ByteOrder::Little),
        IoctlReply::Return { ret: 0 }
    );
}

#[test]
fn evdev_texts_fit_their_buffer() {
    let config = pad();
    let name = |size: u32| {
        written(handle_evdev_ioctl(ioc(2, b'E', 0x06, size), 3, &config, ByteOrder::Little))
    };
    assert_eq!(name(8), (b"Pad\0\0\0\0\0".to_vec(), 3));
    assert_eq!(name(4), (b"Pad\0".to_vec(), 3));
    assert_eq!(name(3), (b"Pa\0".to_vec(), 2));
    assert_eq!(name(1), (vec![0], 0));
    assert_eq!(name(0), (vec![], 0));
    let phys = written(handle_evdev_ioctl(ioc(2, b'E', 0x07, 32), 12, &config, ByteOrder::Little));
    let mut expected = b"usb-vimputti.0/input12".to_vec();
    expected.resize(32, 0);
    assert_eq!(phys, (expected, 22));
    let uniq = written(handle_evdev_ioctl(ioc(2, b'E', 0x08, 4), 12, &config, ByteOrder::Little));
    assert_eq!(uniq, (b"12\0\0".to_vec(), 2));
    for nr in [0x09u8, 0x18] {
        let zeros =
            written(handle_evdev_ioctl(ioc(2, b'E', nr, 5), 12, &config, ByteOrder::Little));
        assert_eq!(zeros, (vec![0; 5], 0));
    }
}

#[test]
fn evdev_bitmasks() {
    let config = pad();
    assert_eq!(handle_eviocgbit(4, 0, &config), vec![0x0b, 0, 0x20, 0]);
    assert_eq!(handle_eviocgbit(2, 0, &config), vec![0x0b, 0]);
    assert_eq!(handle_eviocgbit(0, 0, &config), Vec::<u8>::new());
    let mut keys = vec![0u8; 96];
    for code in [0x130usize, 0x131, 0x13b] {
        keys[code / 8] |= 1 << (code % 8);
    }
    assert_eq!(handle_eviocgbit(96, 1, &config), keys);
    // A buffer that ends before a code has no bit for it.
    assert_eq!(handle_eviocgbit(39, 1, &config), keys[..39].to_vec());
    assert_eq!(handle_eviocgbit(38, 1, &config), vec![0u8; 38]);
    assert_eq!(handle_eviocgbit(3, 2, &config), vec![0, 0, 0]);
    assert_eq!(handle_eviocgbit(3, 3, &config), vec![0x01, 0, 0x01]);
    let mut ff = vec![0u8; 16];
    ff[0x50 / 8] = 1 << (0x50 % 8);
    assert_eq!(handle_eviocgbit(16, 0x15, &config), ff);
    assert_eq!(handle_eviocgbit(3, 4, &config), vec![0, 0, 0]);
    let reply = handle_evdev_ioctl(ioc(2, b'E', 0x20 + 1, 96), 0, &config, ByteOrder::Little);
    assert_eq!(written(reply), (keys, 0));
}

#[test]
fn evdev_axis_ranges() {
    let config = pad();
    assert_eq!(
        absinfo(&config, 0),
        LinuxAbsEvent { value: 0, minimum: -32768, maximum: 32767, fuzz: 16, flat: 128, resolution: 0 }
    );
    assert_eq!(
        absinfo(&config, 0x10),
        LinuxAbsEvent { value: 0, minimum: -1, maximum: 1, fuzz: 0, flat: 0, resolution: 0 }
    );
    assert_eq!(
        absinfo(&config, 0x3f),
        LinuxAbsEvent { value: 0, minimum: -32768, maximum: 32767, fuzz: 16, flat: 128, resolution: 0 }
    );
    let mut expected = Vec::new();
    for v in [0i32, -1, 1, 0, 0, 0] {
        expected.extend_from_slice(&v.to_le_bytes());
    }
    assert_eq!(handle_eviocgabs(0x10, &config, ByteOrder::Little), expected);
    let reply = handle_evdev_ioctl(ioc(2, b'E', 0x40 + 0x10, 24), 0, &config, ByteOrder::Little);
    assert_eq!(written(reply), (expected, 0));
    let mut expected = Vec::new();
    for v in [0i32, -32768, 32767, 16, 128, 0] {
        expected.extend_from_slice(&v.to_be_bytes());
    }
    assert_eq!(handle_eviocgabs(0, &config, ByteOrder::Big), expected);
}

#[test]
fn other_evdev_requests_are_accepted() {
    let config = pad();
    assert_eq!(
        handle_evdev_ioctl(ioc(2, b'E', 0x90, 6), 0, &config, ByteOrder::Little),
        IoctlReply::Write { data: vec![0; 6], ret: 0, required: false }
    );
    assert_eq!(
        handle_evdev_ioctl(ioc(2, b'E', 0x90, 0), 0, &config, ByteOrder::Little),
        IoctlReply::Return { ret: 0 }
    );
    assert_eq!(
        handle_evdev_ioctl(ioc(1, b'E', 0x03, 8), 0, &config, ByteOrder::Little),
        IoctlReply::Return { ret: 0 }
    );
}

#[test]
fn joystick_requests() {
    let config = pad();
    let le = ByteOrder::Little;
    assert_eq!(
        written(handle_joystick_ioctl(0x8004_6a01, &config, le)),
        (0x020100i32.to_le_bytes().to_vec(), 0)
    );
    assert_eq!(written(handle_joystick_ioctl(0x8001_6a11, &config, le)), (vec![3], 0));
    assert_eq!(written(handle_joystick_ioctl(0x8001_6a12, &config, le)), (vec![3], 0));
    assert_eq!(
        written(handle_joystick_ioctl(ioc(2, b'j', 0x13, 6), &config, le)),
        (b"Pad\0\0\0".to_vec(), 3)
    );
    assert_eq!(
        written(handle_joystick_ioctl(ioc(2, b'j', 0x32, 5), &config, le)),
        (vec![0x00, 0x10, 0x00, 0, 0], 0)
    );
    assert_eq!(
        written(handle_joystick_ioctl(ioc(2, b'j', 0x32, 2), &config, le)),
        (vec![0x00, 0x10], 0)
    );
    assert_eq!(
        written(handle_joystick_ioctl(ioc(2, b'j', 0x34, 8), &config, le)),
        (vec![0x30, 0x01, 0x31, 0x01, 0x3b, 0x01, 0, 0], 0)
    );
    assert_eq!(
        written(handle_joystick_ioctl(ioc(2, b'j', 0x34, 3), &config, ByteOrder::Big)),
        (vec![0x01, 0x30, 0x01], 0)
    );
    assert_eq!(
        handle_joystick_ioctl(ioc(2, b'j', 0x40, 3), &config, le),
        IoctlReply::Return { ret: 0 }
    );
}

#[test]
fn ioctls_are_answered_by_kind_of_descriptor() {
    let ctx = VirtualFdContext {
        event_node: "event7".to_string(),
        device_type: DeviceType::Event,
        device_id: 7,
        manager_fd: 5,
        config: pad(),
    };
    let le = ByteOrder::Little;
    assert_eq!(handle_ioctl(None, 0x8004_4501, le), IoctlResult::NotVirtualFd);
    assert_eq!(
        handle_ioctl(Some(&ctx), 0x8004_4501, le),
        IoctlResult::Handled(handle_evdev_ioctl(0x8004_4501, 7, &ctx.config, le))
    );
    assert_eq!(
        handle_ioctl(Some(&ctx), 0x8001_6a11, le),
        IoctlResult::Handled(handle_joystick_ioctl(0x8001_6a11, &ctx.config, le))
    );
    assert_eq!(
        handle_ioctl(Some(&ctx), 0x5401, le),
        IoctlResult::Handled(IoctlReply::Fail { errno: 25 })
    );
}

#[test]
fn the_kernel_is_told_how_the_ioctl_went() {
    let write = IoctlReply::Write { data: vec![1], ret: 3, required: true };
    assert_eq!(complete_ioctl(&write, true), SeccompNotifResp::new_success(3));
    assert_eq!(complete_ioctl(&write, false), SeccompNotifResp::new_error(14));
    let lenient = IoctlReply::Write { data: vec![1], ret: 0, required: false };
    assert_eq!(complete_ioctl(&lenient, false), SeccompNotifResp::new_success(0));
    assert_eq!(
        complete_ioctl(&IoctlReply::Return { ret: 9 }, false),
        SeccompNotifResp::new_success(9)
    );
    assert_eq!(
        complete_ioctl(&IoctlReply::Fail { errno: 25 }, true),
        SeccompNotifResp { id: 0, val: -1, error: -25, flags: 0 }
    );
}

#[test]
fn bits_are_set_in_a_mask() {
    let mut bits = vec![0u8; 3];
    set_bit(&mut bits, 0);
    set_bit(&mut bits, 9);
    set_bit(&mut bits, 9);
    set_bit(&mut bits, 23);
    set_bit(&mut bits, 24);
    assert_eq!(bits, vec![0x01, 0x02, 0x80]);
}

#[test]
fn supervisor_answers() {
    assert_eq!(
        SeccompNotifResp::new_success(7),
        SeccompNotifResp { id: 0, val: 7, error: 0, flags: 0 }
    );
    assert_eq!(
        SeccompNotifResp::new_error(2),
        SeccompNotifResp { id: 0, val: -1, error: -2, flags: 0 }
    );
    assert_eq!(
        SeccompNotifResp::new_error(-2),
        SeccompNotifResp { id: 0, val: -1, error: -2, flags: 0 }
    );
    assert_eq!(
        SeccompNotifResp::new_continue(),
        SeccompNotifResp { id: 0, val: 0, error: 0, flags: 1 }
    );
    assert_eq!(handle_bind(true), SeccompNotifResp::new_success(0));
    assert_eq!(handle_bind(false), SeccompNotifResp::new_continue());
}

#[test]
fn only_the_hotplug_socket_is_replaced() {
    assert_eq!(handle_socket(16, 3, 15), SocketDecision::ReplaceUdev { nonblocking: false });
    assert_eq!(
        handle_socket(16, 3 | 0x800 | 0x80000, 15),
        SocketDecision::ReplaceUdev { nonblocking: true }
    );
    assert_eq!(handle_socket(16, 3, 0), SocketDecision::Continue);
    assert_eq!(handle_socket(1, 1, 15), SocketDecision::Continue);
    assert_eq!(handle_socket(2, 1, 6), SocketDecision::Continue);
}

#[test]
fn the_filter_hands_the_listed_syscalls_over() {
    let filter = build_filter(&vec![257, 16]);
    assert_eq!(
        filter,
        vec![
            SockFilter { code: 0x20, jt: 0, jf: 0, k: 0 },
            SockFilter { code: 0x15, jt: 0, jf: 1, k: 257 },
            SockFilter { code: 0x06, jt: 0, jf: 0, k: 0x7fc0_0000 },
            SockFilter { code: 0x15, jt: 0, jf: 1, k: 16 },
            SockFilter { code: 0x06, jt: 0, jf: 0, k: 0x7fc0_0000 },
            SockFilter { code: 0x06, jt: 0, jf: 0, k: 0x7fff_0000 },
        ]
    );
    assert_eq!(
        build_filter(&vec![]),
        vec![
            SockFilter { code: 0x20, jt: 0, jf: 0, k: 0 },
            SockFilter { code: 0x06, jt: 0, jf: 0, k: 0x7fff_0000 },
        ]
    );
}

// Runs a filter on a syscall number as the kernel would.
fn run(filter: &[SockFilter], nr: u32) -> Option<u32> {
    let mut pc = 0usize;
    let mut acc = 0u32;
    while pc < filter.len() {
        let i = filter[pc];
        match i.code {
            0x20 if i.k == 0 => {
                acc = nr;
                pc += 1;
            }
            0x15 => pc += 1 + if acc == i.k { i.jt as usize } else { i.jf as usize },
            0x06 => return Some(i.k),
            _ => return None,
        }
    }
    None
}

#[test]
fn the_filter_selects_the_supervised_syscalls_and_no_other() {
    assert_eq!(supervised_syscalls(), vec![257, 16, 262, 41, 49]);
    let filter = build_input_device_filter();
    assert_eq!(filter, build_filter(&supervised_syscalls()));
    assert_eq!(filter.len(), 12);
    for nr in 0..600u32 {
        let expected = if [257, 16, 262, 41, 49].contains(&nr) { 0x7fc0_0000 } else { 0x7fff_0000 };
        assert_eq!(run(&filter, nr), Some(expected), "syscall {}", nr);
    }
    assert_eq!(run(&filter, u32::MAX), Some(0x7fff_0000));
}

fn notification(nr: i32, args: [u64; 6]) -> SeccompData {
    SeccompData { nr, arch: 0xc000_003e, instruction_pointer: 0, args }
}

#[test]
fn a_notification_is_read_as_its_syscall() {
    assert_eq!(
        handle_syscall(&notification(257, [0xffff_ffff_ffff_ff9c, 0x7000, 0x8_0002, 0o644, 9, 9])),
        Syscall::OpenAt { dirfd: -100, path_ptr: 0x7000, flags: 0x8_0002, mode: 0o644 }
    );
    assert_eq!(
        handle_syscall(&notification(16, [5, 0x1_8004_4501, 0x7fff_0000_1234, 0, 0, 0])),
        Syscall::Ioctl { fd: 5, cmd: 0x8004_4501, arg: 0x7fff_0000_1234 }
    );
    assert_eq!(
        handle_syscall(&notification(262, [3, 0x10, 0x20, 0x100, 0, 0])),
        Syscall::NewFstatAt { dirfd: 3, path_ptr: 0x10, statbuf_ptr: 0x20, flags: 0x100 }
    );
    assert_eq!(
        handle_syscall(&notification(41, [16, 0x80003, 15, 0, 0, 0])),
        Syscall::Socket { domain: 16, sock_type: 0x80003, protocol: 15 }
    );
    assert_eq!(
        handle_syscall(&notification(49, [0xffff_ffff, 1, 2, 3, 4, 5])),
        Syscall::Bind { fd: -1 }
    );
    for nr in [0, 1, 3, 5, 7, 42, 56, 271, 435, -1, i32::MAX] {
        assert_eq!(handle_syscall(&notification(nr, [1, 2, 3, 4, 5, 6])), Syscall::Other);
    }
}

#[test]
fn syscalls_have_names() {
    let names = [
        (257, "openat"),
        (262, "newfstatat"),
        (0, "read"),
        (1, "write"),
        (16, "ioctl"),
        (3, "close"),
        (5, "fstat"),
        (7, "poll"),
        (271, "ppoll"),
        (41, "socket"),
        (42, "connect"),
        (56, "clone"),
        (435, "clone3"),
        (49, "unknown"),
        (-1, "unknown"),
    ];
    for (nr, name) in names {
        assert_eq!(syscall_name(nr), name);
    }
}

#[test]
fn an_open_is_answered_by_how_far_it_got() {
    let answer = |outcome| match complete_open(outcome) {
        SyscallResult::Response(r) => r,
        SyscallResult::AlreadyHandled => panic!("no answer"),
    };
    assert_eq!(answer(OpenOutcome::Opened { target_fd: 7 }), SeccompNotifResp::new_success(7));
    assert_eq!(answer(OpenOutcome::BadPath), SeccompNotifResp::new_error(22));
    assert_eq!(
        answer(OpenOutcome::ConnectFailed { errno: Some(111) }),
        SeccompNotifResp::new_error(111)
    );
    assert_eq!(answer(OpenOutcome::ConnectFailed { errno: None }), SeccompNotifResp::new_error(2));
    assert_eq!(
        answer(OpenOutcome::ConnectFailed { errno: Some(i32::MIN) }),
        SeccompNotifResp::new_error(2)
    );
    assert_eq!(answer(OpenOutcome::OpenFailed { errno: Some(13) }), SeccompNotifResp::new_error(13));
    assert_eq!(answer(OpenOutcome::OpenFailed { errno: None }), SeccompNotifResp::new_error(5));
    for outcome in
        [OpenOutcome::HandshakeFailed, OpenOutcome::DuplicateFailed, OpenOutcome::InjectFailed]
    {
        let r = answer(outcome);
        assert_eq!((r.val, r.error, r.flags), (-1, -5, 0));
    }
}

#[test]
fn a_stat_of_a_device_node_looks_where_the_node_is_redirected_to() {
    let r = PathRedirector::new();
    assert_eq!(
        handle_newfstatat(&r, "/dev/input/event3", 7),
        StatDecision::Stat { path: "/tmp/vimputti/devices/event3".to_string(), dirfd: -100 }
    );
    assert_eq!(
        handle_newfstatat(&r, "/dev/input/js0", 7),
        StatDecision::Stat { path: "/tmp/vimputti/devices/js0".to_string(), dirfd: -100 }
    );
    let relative = PathRedirector::with_base("run".to_string());
    assert_eq!(
        handle_newfstatat(&relative, "/dev/uinput", 7),
        StatDecision::Stat { path: "run/uinput".to_string(), dirfd: 7 }
    );
    for path in ["/dev/input", "/sys/class/input/event0", "/etc/passwd", "dev/input/event0", ""] {
        assert_eq!(handle_newfstatat(&r, path, 7), StatDecision::Continue, "{}", path);
    }
    assert_eq!(dirfd_for("/a", 4), -100);
    assert_eq!(dirfd_for("a/b", 4), 4);
    assert_eq!(dirfd_for("", 4), 4);
}

#[test]
fn a_stat_is_answered_by_how_far_it_got() {
    let ok = SyscallResult::Response;
    assert_eq!(complete_stat(StatOutcome::Written), ok(SeccompNotifResp::new_success(0)));
    assert_eq!(complete_stat(StatOutcome::WriteFailed), ok(SeccompNotifResp::new_error(14)));
    assert_eq!(complete_stat(StatOutcome::BadPath), ok(SeccompNotifResp::new_continue()));
    assert_eq!(
        complete_stat(StatOutcome::StatFailed { errno: Some(2) }),
        ok(SeccompNotifResp::new_error(2))
    );
    assert_eq!(
        complete_stat(StatOutcome::StatFailed { errno: None }),
        ok(SeccompNotifResp::new_error(5))
    );
}

#[test]
fn a_socket_and_an_ioctl_are_answered_by_how_far_they_got() {
    let ok = SyscallResult::Response;
    assert_eq!(
        complete_socket(SocketOutcome::Replaced { target_fd: 9 }),
        ok(SeccompNotifResp::new_success(9))
    );
    assert_eq!(complete_socket(SocketOutcome::PairFailed), ok(SeccompNotifResp::new_continue()));
    assert_eq!(complete_socket(SocketOutcome::InjectFailed), ok(SeccompNotifResp::new_continue()));
    assert_eq!(
        handle_ioctl_syscall(&IoctlResult::NotVirtualFd, true),
        ok(SeccompNotifResp::new_continue())
    );
    let write = IoctlResult::Handled(IoctlReply::Write { data: vec![1], ret: 3, required: true });
    assert_eq!(handle_ioctl_syscall(&write, true), ok(SeccompNotifResp::new_success(3)));
    assert_eq!(handle_ioctl_syscall(&write, false), ok(SeccompNotifResp::new_error(14)));
    let fail = IoctlResult::Handled(IoctlReply::Fail { errno: 25 });
    assert_eq!(handle_ioctl_syscall(&fail, true), ok(SeccompNotifResp::new_error(25)));
}

#[test]
fn a_failed_receive_is_read_by_its_text() {
    let cases = [
        ("Resource temporarily unavailable (os error 11)", ReceiveFailure::Retry),
        ("ioctl failed: EAGAIN", ReceiveFailure::Retry),
        ("EWOULDBLOCK", ReceiveFailure::Retry),
        ("EAGAIN: No such process", ReceiveFailure::Retry),
        ("No such file or directory (os error 2)", ReceiveFailure::Ended),
        ("receive: ENOENT", ReceiveFailure::Ended),
        ("Bad file descriptor (os error 9)", ReceiveFailure::Ended),
        ("Invalid argument", ReceiveFailure::Report),
        ("no such", ReceiveFailure::Report),
        ("", ReceiveFailure::Report),
    ];
    for (text, expected) in cases {
        assert_eq!(receive_failure(text), expected, "{:?}", text);
    }
}

#[test]
fn paths_are_redirected() {
    let r = PathRedirector::new();
    assert_eq!(r.base_path, "/tmp/vimputti");
    let cases = [
        ("/dev/uinput", Some("/tmp/vimputti/uinput")),
        ("/dev/input", Some("/tmp/vimputti/devices")),
        ("/sys/class/input", Some("/tmp/vimputti/sysfs/class/input")),
        ("/sys/devices/virtual/input", Some("/tmp/vimputti/sysfs/devices/virtual/input")),
        ("/run/udev/control", Some("/tmp/vimputti/udev")),
        ("/run/udev/data", Some("/tmp/vimputti/udev_data")),
        ("/dev/input/event0", Some("/tmp/vimputti/devices/event0")),
        ("/dev/input/js3", Some("/tmp/vimputti/devices/js3")),
        ("/dev/input/event0.feedback", Some("/tmp/vimputti/devices/event0.feedback")),
        ("/dev/input/", Some("/tmp/vimputti/devices/")),
        ("/sys/class/input/event0/device/name", Some("/tmp/vimputti/sysfs/class/input/event0/device/name")),
        ("/sys/devices/virtual/input/input0/id/vendor", Some("/tmp/vimputti/sysfs/devices/virtual/input/input0/id/vendor")),
        ("/run/udev/data/c13:64", Some("/tmp/vimputti/udev_data/c13:64")),
        ("/dev/inputs", None),
        ("/dev/uinput/", None),
        ("/etc/passwd", None),
        ("", None),
        ("dev/input/event0", None),
    ];
    for (path, expected) in cases {
        assert_eq!(r.redirect(path), expected.map(|s| s.to_string()), "{}", path);
    }
    assert_eq!(r.redirect_prefix("/dev/input"), None);
    assert_eq!(r.redirect_prefix("/dev/input/x"), Some("/tmp/vimputti/devices/x".to_string()));
    let other = PathRedirector::with_base("/run/user/1000/vimputti".to_string());
    assert_eq!(other.redirect("/dev/uinput"), Some("/run/user/1000/vimputti/uinput".to_string()));
}

#[test]
fn device_nodes_are_told_apart() {
    for (path, event, js, input) in [
        ("/dev/input/event0", true, false, true),
        ("/dev/input/event127", true, false, true),
        ("/dev/input/js0", false, true, true),
        ("/dev/uinput", false, false, true),
        ("/dev/input/event", false, false, false),
        ("/dev/input/event0.feedback", false, false, false),
        ("/dev/input/event1a", false, false, false),
        ("/dev/input/js", false, false, false),
        ("/dev/input/jsx", false, false, false),
        ("/dev/input/mouse0", false, false, false),
        ("/dev/input", false, false, false),
    ] {
        assert_eq!(PathRedirector::is_event_device(path), event, "{}", path);
        assert_eq!(PathRedirector::is_joystick_device(path), js, "{}", path);
        assert_eq!(PathRedirector::is_input_device(path), input, "{}", path);
        assert_eq!(should_fake_stat(path), input, "{}", path);
    }
    assert_eq!(PathRedirector::device_type("/dev/uinput"), Some(DeviceType::Uinput));
    assert_eq!(PathRedirector::device_type("/dev/input/js1"), Some(DeviceType::Joystick));
    assert_eq!(PathRedirector::device_type("/dev/input/event1"), Some(DeviceType::Event));
    assert_eq!(PathRedirector::device_type("/dev/input/by-id"), None);
}

#[test]
fn opens_are_decided() {
    let r = PathRedirector::new();
    assert_eq!(
        handle_openat(&r, "/dev/input/event4"),
        OpenDecision::Device {
            socket_path: "/tmp/vimputti/devices/event4".to_string(),
            device_type: DeviceType::Event
        }
    );
    assert_eq!(
        handle_openat(&r, "/dev/input/js4"),
        OpenDecision::Device {
            socket_path: "/tmp/vimputti/devices/js4".to_string(),
            device_type: DeviceType::Joystick
        }
    );
    assert_eq!(
        handle_openat(&r, "/dev/uinput"),
        OpenDecision::Device {
            socket_path: "/tmp/vimputti/uinput".to_string(),
            device_type: DeviceType::Uinput
        }
    );
    assert_eq!(
        handle_openat(&r, "/sys/class/input/event4/dev"),
        OpenDecision::File { path: "/tmp/vimputti/sysfs/class/input/event4/dev".to_string() }
    );
    assert_eq!(
        handle_openat(&r, "/dev/input/event4.feedback"),
        OpenDecision::File { path: "/tmp/vimputti/devices/event4.feedback".to_string() }
    );
    assert_eq!(handle_openat(&r, "/usr/lib/libc.so"), OpenDecision::Continue);
}

fn reference_makedev(major: u64, minor: u64) -> u64 {
    ((major & 0xfffff000) << 32)
        | ((major & 0x00000fff) << 8)
        | ((minor & 0xffffff00) << 12)
        | (minor & 0x000000ff)
}

#[test]
fn device_numbers() {
    assert_eq!(makedev(13, 64), 0x0d40);
    assert_eq!(makedev(0, 5), 5);
    assert_eq!(makedev(10, 223), 0x0adf);
    for (major, minor) in [
        (13u64, 64u64),
        (81, 0),
        (81, 300),
        (0xfffff, 0xfffff),
        (0x1234_5678, 0x9abc_def0),
        (u64::MAX, u64::MAX),
        (0x1_0000_0000, 0x1_0000_0000),
    ] {
        assert_eq!(makedev(major, minor), reference_makedev(major, minor));
    }
}

fn socket_stat() -> Stat64 {
    Stat64 {
        st_dev: 40,
        st_ino: 1234,
        st_nlink: 1,
        st_mode: 0o140755,
        st_uid: 1000,
        st_gid: 100,
        __pad0: 77,
        st_rdev: 0,
        st_size: 0,
        st_blksize: 4096,
        st_blocks: 8,
        st_atime: 1,
        st_atime_nsec: 2,
        st_mtime: 3,
        st_mtime_nsec: 4,
        st_ctime: 5,
        st_ctime_nsec: 6,
        __unused: [0; 3],
    }
}

#[test]
fn stat_shows_a_character_device() {
    let found = socket_stat();
    let fake = fake_device_stat("/dev/input/event3", &found);
    assert_eq!(fake.st_mode, 0o020755);
    assert_eq!(fake.st_rdev, makedev(13, 67));
    assert_eq!(
        Stat64 { st_mode: found.st_mode, st_rdev: 0, __pad0: 77, ..fake },
        found
    );
    assert_eq!(fake_device_stat("/dev/input/js2", &found).st_rdev, makedev(81, 2));
    assert_eq!(fake_device_stat("/dev/uinput", &found).st_rdev, makedev(10, 223));
    assert_eq!(fake_device_stat("/dev/input/eventx", &found).st_rdev, makedev(13, 64));
    assert_eq!(fake_device_stat("/dev/null", &found).st_rdev, makedev(13, 64));
    assert_eq!(
        fake_device_stat("/dev/input/event18446744073709551615", &found).st_rdev,
        makedev(13, 64)
    );
    assert_eq!(
        fake_device_stat("/dev/input/event99999999999999999999", &found).st_rdev,
        makedev(13, 64)
    );
}

#[test]
fn fstat_shows_a_character_device() {
    let s = handle_fstat("event2", 1000, 100, 1_700_000_000);
    assert_eq!(
        s,
        Stat64 {
            st_dev: 5,
            st_ino: 1066,
            st_nlink: 1,
            st_mode: 0o020660,
            st_uid: 1000,
            st_gid: 100,
            __pad0: 0,
            st_rdev: makedev(13, 66),
            st_size: 0,
            st_blksize: 4096,
            st_blocks: 0,
            st_atime: 1_700_000_000,
            st_atime_nsec: 0,
            st_mtime: 1_700_000_000,
            st_mtime_nsec: 0,
            st_ctime: 1_700_000_000,
            st_ctime_nsec: 0,
            __unused: [0; 3],
        }
    );
    let s = handle_fstat("js5", 0, 0, 0);
    assert_eq!((s.st_rdev, s.st_ino), (makedev(81, 5), 1005));
    let s = handle_fstat("uinput", 0, 0, 0);
    assert_eq!((s.st_rdev, s.st_ino), (makedev(10, 223), 1223));
    let s = handle_fstat("unknown", 0, 0, 0);
    assert_eq!((s.st_rdev, s.st_ino), (makedev(13, 64), 1064));
    let s = handle_fstat("js18446744073709551615", 0, 0, 0);
    assert_eq!((s.st_rdev, s.st_ino), (makedev(81, u64::MAX), 999));
}
