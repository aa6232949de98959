//! The answers a syscall supervisor gives to the kernel, the filter that
//! selects the syscalls to supervise, and which of them concern the façade.

use vstd::prelude::*;

verus! {

pub const SECCOMP_USER_NOTIF_FLAG_CONTINUE: u32 = 1;

pub const SECCOMP_RET_ALLOW: u32 = 0x7fff_0000;

pub const SECCOMP_RET_USER_NOTIF: u32 = 0x7fc0_0000;

/// `BPF_LD | BPF_W | BPF_ABS`: load a word at an absolute offset.
pub const BPF_LOAD_WORD: u16 = 0x20;

/// `BPF_JMP | BPF_JEQ | BPF_K`: jump if equal to a constant.
pub const BPF_JUMP_EQUAL: u16 = 0x15;

/// `BPF_RET | BPF_K`: return a constant.
pub const BPF_RETURN: u16 = 0x06;

pub const ENOENT: i32 = 2;

pub const EIO: i32 = 5;

pub const EFAULT: i32 = 14;

pub const EINVAL: i32 = 22;

pub const ENOTTY: i32 = 25;

pub const AF_NETLINK: i32 = 16;

pub const NETLINK_KOBJECT_UEVENT: i32 = 15;

/// Numbers of syscalls on x86-64.
pub const SYS_READ: i64 = 0;

pub const SYS_WRITE: i64 = 1;

pub const SYS_CLOSE: i64 = 3;

pub const SYS_FSTAT: i64 = 5;

pub const SYS_POLL: i64 = 7;

pub const SYS_IOCTL: i64 = 16;

pub const SYS_SOCKET: i64 = 41;

pub const SYS_CONNECT: i64 = 42;

pub const SYS_BIND: i64 = 49;

pub const SYS_CLONE: i64 = 56;

pub const SYS_OPENAT: i64 = 257;

pub const SYS_NEWFSTATAT: i64 = 262;

pub const SYS_PPOLL: i64 = 271;

pub const SYS_CLONE3: i64 = 435;

/// `struct seccomp_data` of the kernel.
#[derive(Debug, Clone, Copy, PartialEq, Eq)]
pub struct SeccompData {
    pub nr: i32,
    pub arch: u32,
    pub instruction_pointer: u64,
    pub args: [u64; 6],
}

/// `struct seccomp_notif` of the kernel.
#[derive(Debug, Clone, Copy, PartialEq, Eq)]
pub struct SeccompNotif {
    pub id: u64,
    pub pid: u32,
    pub flags: u32,
    pub data: SeccompData,
}

/// What a notification tells the supervisor.
#[derive(Debug, Clone, Copy, PartialEq, Eq)]
pub struct SeccompNotifData {
    pub id: u64,
    pub pid: u32,
    pub data: SeccompData,
}

/// `struct seccomp_notif_resp` of the kernel.
#[derive(Debug, Clone, Copy, PartialEq, Eq, Structural)]
pub struct SeccompNotifResp {
    pub id: u64,
    pub val: i64,
    pub error: i32,
    pub flags: u32,
}

/// `struct seccomp_notif_addfd` of the kernel.
#[derive(Debug, Clone, Copy, PartialEq, Eq, Structural)]
pub struct SeccompNotifAddFd {
    pub id: u64,
    pub flags: u32,
    pub srcfd: u32,
    pub newfd: u32,
    pub newfd_flags: u32,
}

/// `struct sock_filter` of the kernel: one instruction of a filter.
#[derive(Debug, Clone, Copy, PartialEq, Eq, Structural)]
pub struct SockFilter {
    pub code: u16,
    pub jt: u8,
    pub jf: u8,
    pub k: u32,
}

/// The answer with which the syscall returns `val`.
pub open spec fn success_response(val: i64) -> SeccompNotifResp {
    SeccompNotifResp { id: 0, val, error: 0, flags: 0 }
}

/// The answer with which the syscall fails with the error number `errno`,
/// given with either sign.
pub open spec fn error_response(errno: i32) -> SeccompNotifResp {
    SeccompNotifResp {
        id: 0,
        val: -1i64,
        error: if errno < 0 {
            errno
        } else {
            (-errno) as i32
        },
        flags: 0,
    }
}

/// The answer that leaves the syscall to the kernel.
pub open spec fn continue_response() -> SeccompNotifResp {
    SeccompNotifResp { id: 0, val: 0, error: 0, flags: SECCOMP_USER_NOTIF_FLAG_CONTINUE }
}

impl SeccompNotifResp {
    /// The syscall returns `val`.
    pub fn new_success(val: i64) -> (r: SeccompNotifResp)
        ensures
            r == success_response(val),
    {
        SeccompNotifResp { id: 0, val, error: 0, flags: 0 }
    }

    /// The syscall fails with the error number `error`, given with either
    /// sign: the kernel is handed the negative number.
    pub fn new_error(error: i32) -> (r: SeccompNotifResp)
        requires
            error != i32::MIN,
        ensures
            r == error_response(error),
    {
        let negative: i32 = if error < 0 {
            error
        } else {
            -error
        };
        SeccompNotifResp { id: 0, val: -1, error: negative, flags: 0 }
    }

    /// The kernel carries the syscall out itself.
    pub fn new_continue() -> (r: SeccompNotifResp)
        ensures
            r == continue_response(),
    {
        SeccompNotifResp { id: 0, val: 0, error: 0, flags: SECCOMP_USER_NOTIF_FLAG_CONTINUE }
    }
}

/// The two instructions that hand one syscall to the supervisor.
pub open spec fn notify_on(nr: u32) -> Seq<SockFilter> {
    seq![
        SockFilter { code: BPF_JUMP_EQUAL, jt: 0, jf: 1, k: nr },
        SockFilter { code: BPF_RETURN, jt: 0, jf: 0, k: SECCOMP_RET_USER_NOTIF },
    ]
}

/// The instructions for a list of syscalls, in order.
pub open spec fn notify_on_all(syscalls: Seq<u32>) -> Seq<SockFilter>
    decreases syscalls.len(),
{
    if syscalls.len() == 0 {
        Seq::empty()
    } else {
        notify_on_all(syscalls.drop_last()) + notify_on(syscalls.last())
    }
}

/// The filter: load the syscall number, hand each listed syscall to the
/// supervisor, allow everything else.
pub open spec fn input_device_filter(syscalls: Seq<u32>) -> Seq<SockFilter> {
    seq![SockFilter { code: BPF_LOAD_WORD, jt: 0, jf: 0, k: 0 }] + notify_on_all(syscalls) + seq![
        SockFilter { code: BPF_RETURN, jt: 0, jf: 0, k: SECCOMP_RET_ALLOW },
    ]
}

/// The syscalls that the supervisor answers: `openat`, `ioctl`,
/// `newfstatat`, `socket` and `bind`.
pub open spec fn supervised() -> Seq<u32> {
    seq![257u32, 16u32, 262u32, 41u32, 49u32]
}

/// The syscalls that the supervisor answers.
pub fn supervised_syscalls() -> (list: Vec<u32>)
    ensures
        list@ == supervised(),
{
    let mut list: Vec<u32> = Vec::new();
    list.push(257);
    list.push(16);
    list.push(262);
    list.push(41);
    list.push(49);
    assert(list@ =~= supervised());
    list
}

/// Builds the filter that hands the supervised syscalls to the supervisor
/// and allows every other.
pub fn build_input_device_filter() -> (filter: Vec<SockFilter>)
    ensures
        filter@ == input_device_filter(supervised()),
        filter@.len() == 12,
{
    let list = supervised_syscalls();
    build_filter(&list)
}

/// Builds the filter for the given syscall numbers.
pub fn build_filter(syscalls: &Vec<u32>) -> (filter: Vec<SockFilter>)
    ensures
        filter@ == input_device_filter(syscalls@),
        filter@.len() == 2 * syscalls@.len() + 2,
{
    let mut filter: Vec<SockFilter> = Vec::new();
    filter.push(SockFilter { code: BPF_LOAD_WORD, jt: 0, jf: 0, k: 0 });
    let ghost head = filter@;
    let mut i: usize = 0;
    assert(filter@ =~= head + notify_on_all(syscalls@.subrange(0, 0)));
    while i < syscalls.len()
        invariant
            i <= syscalls.len(),
            head == seq![SockFilter { code: BPF_LOAD_WORD, jt: 0, jf: 0, k: 0 }],
            filter@ == head + notify_on_all(syscalls@.subrange(0, i as int)),
            filter@.len() == 2 * i + 1,
        decreases syscalls.len() - i,
    {
        proof {
            let next = syscalls@.subrange(0, i + 1);
            assert(next.drop_last() =~= syscalls@.subrange(0, i as int));
            assert(next.last() == syscalls@[i as int]);
        }
        filter.push(SockFilter { code: BPF_JUMP_EQUAL, jt: 0, jf: 1, k: syscalls[i] });
        filter.push(SockFilter { code: BPF_RETURN, jt: 0, jf: 0, k: SECCOMP_RET_USER_NOTIF });
        i = i + 1;
        assert(filter@ =~= head + notify_on_all(syscalls@.subrange(0, i as int)));
    }
    assert(syscalls@.subrange(0, i as int) =~= syscalls@);
    filter.push(SockFilter { code: BPF_RETURN, jt: 0, jf: 0, k: SECCOMP_RET_ALLOW });
    assert(filter@ =~= input_device_filter(syscalls@));
    filter
}

/// How many instructions stand at or behind `pc`.
pub open spec fn left_in(filter: Seq<SockFilter>, pc: int) -> nat {
    if 0 <= pc <= filter.len() {
        (filter.len() - pc) as nat
    } else {
        0
    }
}

/// What a filter decides for the syscall with the number `nr`, when run
/// from the instruction `pc` with `acc` in the accumulator: the value of
/// the return instruction it reaches. A load of the word at offset 0
/// brings the syscall number into the accumulator; a jump goes on behind
/// itself, further by `jt` where the accumulator equals its constant and
/// by `jf` where it does not. Nothing is decided where the run leaves the
/// filter or meets another instruction.
pub open spec fn run_filter(filter: Seq<SockFilter>, pc: int, acc: u32, nr: u32) -> Option<u32>
    decreases left_in(filter, pc),
{
    if pc < 0 || pc >= filter.len() {
        None
    } else if filter[pc].code == BPF_LOAD_WORD && filter[pc].k == 0 {
        run_filter(filter, pc + 1, nr, nr)
    } else if filter[pc].code == BPF_JUMP_EQUAL {
        run_filter(
            filter,
            pc + 1 + if acc == filter[pc].k {
                filter[pc].jt as int
            } else {
                filter[pc].jf as int
            },
            acc,
            nr,
        )
    } else if filter[pc].code == BPF_RETURN {
        Some(filter[pc].k)
    } else {
        None
    }
}

/// The instructions for a list of syscalls: two for each, in order.
proof fn lemma_notify_on_all(syscalls: Seq<u32>, j: int)
    requires
        0 <= j < syscalls.len(),
    ensures
        notify_on_all(syscalls).len() == 2 * syscalls.len(),
        notify_on_all(syscalls)[2 * j] == (SockFilter {
            code: BPF_JUMP_EQUAL,
            jt: 0,
            jf: 1,
            k: syscalls[j],
        }),
        notify_on_all(syscalls)[2 * j + 1] == (SockFilter {
            code: BPF_RETURN,
            jt: 0,
            jf: 0,
            k: SECCOMP_RET_USER_NOTIF,
        }),
    decreases syscalls.len(),
{
    lemma_notify_len(syscalls);
    lemma_notify_len(syscalls.drop_last());
    if j < syscalls.len() - 1 {
        lemma_notify_on_all(syscalls.drop_last(), j);
    }
}

/// Two instructions stand for each syscall.
proof fn lemma_notify_len(syscalls: Seq<u32>)
    ensures
        notify_on_all(syscalls).len() == 2 * syscalls.len(),
    decreases syscalls.len(),
{
    if syscalls.len() > 0 {
        lemma_notify_len(syscalls.drop_last());
    }
}

/// From the check of the `j`th syscall on, the filter hands the syscall
/// over where its number is among those still to be checked, and allows
/// it where it is not.
proof fn lemma_filter_from(syscalls: Seq<u32>, j: int, nr: u32)
    requires
        0 <= j <= syscalls.len(),
    ensures
        run_filter(input_device_filter(syscalls), 1 + 2 * j, nr, nr) == Some(
            if exists|i: int| j <= i < syscalls.len() && syscalls[i] == nr {
                SECCOMP_RET_USER_NOTIF
            } else {
                SECCOMP_RET_ALLOW
            },
        ),
    decreases syscalls.len() - j,
{
    let f = input_device_filter(syscalls);
    lemma_notify_len(syscalls);
    assert(f.len() == 2 * syscalls.len() + 2);
    if j == syscalls.len() {
        assert(f[1 + 2 * j] == (SockFilter {
            code: BPF_RETURN,
            jt: 0,
            jf: 0,
            k: SECCOMP_RET_ALLOW,
        }));
    } else {
        lemma_notify_on_all(syscalls, j);
        assert(f[1 + 2 * j] == notify_on_all(syscalls)[2 * j]);
        assert(f[2 + 2 * j] == notify_on_all(syscalls)[2 * j + 1]);
        if syscalls[j] == nr {
            assert(run_filter(f, 2 + 2 * j, nr, nr) == Some(SECCOMP_RET_USER_NOTIF));
        } else {
            lemma_filter_from(syscalls, j + 1, nr);
            assert(run_filter(f, 1 + 2 * j, nr, nr) == run_filter(f, 3 + 2 * j, nr, nr));
            assert((exists|i: int| j <= i < syscalls.len() && syscalls[i] == nr) == (exists|i: int|
                j + 1 <= i < syscalls.len() && syscalls[i] == nr)) by {
                if exists|i: int| j <= i < syscalls.len() && syscalls[i] == nr {
                    let i = choose|i: int| j <= i < syscalls.len() && syscalls[i] == nr;
                    assert(j + 1 <= i < syscalls.len() && syscalls[i] == nr);
                }
            }
        }
    }
}

/// The filter hands exactly the listed syscalls to the supervisor and
/// allows every other.
pub proof fn lemma_filter_decides(syscalls: Seq<u32>, nr: u32)
    ensures
        run_filter(input_device_filter(syscalls), 0, 0, nr) == Some(
            if syscalls.contains(nr) {
                SECCOMP_RET_USER_NOTIF
            } else {
                SECCOMP_RET_ALLOW
            },
        ),
{
    let f = input_device_filter(syscalls);
    lemma_notify_len(syscalls);
    assert(f[0] == (SockFilter { code: BPF_LOAD_WORD, jt: 0, jf: 0, k: 0 }));
    lemma_filter_from(syscalls, 0, nr);
    assert(run_filter(f, 0, 0, nr) == run_filter(f, 1, nr, nr));
    if syscalls.contains(nr) {
        let i = choose|i: int| 0 <= i < syscalls.len() && syscalls[i] == nr;
        assert(0 <= i < syscalls.len() && syscalls[i] == nr);
    }
}

/// What the supervisor does with a `socket` call.
#[derive(Debug, Clone, Copy, PartialEq, Eq, Structural)]
pub enum SocketDecision {
    /// The kernel carries the call out.
    Continue,
    /// The caller gets one end of a datagram pair in place of the kernel's
    /// hotplug socket.
    ReplaceUdev { nonblocking: bool },
}

/// Whether bit 11 (`SOCK_NONBLOCK`) is set in a socket type.
pub open spec fn wants_nonblocking(sock_type: i32) -> bool {
    (if sock_type < 0 {
        sock_type + 0x1_0000_0000
    } else {
        sock_type as int
    } / 0x800) % 2 == 1
}

/// Only the kernel's hotplug socket is replaced; every other socket is
/// left to the kernel.
pub fn handle_socket(domain: i32, sock_type: i32, protocol: i32) -> (r: SocketDecision)
    ensures
        r == if domain == AF_NETLINK && protocol == NETLINK_KOBJECT_UEVENT {
            SocketDecision::ReplaceUdev { nonblocking: wants_nonblocking(sock_type) }
        } else {
            SocketDecision::Continue
        },
{
    if domain == AF_NETLINK && protocol == NETLINK_KOBJECT_UEVENT {
        let bits: u32 = crate::wire::i32_to_bits(sock_type);
        SocketDecision::ReplaceUdev { nonblocking: (bits / 0x800) % 2 == 1 }
    } else {
        SocketDecision::Continue
    }
}

/// A `bind` on a replaced hotplug socket is answered with success; every
/// other `bind` is left to the kernel.
pub fn handle_bind(is_netlink_socket: bool) -> (r: SeccompNotifResp)
    ensures
        r == if is_netlink_socket {
            success_response(0)
        } else {
            continue_response()
        },
{
    if is_netlink_socket {
        SeccompNotifResp::new_success(0)
    } else {
        SeccompNotifResp::new_continue()
    }
}

} // verus!
