//! The supervisor's side of one intercepted syscall: which call it is and
//! with what arguments, and what the caller is told once the work outside
//! is done.

use vstd::prelude::*;
use crate::ioctl::{complete_ioctl, kernel_answer, IoctlResult};
use crate::path_redirect::{
    lemma_device_nodes_are_redirected, names_input_device, redirected, PathRedirector,
};
use crate::seccomp::{
    continue_response, error_response, success_response, SeccompData, SeccompNotifResp, EFAULT,
    EINVAL, EIO, ENOENT, SYS_BIND, SYS_CLONE, SYS_CLONE3, SYS_CLOSE, SYS_CONNECT, SYS_FSTAT,
    SYS_IOCTL, SYS_NEWFSTATAT, SYS_OPENAT, SYS_POLL, SYS_PPOLL, SYS_READ, SYS_SOCKET, SYS_WRITE,
};
use crate::stat::should_fake_stat;
use crate::text::{contains_text, has_infix, has_prefix, starts_with};
use crate::wire::{i32_from_bits, i32_of_bits};

verus! {

/// The directory descriptor that stands for the working directory.
pub const AT_FDCWD: i32 = -100;

/// What has become of a syscall that the supervisor was asked about.
#[derive(Debug, Clone, Copy, PartialEq, Eq, Structural)]
pub enum SyscallResult {
    /// This answer goes to the kernel.
    Response(SeccompNotifResp),
    /// The kernel has its answer already.
    AlreadyHandled,
}

/// A syscall that the supervisor is asked about, with its arguments.
#[derive(Debug, Clone, Copy, PartialEq, Eq, Structural)]
pub enum Syscall {
    OpenAt { dirfd: i32, path_ptr: u64, flags: i32, mode: u32 },
    Ioctl { fd: i32, cmd: u32, arg: u64 },
    NewFstatAt { dirfd: i32, path_ptr: u64, statbuf_ptr: u64, flags: i32 },
    Socket { domain: i32, sock_type: i32, protocol: i32 },
    Bind { fd: i32 },
    /// A call that the supervisor has no part in.
    Other,
}

/// The low 32 bits of a register.
pub open spec fn low_u32(x: u64) -> u32 {
    (x % 0x1_0000_0000) as u32
}

/// The low 32 bits of a register, read as a signed number.
pub open spec fn low_i32(x: u64) -> i32 {
    i32_of_bits(low_u32(x))
}

/// The syscall that a notification tells of: its number says which call
/// it is, and the registers hold its arguments in order.
pub open spec fn syscall_of(data: SeccompData) -> Syscall {
    let a = data.args@;
    if data.nr == SYS_OPENAT {
        Syscall::OpenAt {
            dirfd: low_i32(a[0]),
            path_ptr: a[1],
            flags: low_i32(a[2]),
            mode: low_u32(a[3]),
        }
    } else if data.nr == SYS_IOCTL {
        Syscall::Ioctl { fd: low_i32(a[0]), cmd: low_u32(a[1]), arg: a[2] }
    } else if data.nr == SYS_NEWFSTATAT {
        Syscall::NewFstatAt {
            dirfd: low_i32(a[0]),
            path_ptr: a[1],
            statbuf_ptr: a[2],
            flags: low_i32(a[3]),
        }
    } else if data.nr == SYS_SOCKET {
        Syscall::Socket {
            domain: low_i32(a[0]),
            sock_type: low_i32(a[1]),
            protocol: low_i32(a[2]),
        }
    } else if data.nr == SYS_BIND {
        Syscall::Bind { fd: low_i32(a[0]) }
    } else {
        Syscall::Other
    }
}

fn unsigned_arg(x: u64) -> (r: u32)
    ensures
        r == low_u32(x),
{
    (x % 0x1_0000_0000) as u32
}

fn signed_arg(x: u64) -> (r: i32)
    ensures
        r == low_i32(x),
{
    i32_from_bits(unsigned_arg(x))
}

/// Tells which syscall a notification is about.
pub fn handle_syscall(data: &SeccompData) -> (r: Syscall)
    ensures
        r == syscall_of(*data),
{
    let nr: i64 = data.nr as i64;
    if nr == SYS_OPENAT {
        Syscall::OpenAt {
            dirfd: signed_arg(data.args[0]),
            path_ptr: data.args[1],
            flags: signed_arg(data.args[2]),
            mode: unsigned_arg(data.args[3]),
        }
    } else if nr == SYS_IOCTL {
        Syscall::Ioctl {
            fd: signed_arg(data.args[0]),
            cmd: unsigned_arg(data.args[1]),
            arg: data.args[2],
        }
    } else if nr == SYS_NEWFSTATAT {
        Syscall::NewFstatAt {
            dirfd: signed_arg(data.args[0]),
            path_ptr: data.args[1],
            statbuf_ptr: data.args[2],
            flags: signed_arg(data.args[3]),
        }
    } else if nr == SYS_SOCKET {
        Syscall::Socket {
            domain: signed_arg(data.args[0]),
            sock_type: signed_arg(data.args[1]),
            protocol: signed_arg(data.args[2]),
        }
    } else if nr == SYS_BIND {
        Syscall::Bind { fd: signed_arg(data.args[0]) }
    } else {
        Syscall::Other
    }
}

/// The name of a syscall, for the ones that matter to the supervisor.
pub open spec fn name_of_syscall(nr: i32) -> Seq<char> {
    if nr == SYS_OPENAT {
        "openat"@
    } else if nr == SYS_NEWFSTATAT {
        "newfstatat"@
    } else if nr == SYS_READ {
        "read"@
    } else if nr == SYS_WRITE {
        "write"@
    } else if nr == SYS_IOCTL {
        "ioctl"@
    } else if nr == SYS_CLOSE {
        "close"@
    } else if nr == SYS_FSTAT {
        "fstat"@
    } else if nr == SYS_POLL {
        "poll"@
    } else if nr == SYS_PPOLL {
        "ppoll"@
    } else if nr == SYS_SOCKET {
        "socket"@
    } else if nr == SYS_CONNECT {
        "connect"@
    } else if nr == SYS_CLONE {
        "clone"@
    } else if nr == SYS_CLONE3 {
        "clone3"@
    } else {
        "unknown"@
    }
}

/// The name of a syscall.
pub fn syscall_name(nr: i32) -> (name: &'static str)
    ensures
        name@ == name_of_syscall(nr),
{
    let number: i64 = nr as i64;
    if number == SYS_OPENAT {
        "openat"
    } else if number == SYS_NEWFSTATAT {
        "newfstatat"
    } else if number == SYS_READ {
        "read"
    } else if number == SYS_WRITE {
        "write"
    } else if number == SYS_IOCTL {
        "ioctl"
    } else if number == SYS_CLOSE {
        "close"
    } else if number == SYS_FSTAT {
        "fstat"
    } else if number == SYS_POLL {
        "poll"
    } else if number == SYS_PPOLL {
        "ppoll"
    } else if number == SYS_SOCKET {
        "socket"
    } else if number == SYS_CONNECT {
        "connect"
    } else if number == SYS_CLONE {
        "clone"
    } else if number == SYS_CLONE3 {
        "clone3"
    } else {
        "unknown"
    }
}

/// The directory that a path is looked up from: the working directory for
/// an absolute path, the caller's directory for any other.
pub open spec fn lookup_dirfd(path: Seq<char>, dirfd: i32) -> i32 {
    if has_prefix(path, "/"@) {
        AT_FDCWD
    } else {
        dirfd
    }
}

/// The directory that a path is looked up from.
pub fn dirfd_for(path: &str, dirfd: i32) -> (r: i32)
    ensures
        r == lookup_dirfd(path@, dirfd),
{
    if starts_with(path, "/") {
        AT_FDCWD
    } else {
        dirfd
    }
}

/// The error number of a failed call: the one the system gave, where it
/// gave one that can be negated, else `fallback`.
pub open spec fn errno_or(errno: Option<i32>, fallback: i32) -> i32 {
    match errno {
        Some(e) => if e == i32::MIN {
            fallback
        } else {
            e
        },
        None => fallback,
    }
}

fn failed(errno: Option<i32>, fallback: i32) -> (r: SyscallResult)
    requires
        fallback != i32::MIN,
    ensures
        r == SyscallResult::Response(error_response(errno_or(errno, fallback))),
{
    match errno {
        Some(e) => if e == i32::MIN {
            SyscallResult::Response(SeccompNotifResp::new_error(fallback))
        } else {
            SyscallResult::Response(SeccompNotifResp::new_error(e))
        },
        None => SyscallResult::Response(SeccompNotifResp::new_error(fallback)),
    }
}

/// How far the opening of a device node or a redirected file got.
#[derive(Debug, Clone, Copy, PartialEq, Eq, Structural)]
pub enum OpenOutcome {
    /// The path of the file holds a NUL.
    BadPath,
    /// No connection to the device's socket came about.
    ConnectFailed { errno: Option<i32> },
    /// The file could not be opened.
    OpenFailed { errno: Option<i32> },
    /// The socket gave no handshake that can be read.
    HandshakeFailed,
    /// The supervisor could not keep a descriptor of its own.
    DuplicateFailed,
    /// The descriptor could not be handed to the caller.
    InjectFailed,
    /// The caller has the descriptor `target_fd`.
    Opened { target_fd: i32 },
}

/// What the caller of `open` is told: its descriptor where it got one; the
/// system's error number where the connection or the file failed, `ENOENT`
/// for a socket and `EIO` for a file where the system gave none; `EINVAL`
/// for a path that cannot be passed on; `EIO` for everything else.
pub open spec fn open_answer(outcome: OpenOutcome) -> SeccompNotifResp {
    match outcome {
        OpenOutcome::BadPath => error_response(EINVAL),
        OpenOutcome::ConnectFailed { errno } => error_response(errno_or(errno, ENOENT)),
        OpenOutcome::OpenFailed { errno } => error_response(errno_or(errno, EIO)),
        OpenOutcome::HandshakeFailed => error_response(EIO),
        OpenOutcome::DuplicateFailed => error_response(EIO),
        OpenOutcome::InjectFailed => error_response(EIO),
        OpenOutcome::Opened { target_fd } => success_response(target_fd as i64),
    }
}

/// Answers an `open` once it has been carried out.
pub fn complete_open(outcome: OpenOutcome) -> (r: SyscallResult)
    ensures
        r == SyscallResult::Response(open_answer(outcome)),
{
    match outcome {
        OpenOutcome::BadPath => failed(None, EINVAL),
        OpenOutcome::ConnectFailed { errno } => failed(errno, ENOENT),
        OpenOutcome::OpenFailed { errno } => failed(errno, EIO),
        OpenOutcome::HandshakeFailed => failed(None, EIO),
        OpenOutcome::DuplicateFailed => failed(None, EIO),
        OpenOutcome::InjectFailed => failed(None, EIO),
        OpenOutcome::Opened { target_fd } => SyscallResult::Response(
            SeccompNotifResp::new_success(target_fd as i64),
        ),
    }
}

/// What the supervisor does with a `stat` of a path.
#[derive(Debug, PartialEq, Eq)]
pub enum StatDecision {
    /// The kernel carries the call out.
    Continue,
    /// Look at the file at `path`, from the directory `dirfd`, and dress
    /// what is found as a device node.
    Stat { path: String, dirfd: i32 },
}

/// Decides a `stat` of `path`: a device node is looked up where it is
/// redirected to, every other path is left to the kernel.
pub fn handle_newfstatat(redirector: &PathRedirector, path: &str, dirfd: i32) -> (r: StatDecision)
    ensures
        match r {
            StatDecision::Stat { path: target, dirfd: from } => {
                &&& names_input_device(path@)
                &&& redirected(path@, redirector.base_path@) == Some(target@)
                &&& from == lookup_dirfd(target@, dirfd)
            },
            StatDecision::Continue => !names_input_device(path@),
        },
{
    if !should_fake_stat(path) {
        return StatDecision::Continue;
    }
    proof {
        lemma_device_nodes_are_redirected(path@, redirector.base_path@);
    }
    match redirector.redirect(path) {
        Some(target) => {
            let from = dirfd_for(target.as_str(), dirfd);
            StatDecision::Stat { path: target, dirfd: from }
        },
        None => StatDecision::Continue,
    }
}

/// How far a `stat` of a device node got.
#[derive(Debug, Clone, Copy, PartialEq, Eq, Structural)]
pub enum StatOutcome {
    /// The path holds a NUL.
    BadPath,
    /// Nothing was found where the node is redirected to.
    StatFailed { errno: Option<i32> },
    /// The result could not be written to the caller.
    WriteFailed,
    /// The caller has the result.
    Written,
}

/// What the caller of `stat` is told: success where it has the result, the
/// system's error number (`EIO` where it gave none) where nothing was
/// found, `EFAULT` where the result could not be written; a path that
/// cannot be passed on is left to the kernel.
pub open spec fn stat_answer(outcome: StatOutcome) -> SeccompNotifResp {
    match outcome {
        StatOutcome::BadPath => continue_response(),
        StatOutcome::StatFailed { errno } => error_response(errno_or(errno, EIO)),
        StatOutcome::WriteFailed => error_response(EFAULT),
        StatOutcome::Written => success_response(0),
    }
}

/// Answers a `stat` once it has been carried out.
pub fn complete_stat(outcome: StatOutcome) -> (r: SyscallResult)
    ensures
        r == SyscallResult::Response(stat_answer(outcome)),
{
    match outcome {
        StatOutcome::BadPath => SyscallResult::Response(SeccompNotifResp::new_continue()),
        StatOutcome::StatFailed { errno } => failed(errno, EIO),
        StatOutcome::WriteFailed => failed(None, EFAULT),
        StatOutcome::Written => SyscallResult::Response(SeccompNotifResp::new_success(0)),
    }
}

/// How far the replacing of a hotplug socket got.
#[derive(Debug, Clone, Copy, PartialEq, Eq, Structural)]
pub enum SocketOutcome {
    /// No pair of sockets could be made.
    PairFailed,
    /// The caller's end could not be handed over.
    InjectFailed,
    /// The caller has its end as the descriptor `target_fd`.
    Replaced { target_fd: i32 },
}

/// What the caller of `socket` is told: its descriptor where the socket
/// was replaced; where it was not, the kernel carries the call out.
pub open spec fn socket_answer(outcome: SocketOutcome) -> SeccompNotifResp {
    match outcome {
        SocketOutcome::Replaced { target_fd } => success_response(target_fd as i64),
        _ => continue_response(),
    }
}

/// Answers a `socket` once it has been carried out.
pub fn complete_socket(outcome: SocketOutcome) -> (r: SyscallResult)
    ensures
        r == SyscallResult::Response(socket_answer(outcome)),
{
    match outcome {
        SocketOutcome::Replaced { target_fd } => SyscallResult::Response(
            SeccompNotifResp::new_success(target_fd as i64),
        ),
        _ => SyscallResult::Response(SeccompNotifResp::new_continue()),
    }
}

/// Answers an `ioctl`: one on a descriptor that is none of ours is left
/// to the kernel, any other gets what came of its answer.
pub fn handle_ioctl_syscall(result: &IoctlResult, wrote: bool) -> (r: SyscallResult)
    ensures
        r == SyscallResult::Response(
            match *result {
                IoctlResult::Handled(reply) => kernel_answer(reply@, wrote),
                IoctlResult::NotVirtualFd => continue_response(),
            },
        ),
{
    match result {
        IoctlResult::Handled(reply) => SyscallResult::Response(complete_ioctl(reply, wrote)),
        IoctlResult::NotVirtualFd => SyscallResult::Response(SeccompNotifResp::new_continue()),
    }
}

/// What the supervisor does when no notification could be received.
#[derive(Debug, Clone, Copy, PartialEq, Eq, Structural)]
pub enum ReceiveFailure {
    /// Nothing was there: wait for the next.
    Retry,
    /// The supervised process is gone: stop.
    Ended,
    /// Something else went wrong: report it and go on.
    Report,
}

/// Whether an error text says that nothing was there to be received.
pub open spec fn says_nothing_there(text: Seq<char>) -> bool {
    has_infix(text, "Resource temporarily unavailable"@) || has_infix(text, "EAGAIN"@)
        || has_infix(text, "EWOULDBLOCK"@)
}

/// Whether an error text says that the notification descriptor is gone.
pub open spec fn says_gone(text: Seq<char>) -> bool {
    has_infix(text, "No such"@) || has_infix(text, "ENOENT"@) || has_infix(text, "Bad file"@)
}

/// Reads the text of a failed receive.
pub fn receive_failure(text: &str) -> (r: ReceiveFailure)
    ensures
        r == if says_nothing_there(text@) {
            ReceiveFailure::Retry
        } else if says_gone(text@) {
            ReceiveFailure::Ended
        } else {
            ReceiveFailure::Report
        },
{
    if contains_text(text, "Resource temporarily unavailable") || contains_text(text, "EAGAIN")
        || contains_text(text, "EWOULDBLOCK") {
        ReceiveFailure::Retry
    } else if contains_text(text, "No such") || contains_text(text, "ENOENT") || contains_text(
        text,
        "Bad file",
    ) {
        ReceiveFailure::Ended
    } else {
        ReceiveFailure::Report
    }
}

} // verus!
