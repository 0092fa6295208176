//! Socket activation: taking over listening sockets a process supervisor
//! inherited to this process.
//!
//! The supervisor communicates through well-known environment variables —
//! the owning process id, the descriptor count, and optionally one name per
//! descriptor — and the inherited descriptors start at a fixed offset above
//! the three standard streams. Reading the environment and probing a
//! descriptor happen outside this crate; the protocol decisions on those
//! plain values are verified here.

use vstd::prelude::*;

use crate::config::opt_view;
use crate::text::dec_u64_ok;
use crate::text::parse_u64_decimal;
use crate::text::radix_value;

verus! {

/// The first inherited descriptor: the number right above the three
/// standard streams.
pub const LISTEN_FDS_START: i32 = 3;

/// The largest descriptor count the protocol accepts, keeping every
/// inherited descriptor number representable.
pub const MAX_LISTEN_FDS: u32 = 2147483644;

/// What kind of file an inherited descriptor turned out to be.
#[derive(Debug, Copy, Clone, Eq, PartialEq, Structural)]
pub enum SystemdSocketType {
    /// None of the recognized kinds.
    Unrecognized,
    Fifo,
    Queue,
    INet,
    Unix,
    Special,
}

impl SystemdSocketType {
    /// The human-readable name of the kind.
    pub fn name(&self) -> (r: &'static str)
        ensures
            *self == SystemdSocketType::Unrecognized ==> r@ == "Unrecognized"@,
            *self == SystemdSocketType::Fifo ==> r@ == "FIFO"@,
            *self == SystemdSocketType::Queue ==> r@ == "Message Queue"@,
            *self == SystemdSocketType::INet ==> r@ == "IP"@,
            *self == SystemdSocketType::Unix ==> r@ == "Unix"@,
            *self == SystemdSocketType::Special ==> r@ == "Special"@,
    {
        match self {
            SystemdSocketType::Unrecognized => "Unrecognized",
            SystemdSocketType::Fifo => "FIFO",
            SystemdSocketType::Queue => "Message Queue",
            SystemdSocketType::INet => "IP",
            SystemdSocketType::Unix => "Unix",
            SystemdSocketType::Special => "Special",
        }
    }
}

/// Why socket activation failed.
#[derive(Debug, Clone)]
pub enum SystemdError {
    /// The supervisor interface itself reported an error; carries its text.
    Systemd(String),
    /// An inherited descriptor is of a kind this daemon cannot serve on.
    UnsupportedSocketType(SystemdSocketType),
    /// An inherited socket is neither a datagram socket nor a stream socket.
    UnsupportedSocketFormat,
}

pub enum SystemdErrorView {
    Systemd(Seq<char>),
    UnsupportedSocketType(SystemdSocketType),
    UnsupportedSocketFormat,
}

impl View for SystemdError {
    type V = SystemdErrorView;

    open spec fn view(&self) -> SystemdErrorView {
        match self {
            SystemdError::Systemd(m) => SystemdErrorView::Systemd(m@),
            SystemdError::UnsupportedSocketType(t) => SystemdErrorView::UnsupportedSocketType(*t),
            SystemdError::UnsupportedSocketFormat => SystemdErrorView::UnsupportedSocketFormat,
        }
    }
}

/// Whether an inherited socket carries datagrams or a byte stream, and for a
/// stream whether it is already listening.
#[derive(Debug, Copy, Clone, Eq, PartialEq, Structural)]
pub enum SocketFormat {
    Datagram,
    Stream { listening: bool },
}

/// The answers of the minimal discriminating probes run against one
/// inherited descriptor, in the fixed order classification asks them.
#[derive(Debug, Copy, Clone, Eq, PartialEq, Structural)]
pub struct SocketProbes {
    /// An internet-family socket?
    pub inet: bool,
    /// A Unix-family socket?
    pub unix: bool,
    /// A FIFO?
    pub fifo: bool,
    /// A POSIX message queue?
    pub mq: bool,
    /// A special file?
    pub special: bool,
    /// A datagram socket?
    pub datagram: bool,
    /// A stream socket in listening state?
    pub stream_listening: bool,
    /// A stream socket not in listening state?
    pub stream_not_listening: bool,
}

/// The format of a socket, decided from the probe answers in fixed order,
/// first match wins: datagram, then listening stream, then non-listening
/// stream; anything else is unsupported.
pub open spec fn spec_classify_format(p: SocketProbes) -> Result<SocketFormat, SystemdErrorView> {
    if p.datagram {
        Ok(SocketFormat::Datagram)
    } else if p.stream_listening {
        Ok(SocketFormat::Stream { listening: true })
    } else if p.stream_not_listening {
        Ok(SocketFormat::Stream { listening: false })
    } else {
        Err(SystemdErrorView::UnsupportedSocketFormat)
    }
}

impl SocketFormat {
    /// Decides the format of a probed socket, as [`spec_classify_format`]
    /// describes.
    pub fn classify(probes: &SocketProbes) -> (r: Result<SocketFormat, SystemdError>)
        ensures
            r matches Ok(f) ==> spec_classify_format(*probes) == Ok::<
                SocketFormat,
                SystemdErrorView,
            >(f),
            r matches Err(e) ==> spec_classify_format(*probes) == Err::<
                SocketFormat,
                SystemdErrorView,
            >(e@),
    {
        if probes.datagram {
            Ok(SocketFormat::Datagram)
        } else if probes.stream_listening {
            Ok(SocketFormat::Stream { listening: true })
        } else if probes.stream_not_listening {
            Ok(SocketFormat::Stream { listening: false })
        } else {
            Err(SystemdError::UnsupportedSocketFormat)
        }
    }
}

/// An inherited descriptor classified and ready to be turned into a
/// listener: its number, the name the supervisor gave it, its address
/// family, and its format. Converting it into a runtime listener consumes it
/// exactly once, outside this crate.
#[derive(Debug, Clone)]
pub struct SystemdSocket {
    pub fd: i32,
    pub name: String,
    pub ty: SystemdSocketType,
    pub format: SocketFormat,
}

pub struct SystemdSocketView {
    pub fd: i32,
    pub name: Seq<char>,
    pub ty: SystemdSocketType,
    pub format: SocketFormat,
}

impl View for SystemdSocket {
    type V = SystemdSocketView;

    open spec fn view(&self) -> SystemdSocketView {
        SystemdSocketView { fd: self.fd, name: self.name@, ty: self.ty, format: self.format }
    }
}

impl DeepView for SystemdSocket {
    type V = SystemdSocketView;

    open spec fn deep_view(&self) -> SystemdSocketView {
        self.view()
    }
}

/// A probed descriptor classified by address family and format, first match
/// wins in the fixed probe order: internet socket, Unix socket, FIFO,
/// message queue, special file. FIFOs, message queues, special files and
/// unrecognized descriptors are rejected with their kind named.
pub open spec fn spec_classify_socket(fd: i32, name: Seq<char>, p: SocketProbes) -> Result<
    SystemdSocketView,
    SystemdErrorView,
> {
    if p.inet {
        match spec_classify_format(p) {
            Ok(f) => Ok(
                SystemdSocketView { fd, name, ty: SystemdSocketType::INet, format: f },
            ),
            Err(e) => Err(e),
        }
    } else if p.unix {
        match spec_classify_format(p) {
            Ok(f) => Ok(
                SystemdSocketView { fd, name, ty: SystemdSocketType::Unix, format: f },
            ),
            Err(e) => Err(e),
        }
    } else if p.fifo {
        Err(SystemdErrorView::UnsupportedSocketType(SystemdSocketType::Fifo))
    } else if p.mq {
        Err(SystemdErrorView::UnsupportedSocketType(SystemdSocketType::Queue))
    } else if p.special {
        Err(SystemdErrorView::UnsupportedSocketType(SystemdSocketType::Special))
    } else {
        Err(SystemdErrorView::UnsupportedSocketType(SystemdSocketType::Unrecognized))
    }
}

impl SystemdSocket {
    /// Classifies one probed descriptor, as [`spec_classify_socket`]
    /// describes.
    pub fn classify(fd: i32, name: String, probes: &SocketProbes) -> (r: Result<
        SystemdSocket,
        SystemdError,
    >)
        ensures
            r matches Ok(s) ==> spec_classify_socket(fd, name@, *probes) == Ok::<
                SystemdSocketView,
                SystemdErrorView,
            >(s@),
            r matches Err(e) ==> spec_classify_socket(fd, name@, *probes) == Err::<
                SystemdSocketView,
                SystemdErrorView,
            >(e@),
    {
        if probes.inet {
            match SocketFormat::classify(probes) {
                Ok(f) => Ok(
                    SystemdSocket { fd, name, ty: SystemdSocketType::INet, format: f },
                ),
                Err(e) => Err(e),
            }
        } else if probes.unix {
            match SocketFormat::classify(probes) {
                Ok(f) => Ok(
                    SystemdSocket { fd, name, ty: SystemdSocketType::Unix, format: f },
                ),
                Err(e) => Err(e),
            }
        } else if probes.fifo {
            Err(SystemdError::UnsupportedSocketType(SystemdSocketType::Fifo))
        } else if probes.mq {
            Err(SystemdError::UnsupportedSocketType(SystemdSocketType::Queue))
        } else if probes.special {
            Err(SystemdError::UnsupportedSocketType(SystemdSocketType::Special))
        } else {
            Err(SystemdError::UnsupportedSocketType(SystemdSocketType::Unrecognized))
        }
    }
}

/// The descriptor count the supervisor handed over: present exactly when the
/// owning-process variable names this very process and the count variable
/// holds a representable number.
pub open spec fn spec_activation_count(
    pid: Option<Seq<char>>,
    fds: Option<Seq<char>>,
    my_pid: u64,
) -> Option<u32> {
    match pid {
        Some(p) => if dec_u64_ok(p) && radix_value(p, 10) == my_pid {
            match fds {
                Some(f) => if dec_u64_ok(f) && radix_value(f, 10) <= MAX_LISTEN_FDS {
                    Some(radix_value(f, 10) as u32)
                } else {
                    None
                },
                None => None,
            }
        } else {
            None
        },
        None => None,
    }
}

/// Decides from the two protocol variables whether this process was handed
/// descriptors, and how many, as [`spec_activation_count`] describes.
/// `my_pid` is the current process id; a count reported for another process,
/// like a variable that holds no representable number, means no descriptors
/// were handed to this process.
pub fn activation_fd_count(
    listen_pid: &Option<String>,
    listen_fds: &Option<String>,
    my_pid: u64,
) -> (r: Option<u32>)
    ensures
        r == spec_activation_count(opt_view(*listen_pid), opt_view(*listen_fds), my_pid),
{
    let p = match listen_pid {
        Some(p) => p,
        None => {
            return None;
        },
    };
    match parse_u64_decimal(p.as_str()) {
        Some(v) if v == my_pid => {},
        _ => {
            return None;
        },
    }
    let f = match listen_fds {
        Some(f) => f,
        None => {
            return None;
        },
    };
    match parse_u64_decimal(f.as_str()) {
        Some(v) if v <= MAX_LISTEN_FDS as u64 => Some(v as u32),
        _ => None,
    }
}

/// The descriptor numbers of `count` inherited descriptors: consecutive
/// numbers starting right above the standard streams.
pub fn inherited_fds(count: u32) -> (r: Vec<i32>)
    requires
        count <= MAX_LISTEN_FDS,
    ensures
        r@.len() == count,
        forall|i: int| 0 <= i < count ==> r@[i] == LISTEN_FDS_START + i,
{
    let mut r: Vec<i32> = Vec::new();
    let mut i: u32 = 0;
    while i < count
        invariant
            i <= count,
            count <= MAX_LISTEN_FDS,
            r@.len() == i,
            forall|j: int| 0 <= j < i ==> r@[j] == LISTEN_FDS_START + j,
        decreases count - i,
    {
        r.push(LISTEN_FDS_START + (i as i32));
        i += 1;
    }
    r
}

} // verus!
