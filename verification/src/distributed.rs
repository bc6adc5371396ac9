//! Distributed supervision: the messages exchanged with a remote supervisor,
//! how replies are read, and how messages are framed on a stream.
//!
//! A message travels as a frame: its length as a 4-byte big-endian number,
//! then its encoded bytes. Frames longer than [`MAX_MESSAGE_LEN`] are refused.

use vstd::prelude::*;
use vstd::string::StringExecFns;

use crate::restart::{RestartPolicy, RestartStrategy};
use crate::supervisor::error::SupervisorError;
use crate::types::{child_views, ChildInfo as SupervisorChildInfo, ChildType, ChildView};

verus! {

/// `std::io::Error`, carried as an opaque value.
#[verifier::external_type_specification]
#[verifier::external_body]
pub struct ExIoError(std::io::Error);

/// `bincode::ErrorKind`, carried as an opaque value.
#[verifier::external_type_specification]
#[verifier::external_body]
pub struct ExBincodeErrorKind(bincode::ErrorKind);

/// Remote supervisor address.
#[derive(Debug, Clone)]
pub enum SupervisorAddress {
    /// TCP socket address (host:port).
    Tcp(String),
    /// Unix domain socket path.
    Unix(String),
}

/// Commands that can be sent to a remote supervisor.
#[derive(Debug, Clone)]
pub enum RemoteCommand {
    /// Request supervisor to shut down gracefully.
    Shutdown,
    /// Get list of all children.
    WhichChildren,
    /// Terminate a specific child.
    TerminateChild {
        /// The child's identifier.
        id: String,
    },
    /// Get supervisor status.
    Status,
}

/// Information about a child process (simplified for serialization).
#[derive(Debug, Clone)]
pub struct ChildInfo {
    /// The child's identifier.
    pub id: String,
    /// Worker or nested supervisor.
    pub child_type: ChildType,
    /// The restart policy (`None` for supervisors).
    pub restart_policy: Option<RestartPolicy>,
}

impl View for ChildInfo {
    type V = ChildView;

    open spec fn view(&self) -> ChildView {
        ChildView { id: self.id@, child_type: self.child_type, restart_policy: self.restart_policy }
    }
}

impl From<SupervisorChildInfo> for ChildInfo {
    fn from(info: SupervisorChildInfo) -> (r: Self) {
        ChildInfo {
            id: info.id,
            child_type: info.child_type,
            restart_policy: info.restart_policy,
        }
    }
}

impl vstd::std_specs::convert::FromSpecImpl<SupervisorChildInfo> for ChildInfo {
    open spec fn obeys_from_spec() -> bool {
        true
    }

    open spec fn from_spec(info: SupervisorChildInfo) -> Self {
        ChildInfo { id: info.id, child_type: info.child_type, restart_policy: info.restart_policy }
    }
}

/// Status information about a supervisor.
#[derive(Debug, Clone)]
pub struct SupervisorStatus {
    /// The supervisor's name.
    pub name: String,
    /// How many children it has.
    pub children_count: usize,
    /// Its restart strategy, by name.
    pub restart_strategy: String,
    /// Seconds since it started.
    pub uptime_secs: u64,
}

/// Responses from a remote supervisor.
#[derive(Debug, Clone)]
pub enum RemoteResponse {
    /// Command executed successfully.
    Okay,
    /// List of children.
    Children(Vec<ChildInfo>),
    /// Supervisor status information.
    Status(SupervisorStatus),
    /// Error occurred.
    Error(String),
}

/// Errors that can occur in distributed operations.
#[derive(Debug)]
pub enum DistributedError {
    /// Reading or writing the stream failed.
    Io(std::io::Error),
    /// Encoding or decoding a message failed.
    Serialization(Box<bincode::ErrorKind>),
    /// The remote supervisor answered with an error.
    RemoteError(String),
    /// The remote supervisor answered with a response of the wrong kind.
    UnexpectedResponse,
    /// A frame announced more bytes than a message may have.
    MessageTooLarge(usize),
}

impl From<std::io::Error> for DistributedError {
    fn from(e: std::io::Error) -> (r: Self) {
        DistributedError::Io(e)
    }
}

impl vstd::std_specs::convert::FromSpecImpl<std::io::Error> for DistributedError {
    open spec fn obeys_from_spec() -> bool {
        true
    }

    open spec fn from_spec(e: std::io::Error) -> Self {
        DistributedError::Io(e)
    }
}

impl From<Box<bincode::ErrorKind>> for DistributedError {
    fn from(e: Box<bincode::ErrorKind>) -> (r: Self) {
        DistributedError::Serialization(e)
    }
}

impl vstd::std_specs::convert::FromSpecImpl<Box<bincode::ErrorKind>> for DistributedError {
    open spec fn obeys_from_spec() -> bool {
        true
    }

    open spec fn from_spec(e: Box<bincode::ErrorKind>) -> Self {
        DistributedError::Serialization(e)
    }
}

/// Calls the `Display` formatting of `std::io::Error`.
/// Nothing is claimed of the text.
#[verifier::external_body]
fn io_error_text(e: &std::io::Error) -> String {
    e.to_string()
}

/// Calls the `Display` formatting of `bincode::ErrorKind`.
/// Nothing is claimed of the text.
#[verifier::external_body]
fn bincode_error_text(e: &bincode::ErrorKind) -> String {
    e.to_string()
}

/// The decimal digit `d` as a character.
pub open spec fn digit_char(d: int) -> char {
    if d == 0 {
        '0'
    } else if d == 1 {
        '1'
    } else if d == 2 {
        '2'
    } else if d == 3 {
        '3'
    } else if d == 4 {
        '4'
    } else if d == 5 {
        '5'
    } else if d == 6 {
        '6'
    } else if d == 7 {
        '7'
    } else if d == 8 {
        '8'
    } else {
        '9'
    }
}

/// The decimal representation of `n`, without leading zeros.
pub open spec fn decimal(n: nat) -> Seq<char>
    decreases n,
{
    if n < 10 {
        seq![digit_char(n as int)]
    } else {
        decimal(n / 10) + seq![digit_char((n % 10) as int)]
    }
}

/// The one-character text of a decimal digit.
fn digit_text(d: usize) -> (r: &'static str)
    requires
        d < 10,
    ensures
        r@ == seq![digit_char(d as int)],
{
    proof {
        reveal_strlit("0");
        reveal_strlit("1");
        reveal_strlit("2");
        reveal_strlit("3");
        reveal_strlit("4");
        reveal_strlit("5");
        reveal_strlit("6");
        reveal_strlit("7");
        reveal_strlit("8");
        reveal_strlit("9");
    }
    if d == 0 {
        "0"
    } else if d == 1 {
        "1"
    } else if d == 2 {
        "2"
    } else if d == 3 {
        "3"
    } else if d == 4 {
        "4"
    } else if d == 5 {
        "5"
    } else if d == 6 {
        "6"
    } else if d == 7 {
        "7"
    } else if d == 8 {
        "8"
    } else {
        "9"
    }
}

/// Formats `n` in decimal, as `Display` does.
pub fn usize_to_decimal(n: usize) -> (r: String)
    ensures
        r@ == decimal(n as nat),
    decreases n,
{
    if n < 10 {
        digit_text(n).to_owned()
    } else {
        let mut r = usize_to_decimal(n / 10);
        r.append(digit_text(n % 10));
        r
    }
}

impl DistributedError {
    /// The human-readable message of this error.
    pub fn to_string(&self) -> (r: String)
        ensures
            match self {
                DistributedError::Io(_) => exists|t: Seq<char>| r@ == "IO error: "@ + t,
                DistributedError::Serialization(_) => exists|t: Seq<char>|
                    r@ == "Serialization error: "@ + t,
                DistributedError::RemoteError(e) => r@ == "Remote error: "@ + e@,
                DistributedError::UnexpectedResponse => r@ == "Unexpected response from remote"@,
                DistributedError::MessageTooLarge(n) => r@ == "Message too large: "@ + decimal(
                    *n as nat,
                ) + " bytes"@,
            },
    {
        match self {
            DistributedError::Io(e) => {
                let mut r = "IO error: ".to_owned();
                let t = io_error_text(e);
                r.append(t.as_str());
                r
            },
            DistributedError::Serialization(e) => {
                let mut r = "Serialization error: ".to_owned();
                let t = bincode_error_text(e);
                r.append(t.as_str());
                r
            },
            DistributedError::RemoteError(e) => {
                let mut r = "Remote error: ".to_owned();
                r.append(e.as_str());
                r
            },
            DistributedError::UnexpectedResponse => "Unexpected response from remote".to_owned(),
            DistributedError::MessageTooLarge(n) => {
                let mut r = "Message too large: ".to_owned();
                let d = usize_to_decimal(*n);
                r.append(d.as_str());
                r.append(" bytes");
                r
            },
        }
    }
}

/// Handle to communicate with a remote supervisor.
pub struct RemoteSupervisorHandle {
    address: SupervisorAddress,
}

impl RemoteSupervisorHandle {
    /// The address of the remote supervisor.
    pub closed spec fn address_spec(&self) -> SupervisorAddress {
        self.address
    }

    /// Creates a new handle to a remote supervisor.
    pub fn new(address: SupervisorAddress) -> (h: Self)
        ensures
            h.address_spec() == address,
    {
        RemoteSupervisorHandle { address }
    }

    /// A handle to a supervisor that listens on TCP at `addr` (host:port).
    /// Nothing is connected yet: each command opens its own connection.
    pub fn connect_tcp(addr: &str) -> (r: Result<Self, DistributedError>)
        ensures
            r matches Ok(h) && h.address_spec() matches SupervisorAddress::Tcp(a) && a@ == addr@,
    {
        Ok(RemoteSupervisorHandle { address: SupervisorAddress::Tcp(addr.to_owned()) })
    }

    /// A handle to a supervisor that listens on the Unix socket at `path`.
    /// Nothing is connected yet: each command opens its own connection.
    pub fn connect_unix(path: &str) -> (r: Result<Self, DistributedError>)
        ensures
            r matches Ok(h) && h.address_spec() matches SupervisorAddress::Unix(a) && a@ == path@,
    {
        Ok(RemoteSupervisorHandle { address: SupervisorAddress::Unix(path.to_owned()) })
    }

    /// The address of the remote supervisor.
    pub fn address(&self) -> (r: &SupervisorAddress)
        ensures
            *r == self.address_spec(),
    {
        &self.address
    }

    /// Reads the reply to a request that expects an acknowledgement
    /// (shutdown, terminate a child).
    pub fn ack_reply(resp: RemoteResponse) -> (r: Result<(), DistributedError>)
        ensures
            match resp {
                RemoteResponse::Okay => r is Ok,
                RemoteResponse::Error(e) => r matches Err(DistributedError::RemoteError(m)) && m
                    == e,
                _ => r matches Err(DistributedError::UnexpectedResponse),
            },
    {
        match resp {
            RemoteResponse::Okay => Ok(()),
            RemoteResponse::Error(e) => Err(DistributedError::RemoteError(e)),
            _ => Err(DistributedError::UnexpectedResponse),
        }
    }

    /// Reads the reply to a request for the list of children.
    pub fn children_reply(resp: RemoteResponse) -> (r: Result<Vec<ChildInfo>, DistributedError>)
        ensures
            match resp {
                RemoteResponse::Children(c) => r matches Ok(d) && d == c,
                RemoteResponse::Error(e) => r matches Err(DistributedError::RemoteError(m)) && m
                    == e,
                _ => r matches Err(DistributedError::UnexpectedResponse),
            },
    {
        match resp {
            RemoteResponse::Children(c) => Ok(c),
            RemoteResponse::Error(e) => Err(DistributedError::RemoteError(e)),
            _ => Err(DistributedError::UnexpectedResponse),
        }
    }

    /// Reads the reply to a request for the supervisor's status.
    pub fn status_reply(resp: RemoteResponse) -> (r: Result<SupervisorStatus, DistributedError>)
        ensures
            match resp {
                RemoteResponse::Status(s) => r matches Ok(t) && t == s,
                RemoteResponse::Error(e) => r matches Err(DistributedError::RemoteError(m)) && m
                    == e,
                _ => r matches Err(DistributedError::UnexpectedResponse),
            },
    {
        match resp {
            RemoteResponse::Status(s) => Ok(s),
            RemoteResponse::Error(e) => Err(DistributedError::RemoteError(e)),
            _ => Err(DistributedError::UnexpectedResponse),
        }
    }
}

/// The answer a supervisor server sends for a command that it carried out
/// (shutdown, terminate a child): `Ok`, or the error's message.
pub fn ack_response(outcome: Result<(), SupervisorError>) -> (r: RemoteResponse)
    ensures
        match outcome {
            Ok(()) => r is Okay,
            Err(e) => r matches RemoteResponse::Error(m) && e.is_message_of(m@),
        },
{
    match outcome {
        Ok(()) => RemoteResponse::Okay,
        Err(e) => RemoteResponse::Error(e.to_string()),
    }
}

/// The records of children as they travel over the wire.
pub fn to_remote_children(children: Vec<SupervisorChildInfo>) -> (r: Vec<ChildInfo>)
    ensures
        child_views(children@) == r@.map_values(|c: ChildInfo| c@),
{
    let mut r: Vec<ChildInfo> = Vec::new();
    let mut i: usize = 0;
    while i < children.len()
        invariant
            i <= children.len(),
            r@.map_values(|c: ChildInfo| c@) == child_views(children@).take(i as int),
        decreases children.len() - i,
    {
        let c = &children[i];
        let d = ChildInfo { id: c.id.clone(), child_type: c.child_type, restart_policy: c.restart_policy };
        let ghost before = r@;
        r.push(d);
        assert(r@.map_values(|c: ChildInfo| c@) =~= before.map_values(|c: ChildInfo| c@).push(d@));
        assert(child_views(children@).take(i + 1) =~= child_views(children@).take(i as int).push(
            children@[i as int]@,
        ));
        i = i + 1;
    }
    assert(child_views(children@).take(i as int) =~= child_views(children@));
    r
}

/// The answer a supervisor server sends to a request for its children:
/// the children's records, or the error's message.
pub fn children_response(outcome: Result<Vec<SupervisorChildInfo>, SupervisorError>) -> (r:
    RemoteResponse)
    ensures
        match outcome {
            Ok(c) => r matches RemoteResponse::Children(d) && child_views(c@) == d@.map_values(
                |x: ChildInfo| x@,
            ),
            Err(e) => r matches RemoteResponse::Error(m) && e.is_message_of(m@),
        },
{
    match outcome {
        Ok(c) => RemoteResponse::Children(to_remote_children(c)),
        Err(e) => RemoteResponse::Error(e.to_string()),
    }
}

/// The answer a supervisor server sends to a status request: the
/// supervisor's name, how many children it reported, the name of its restart
/// strategy and its uptime in seconds. Where asking the supervisor for one of
/// them failed, the answer carries no children, the default strategy
/// (`OneForOne`) or an uptime of 0 in its place.
pub fn status_response(
    name: &str,
    children: Result<Vec<SupervisorChildInfo>, SupervisorError>,
    strategy: Result<RestartStrategy, SupervisorError>,
    uptime: Result<u64, SupervisorError>,
) -> (r: RemoteResponse)
    ensures
        r matches RemoteResponse::Status(s) && s.name@ == name@ && s.children_count == (
        match children {
            Ok(c) => c.len(),
            Err(_) => 0,
        }) && s.restart_strategy@ == (match strategy {
            Ok(k) => k.name_spec(),
            Err(_) => RestartStrategy::OneForOne.name_spec(),
        }) && s.uptime_secs == (match uptime {
            Ok(u) => u,
            Err(_) => 0,
        }),
{
    let count = match &children {
        Ok(c) => c.len(),
        Err(_) => 0,
    };
    let strategy = match strategy {
        Ok(k) => k,
        Err(_) => RestartStrategy::default(),
    };
    let uptime_secs = match uptime {
        Ok(u) => u,
        Err(_) => 0,
    };
    RemoteResponse::Status(
        SupervisorStatus {
            name: name.to_owned(),
            children_count: count,
            restart_strategy: strategy.name(),
            uptime_secs,
        },
    )
}

/// The largest message, in bytes, that a frame may announce.
pub const MAX_MESSAGE_LEN: usize = 10_000_000;

/// The number that four bytes encode in big-endian order.
pub open spec fn be_u32(b0: u8, b1: u8, b2: u8, b3: u8) -> int {
    b0 * 16777216 + b1 * 65536 + b2 * 256 + b3
}

/// The length a frame header with these bytes announces, or `None` when it
/// is above [`MAX_MESSAGE_LEN`].
pub open spec fn announced_length(b0: u8, b1: u8, b2: u8, b3: u8) -> Option<int> {
    if be_u32(b0, b1, b2, b3) > MAX_MESSAGE_LEN {
        None
    } else {
        Some(be_u32(b0, b1, b2, b3))
    }
}

/// The frame of a message: the length of `payload`, truncated to 32 bits, as
/// four big-endian bytes, then the payload.
pub fn encode_frame(payload: &[u8]) -> (r: Vec<u8>)
    ensures
        r@.len() == 4 + payload@.len(),
        be_u32(r@[0], r@[1], r@[2], r@[3]) == payload@.len() as u32,
        r@.skip(4) == payload@,
{
    let n: u32 = payload.len() as u32;
    let b0: u8 = (n >> 24u32) as u8;
    let b1: u8 = ((n >> 16u32) & 0xffu32) as u8;
    let b2: u8 = ((n >> 8u32) & 0xffu32) as u8;
    let b3: u8 = (n & 0xffu32) as u8;
    assert(b0 * 16777216 + b1 * 65536 + b2 * 256 + b3 == n) by (bit_vector)
        requires
            b0 == (n >> 24u32) as u8,
            b1 == ((n >> 16u32) & 0xffu32) as u8,
            b2 == ((n >> 8u32) & 0xffu32) as u8,
            b3 == (n & 0xffu32) as u8,
    ;
    let mut r: Vec<u8> = Vec::new();
    r.push(b0);
    r.push(b1);
    r.push(b2);
    r.push(b3);
    let mut i: usize = 0;
    while i < payload.len()
        invariant
            i <= payload@.len(),
            r@.len() == 4 + i,
            r@[0] == b0 && r@[1] == b1 && r@[2] == b2 && r@[3] == b3,
            r@.skip(4) == payload@.take(i as int),
        decreases payload@.len() - i,
    {
        let ghost before = r@;
        r.push(payload[i]);
        assert(r@.skip(4) =~= before.skip(4).push(payload@[i as int]));
        assert(payload@.take(i + 1) =~= payload@.take(i as int).push(payload@[i as int]));
        i = i + 1;
    }
    assert(payload@.take(i as int) =~= payload@);
    r
}

/// Reads the length a frame header announces: the number the four bytes
/// encode in big-endian order, refused with `MessageTooLarge` when it is
/// above [`MAX_MESSAGE_LEN`].
pub fn frame_length(header: [u8; 4]) -> (r: Result<usize, DistributedError>)
    ensures
        match announced_length(header@[0], header@[1], header@[2], header@[3]) {
            Some(n) => r matches Ok(m) && m == n,
            None => r matches Err(DistributedError::MessageTooLarge(m)) && m == be_u32(
                header@[0],
                header@[1],
                header@[2],
                header@[3],
            ),
        },
{
    let b0 = header[0];
    let b1 = header[1];
    let b2 = header[2];
    let b3 = header[3];
    let n: usize = (b0 as usize) * 16777216 + (b1 as usize) * 65536 + (b2 as usize) * 256 + (
    b3 as usize);
    if n > MAX_MESSAGE_LEN {
        Err(DistributedError::MessageTooLarge(n))
    } else {
        Ok(n)
    }
}

/// What a frame writes is what a frame read gives back: for a payload of
/// acceptable size, the header that `encode_frame` writes announces exactly
/// the payload's length, and the bytes after it are the payload.
pub proof fn law_frame_round_trip(payload: Seq<u8>, frame: Seq<u8>)
    requires
        payload.len() <= MAX_MESSAGE_LEN,
        frame.len() == 4 + payload.len(),
        be_u32(frame[0], frame[1], frame[2], frame[3]) == payload.len() as u32,
        frame.skip(4) == payload,
    ensures
        announced_length(frame[0], frame[1], frame[2], frame[3]) == Some(payload.len() as int),
{
    let n: usize = payload.len() as usize;
    assert(n <= 10_000_000);
    assert((n as u32) == n) by (bit_vector)
        requires
            n <= 10_000_000usize,
    ;
}

} // verus!
