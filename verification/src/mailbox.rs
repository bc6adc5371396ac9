//! Optional mailbox system for workers: a worker receives string messages
//! through a mailbox, and others send to it through a handle.

use vstd::prelude::*;
use vstd::string::StringExecFns;

verus! {

/// `tokio::sync::mpsc::Sender`, carried as an opaque value.
#[verifier::external_type_specification]
#[verifier::external_body]
#[verifier::reject_recursive_types(T)]
pub struct ExBoundedSender<T>(tokio::sync::mpsc::Sender<T>);

/// `tokio::sync::mpsc::UnboundedSender`, carried as an opaque value.
#[verifier::external_type_specification]
#[verifier::external_body]
#[verifier::reject_recursive_types(T)]
pub struct ExUnboundedSender<T>(tokio::sync::mpsc::UnboundedSender<T>);

/// `tokio::sync::mpsc::Receiver`, carried as an opaque value.
#[verifier::external_type_specification]
#[verifier::external_body]
#[verifier::reject_recursive_types(T)]
pub struct ExBoundedReceiver<T>(tokio::sync::mpsc::Receiver<T>);

/// `tokio::sync::mpsc::UnboundedReceiver`, carried as an opaque value.
#[verifier::external_type_specification]
#[verifier::external_body]
#[verifier::reject_recursive_types(T)]
pub struct ExUnboundedReceiver<T>(tokio::sync::mpsc::UnboundedReceiver<T>);

/// `Clone` of `tokio::sync::mpsc::Sender`: another sending end of the same
/// channel. Nothing is claimed of it.
pub assume_specification<T>[ <tokio::sync::mpsc::Sender<T> as std::clone::Clone>::clone ](
    tx: &tokio::sync::mpsc::Sender<T>,
) -> tokio::sync::mpsc::Sender<T>;

/// `Clone` of `tokio::sync::mpsc::UnboundedSender`: another sending end of
/// the same channel. Nothing is claimed of it.
pub assume_specification<T>[ <tokio::sync::mpsc::UnboundedSender<T> as std::clone::Clone>::clone ](
    tx: &tokio::sync::mpsc::UnboundedSender<T>,
) -> tokio::sync::mpsc::UnboundedSender<T>;

/// The largest capacity a bounded channel accepts (`tokio`'s semaphore limit).
pub const MAX_MAILBOX_CAPACITY: usize = usize::MAX >> 3usize;

/// Every capacity up to 2^29 - 1 is accepted, whatever the width of `usize`.
pub proof fn lemma_mailbox_capacity_bound()
    ensures
        MAX_MAILBOX_CAPACITY >= 536_870_911,
{
    let m: usize = usize::MAX;
    assert(m >= 0xffff_ffffusize);
    assert(m >= 0xffff_ffffusize ==> m >> 3usize >= 536_870_911usize) by (bit_vector);
}

/// Configuration for mailbox capacity.
#[derive(Debug, Clone, Copy, PartialEq, Eq, Structural)]
pub enum MailboxConfig {
    /// Unbounded mailbox - no capacity limit.
    Unbounded,
    /// Bounded mailbox with fixed capacity.
    Bounded {
        /// Maximum number of messages the mailbox can hold.
        capacity: usize,
    },
}

impl Default for MailboxConfig {
    fn default() -> (c: Self)
        ensures
            c == (MailboxConfig::Bounded { capacity: 100 }),
    {
        MailboxConfig::Bounded { capacity: 100 }
    }
}

impl MailboxConfig {
    /// Create an unbounded mailbox configuration.
    pub fn unbounded() -> (c: Self)
        ensures
            c == MailboxConfig::Unbounded,
    {
        MailboxConfig::Unbounded
    }

    /// Create a bounded mailbox configuration; the capacity must be positive.
    pub fn bounded(capacity: usize) -> (c: Self)
        requires
            capacity > 0,
        ensures
            c == (MailboxConfig::Bounded { capacity }),
    {
        MailboxConfig::Bounded { capacity }
    }

    /// The capacity this configuration asks for; `None` for an unbounded one.
    pub open spec fn capacity(self) -> Option<usize> {
        match self {
            MailboxConfig::Unbounded => None,
            MailboxConfig::Bounded { capacity } => Some(capacity),
        }
    }

    /// A mailbox can be made with this configuration: a bounded one needs a
    /// positive capacity that the channel accepts.
    pub open spec fn is_valid(self) -> bool {
        match self {
            MailboxConfig::Unbounded => true,
            MailboxConfig::Bounded { capacity } => 0 < capacity <= MAX_MAILBOX_CAPACITY,
        }
    }
}

/// Error when sending a message fails.
#[derive(Debug, Clone)]
pub enum SendError {
    /// The worker's mailbox is closed.
    Closed(String),
}

/// Error when trying to send without blocking.
#[derive(Debug, Clone)]
pub enum TrySendError {
    /// The mailbox is full.
    Full,
    /// The worker's mailbox is closed.
    Closed(String),
}

/// Error when trying to receive without blocking.
#[derive(Debug, Clone, Copy, PartialEq, Eq, Structural)]
pub enum TryRecvError {
    /// The mailbox is empty.
    Empty,
    /// The mailbox is disconnected.
    Disconnected,
}

impl SendError {
    /// The human-readable message of this error.
    pub fn to_string(&self) -> (r: String)
        ensures
            match self {
                SendError::Closed(id) => r@ == "worker '"@ + id@ + "' mailbox is closed"@,
            },
    {
        match self {
            SendError::Closed(id) => crate::supervisor::error::concat3(
                "worker '",
                id.as_str(),
                "' mailbox is closed",
            ),
        }
    }
}

impl TrySendError {
    /// The human-readable message of this error.
    pub fn to_string(&self) -> (r: String)
        ensures
            match self {
                TrySendError::Full => r@ == "mailbox is full"@,
                TrySendError::Closed(id) => r@ == "worker '"@ + id@ + "' mailbox is closed"@,
            },
    {
        match self {
            TrySendError::Full => "mailbox is full".to_owned(),
            TrySendError::Closed(id) => crate::supervisor::error::concat3(
                "worker '",
                id.as_str(),
                "' mailbox is closed",
            ),
        }
    }
}

impl TryRecvError {
    /// The human-readable message of this error.
    pub fn to_string(&self) -> (r: String)
        ensures
            match self {
                TryRecvError::Empty => r@ == "mailbox is empty"@,
                TryRecvError::Disconnected => r@ == "mailbox is disconnected"@,
            },
    {
        match self {
            TryRecvError::Empty => "mailbox is empty".to_owned(),
            TryRecvError::Disconnected => "mailbox is disconnected".to_owned(),
        }
    }
}

/// Why a message could not be put in a channel at once.
#[derive(Debug, Clone, Copy, PartialEq, Eq, Structural)]
pub enum ChannelRefusal {
    /// The channel holds as many messages as its capacity.
    Full,
    /// The receiving end is gone.
    Closed,
}

/// The error a refused non-blocking send reports: a full mailbox as full, a
/// closed one with the identifier of its worker.
pub fn try_send_error(refusal: ChannelRefusal, worker_id: &str) -> (e: TrySendError)
    ensures
        match refusal {
            ChannelRefusal::Full => e matches TrySendError::Full,
            ChannelRefusal::Closed => e matches TrySendError::Closed(id) && id@ == worker_id@,
        },
{
    match refusal {
        ChannelRefusal::Full => TrySendError::Full,
        ChannelRefusal::Closed => TrySendError::Closed(worker_id.to_owned()),
    }
}

/// The capacity a bounded channel was made with, as its sending end knows it
/// (what `Sender::max_capacity` returns).
pub uninterp spec fn bounded_sender_capacity(tx: tokio::sync::mpsc::Sender<String>) -> usize;

/// Calls `tokio::sync::mpsc::channel` with `capacity`. The channel's bound is
/// the capacity it was asked for; nothing else is claimed of it.
#[verifier::external_body]
fn bounded_channel(capacity: usize) -> (r: (tokio::sync::mpsc::Sender<String>, tokio::sync::mpsc::Receiver<String>))
    requires
        0 < capacity <= MAX_MAILBOX_CAPACITY,
    ensures
        bounded_sender_capacity(r.0) == capacity,
{
    tokio::sync::mpsc::channel(capacity)
}

/// Calls `tokio::sync::mpsc::unbounded_channel`.
#[verifier::external_body]
fn unbounded_channel() -> (tokio::sync::mpsc::UnboundedSender<String>, tokio::sync::mpsc::UnboundedReceiver<String>) {
    tokio::sync::mpsc::unbounded_channel()
}

/// Calls `Sender::try_send`; its two errors are told apart.
/// Whether the message is taken depends on the receiving side: nothing is
/// claimed of the outcome.
#[verifier::external_body]
fn bounded_try_send(tx: &tokio::sync::mpsc::Sender<String>, msg: String) -> Result<(), ChannelRefusal> {
    match tx.try_send(msg) {
        Ok(()) => Ok(()),
        Err(tokio::sync::mpsc::error::TrySendError::Full(_)) => Err(ChannelRefusal::Full),
        Err(tokio::sync::mpsc::error::TrySendError::Closed(_)) => Err(ChannelRefusal::Closed),
    }
}

/// Calls `UnboundedSender::send`. It never reports a full channel, only a
/// closed one.
#[verifier::external_body]
fn unbounded_send(tx: &tokio::sync::mpsc::UnboundedSender<String>, msg: String) -> (r: Result<(), ChannelRefusal>)
    ensures
        r matches Err(e) ==> e == ChannelRefusal::Closed,
{
    match tx.send(msg) {
        Ok(()) => Ok(()),
        Err(_) => Err(ChannelRefusal::Closed),
    }
}

/// Calls `Sender::is_closed`. Nothing is claimed of the answer.
#[verifier::external_body]
fn bounded_is_closed(tx: &tokio::sync::mpsc::Sender<String>) -> bool {
    tx.is_closed()
}

/// Calls `UnboundedSender::is_closed`. Nothing is claimed of the answer.
#[verifier::external_body]
fn unbounded_is_closed(tx: &tokio::sync::mpsc::UnboundedSender<String>) -> bool {
    tx.is_closed()
}

/// Calls `Receiver::try_recv`; its two errors are told apart.
/// Nothing is claimed of the outcome.
#[verifier::external_body]
fn bounded_try_recv(rx: &mut tokio::sync::mpsc::Receiver<String>) -> Result<String, TryRecvError> {
    match rx.try_recv() {
        Ok(m) => Ok(m),
        Err(tokio::sync::mpsc::error::TryRecvError::Empty) => Err(TryRecvError::Empty),
        Err(tokio::sync::mpsc::error::TryRecvError::Disconnected) => Err(TryRecvError::Disconnected),
    }
}

/// Calls `UnboundedReceiver::try_recv`; its two errors are told apart.
/// Nothing is claimed of the outcome.
#[verifier::external_body]
fn unbounded_try_recv(rx: &mut tokio::sync::mpsc::UnboundedReceiver<String>) -> Result<String, TryRecvError> {
    match rx.try_recv() {
        Ok(m) => Ok(m),
        Err(tokio::sync::mpsc::error::TryRecvError::Empty) => Err(TryRecvError::Empty),
        Err(tokio::sync::mpsc::error::TryRecvError::Disconnected) => Err(TryRecvError::Disconnected),
    }
}

/// The sending end of a mailbox.
#[derive(Clone)]
pub enum MailboxSender {
    /// The sending end of a bounded channel.
    Bounded(tokio::sync::mpsc::Sender<String>),
    /// The sending end of an unbounded channel.
    Unbounded(tokio::sync::mpsc::UnboundedSender<String>),
}

/// The receiving end of a mailbox.
pub enum MailboxReceiver {
    /// The receiving end of a bounded channel.
    Bounded(tokio::sync::mpsc::Receiver<String>),
    /// The receiving end of an unbounded channel.
    Unbounded(tokio::sync::mpsc::UnboundedReceiver<String>),
}

/// Handle for sending messages to a mailbox.
#[derive(Clone)]
pub struct MailboxHandle {
    tx: MailboxSender,
    worker_id: String,
}

impl MailboxHandle {
    /// The identifier of the worker that owns the mailbox.
    pub closed spec fn worker_id_spec(&self) -> Seq<char> {
        self.worker_id@
    }

    /// The mailbox has a capacity.
    pub closed spec fn is_bounded(&self) -> bool {
        self.tx is Bounded
    }

    /// The capacity the mailbox was made with; `None` for an unbounded one.
    pub closed spec fn capacity_spec(&self) -> Option<usize> {
        match self.tx {
            MailboxSender::Bounded(tx) => Some(bounded_sender_capacity(tx)),
            MailboxSender::Unbounded(_) => None,
        }
    }

    /// Try to send a message without blocking. A full mailbox is reported
    /// only for a bounded one; a closed one names the worker. Whether the
    /// channel takes the message depends on its receiving side; a refusal is
    /// reported as [`try_send_error`] maps it.
    pub fn try_send(&self, msg: &str) -> (r: Result<(), TrySendError>)
        ensures
            r matches Err(TrySendError::Full) ==> self.is_bounded(),
            r matches Err(TrySendError::Closed(id)) ==> id@ == self.worker_id_spec(),
    {
        let m = msg.to_owned();
        let outcome = match &self.tx {
            MailboxSender::Bounded(tx) => bounded_try_send(tx, m),
            MailboxSender::Unbounded(tx) => unbounded_send(tx, m),
        };
        match outcome {
            Ok(()) => Ok(()),
            Err(refusal) => Err(try_send_error(refusal, self.worker_id.as_str())),
        }
    }

    /// The error a send into a closed mailbox reports: it names the worker.
    pub fn closed_error(&self) -> (e: SendError)
        ensures
            e matches SendError::Closed(id) && id@ == self.worker_id_spec(),
    {
        SendError::Closed(self.worker_id.clone())
    }

    /// Get the worker ID.
    pub fn worker_id(&self) -> (r: &str)
        ensures
            r@ == self.worker_id_spec(),
    {
        self.worker_id.as_str()
    }

    /// Check if the mailbox is still open.
    pub fn is_open(&self) -> bool {
        match &self.tx {
            MailboxSender::Bounded(tx) => !bounded_is_closed(tx),
            MailboxSender::Unbounded(tx) => !unbounded_is_closed(tx),
        }
    }

    /// The sending end, for sending and waiting.
    pub fn sender(&self) -> (r: &MailboxSender)
        ensures
            (*r is Bounded) == self.is_bounded(),
    {
        &self.tx
    }
}

/// Mailbox for receiving messages in a worker.
pub struct Mailbox {
    rx: MailboxReceiver,
}

impl Mailbox {
    /// The mailbox has a capacity.
    pub closed spec fn is_bounded(&self) -> bool {
        self.rx is Bounded
    }

    /// The receiving end that the mailbox holds.
    pub closed spec fn receiver_spec(&self) -> MailboxReceiver {
        self.rx
    }

    /// Try to receive a message without blocking.
    pub fn try_recv(&mut self) -> (r: Result<String, TryRecvError>)
        ensures
            final(self).is_bounded() == old(self).is_bounded(),
    {
        match &mut self.rx {
            MailboxReceiver::Bounded(rx) => bounded_try_recv(rx),
            MailboxReceiver::Unbounded(rx) => unbounded_try_recv(rx),
        }
    }

    /// The receiving end, for receiving and waiting.
    /// What is done through the reference is done to the mailbox's own
    /// receiving end.
    pub fn receiver_mut(&mut self) -> (r: &mut MailboxReceiver)
        ensures
            *r == old(self).receiver_spec(),
            final(self).receiver_spec() == *final(r),
    {
        &mut self.rx
    }
}

/// Create a mailbox channel for a worker with this identifier, with the
/// capacity the configuration gives.
pub fn mailbox_named(config: MailboxConfig, worker_id: &str) -> (r: (MailboxHandle, Mailbox))
    requires
        config.is_valid(),
    ensures
        r.0.worker_id_spec() == worker_id@,
        r.0.is_bounded() == (config is Bounded),
        r.0.capacity_spec() == config.capacity(),
        r.1.is_bounded() == (config is Bounded),
{
    match config {
        MailboxConfig::Unbounded => {
            let (tx, rx) = unbounded_channel();
            (
                MailboxHandle { tx: MailboxSender::Unbounded(tx), worker_id: worker_id.to_owned() },
                Mailbox { rx: MailboxReceiver::Unbounded(rx) },
            )
        },
        MailboxConfig::Bounded { capacity } => {
            let (tx, rx) = bounded_channel(capacity);
            (
                MailboxHandle { tx: MailboxSender::Bounded(tx), worker_id: worker_id.to_owned() },
                Mailbox { rx: MailboxReceiver::Bounded(rx) },
            )
        },
    }
}

/// Create a mailbox channel for an unnamed worker (identifier `unnamed`).
pub fn mailbox(config: MailboxConfig) -> (r: (MailboxHandle, Mailbox))
    requires
        config.is_valid(),
    ensures
        r.0.worker_id_spec() == "unnamed"@,
        r.0.is_bounded() == (config is Bounded),
        r.0.capacity_spec() == config.capacity(),
        r.1.is_bounded() == (config is Bounded),
{
    mailbox_named(config, "unnamed")
}

} // verus!
