//! The echo session over a pair of bulk endpoints.
//!
//! A [`Session`] waits for the host to configure the interface, then echoes
//! each packet it receives until the endpoints are disabled, and waits again.
//! The session never touches the endpoints itself: it is told what happened
//! as an [`Event`] and answers with the [`Action`] to perform next.

use vstd::prelude::*;

verus! {

/// Largest packet, in bytes, that the bulk endpoints carry.
pub const MAX_PACKET_SIZE: usize = 64;

/// Why a transfer on a bulk endpoint failed.
#[derive(Clone, Copy, Debug, PartialEq, Eq, Structural)]
pub enum TransferError {
    /// The packet did not fit the buffer that was there to take it.
    BufferOverflow,
    /// The endpoint is disabled: the host has gone or has deconfigured the
    /// interface.
    Disabled,
}

/// A fault of the transport from which the session cannot recover.
#[derive(Clone, Copy, Debug, PartialEq, Eq, Structural)]
pub enum Fatal {
    /// A packet was larger than the endpoints' packet size allows.
    BufferOverflow,
}

/// One bulk packet: a receive buffer and the number of bytes in use.
#[derive(Clone, Copy, Debug)]
pub struct Packet {
    data: [u8; MAX_PACKET_SIZE],
    len: usize,
}

impl View for Packet {
    type V = Seq<u8>;

    closed spec fn view(&self) -> Seq<u8> {
        self.data@.take(self.len as int)
    }
}

impl Packet {
    /// A packet holds no more bytes than its buffer has.
    #[verifier::type_invariant]
    pub closed spec fn wf(self) -> bool {
        self.len <= MAX_PACKET_SIZE
    }

    /// The packet made of the first `len` bytes of `data`, if `data` has
    /// that many.
    pub fn new(data: [u8; MAX_PACKET_SIZE], len: usize) -> (r: Option<Packet>)
        ensures
            r is Some <==> len <= MAX_PACKET_SIZE,
            r matches Some(p) ==> p.wf() && p@ == data@.take(len as int),
    {
        if len <= MAX_PACKET_SIZE {
            Some(Packet { data, len })
        } else {
            None
        }
    }

    /// The number of bytes in the packet.
    pub fn len(&self) -> (n: usize)
        ensures
            n == self@.len(),
            n <= MAX_PACKET_SIZE,
    {
        proof {
            use_type_invariant(self);
        }
        self.len
    }

    /// The bytes of the packet.
    pub fn as_slice(&self) -> (bytes: &[u8])
        ensures
            bytes@ == self@,
    {
        proof {
            use_type_invariant(self);
        }
        let all: &[u8] = &self.data;
        &all[0..self.len]
    }

    /// A packet is never longer than the endpoints' packet size.
    pub proof fn lemma_fits(self)
        requires
            self.wf(),
        ensures
            self@.len() <= MAX_PACKET_SIZE,
    {
    }
}

/// What the transport reports to the session.
#[derive(Clone, Copy, Debug)]
pub enum Event {
    /// The endpoints have become enabled.
    Enabled,
    /// A packet has arrived from the host.
    Received(Packet),
    /// The packet handed to the transport has gone out to the host.
    Sent,
    /// A read or a write has failed.
    Failed(TransferError),
}

/// What the session asks to be done next.
#[derive(Clone, Copy, Debug)]
pub enum Action {
    /// Wait until the endpoints are enabled.
    WaitEnabled,
    /// Wait for the next packet from the host.
    Receive,
    /// Signal the arrival of this packet and send it back to the host.
    Echo(Packet),
}

/// The state of the echo session.
#[derive(Clone, Copy, Debug, PartialEq, Eq, Structural)]
pub enum Session {
    /// The endpoints are disabled; nothing is echoed.
    WaitingForConnection,
    /// The host has configured the interface; packets are echoed.
    Active,
}

impl Event {
    /// The event that stands for the outcome of a read into `data`: the
    /// packet, where the transport gives a count that fits the buffer; an
    /// overflow, where the count does not fit; the failure otherwise.
    pub fn from_read(
        data: [u8; MAX_PACKET_SIZE],
        outcome: Result<usize, TransferError>,
    ) -> (e: Event)
        ensures
            (match outcome {
                Ok(n) => if n <= MAX_PACKET_SIZE {
                    e matches Event::Received(p) && p.wf() && p@ == data@.take(n as int)
                } else {
                    e == Event::Failed(TransferError::BufferOverflow)
                },
                Err(error) => e == Event::Failed(error),
            }),
    {
        match outcome {
            Ok(n) => match Packet::new(data, n) {
                Some(packet) => Event::Received(packet),
                None => Event::Failed(TransferError::BufferOverflow),
            },
            Err(error) => Event::Failed(error),
        }
    }

    /// The event that stands for the outcome of a write.
    pub fn from_write(outcome: Result<(), TransferError>) -> (e: Event)
        ensures
            (match outcome {
                Ok(_) => e == Event::Sent,
                Err(error) => e == Event::Failed(error),
            }),
    {
        match outcome {
            Ok(_) => Event::Sent,
            Err(error) => Event::Failed(error),
        }
    }
}

impl Session {
    /// The transition function: the state that follows `self` on `event`
    /// and the action to perform, or the fault that ends the session.
    ///
    /// An overflow is fatal in either state. A disabled endpoint leaves the
    /// session waiting for the next connection. Once the endpoints are
    /// enabled the session is active and reads. While active, a packet that
    /// has come in is echoed and a packet that has gone out is followed by
    /// the next read; while waiting, neither changes anything.
    pub open spec fn next(self, event: Event) -> Result<(Session, Action), Fatal> {
        match event {
            Event::Failed(TransferError::BufferOverflow) => Err(Fatal::BufferOverflow),
            Event::Failed(TransferError::Disabled) => Ok(
                (Session::WaitingForConnection, Action::WaitEnabled),
            ),
            Event::Enabled => Ok((Session::Active, Action::Receive)),
            Event::Received(packet) => match self {
                Session::Active => Ok((Session::Active, Action::Echo(packet))),
                Session::WaitingForConnection => Ok(
                    (Session::WaitingForConnection, Action::WaitEnabled),
                ),
            },
            Event::Sent => match self {
                Session::Active => Ok((Session::Active, Action::Receive)),
                Session::WaitingForConnection => Ok(
                    (Session::WaitingForConnection, Action::WaitEnabled),
                ),
            },
        }
    }

    /// The session at power-on, and the first thing to do: wait for the
    /// endpoints to be enabled.
    pub fn start() -> (r: (Session, Action))
        ensures
            r == (Session::WaitingForConnection, Action::WaitEnabled),
    {
        (Session::WaitingForConnection, Action::WaitEnabled)
    }

    /// Takes `event` and gives the state that follows and the action to
    /// perform next, or the fault that ends the session.
    pub fn step(self, event: Event) -> (r: Result<(Session, Action), Fatal>)
        ensures
            r == self.next(event),
            r is Err <==> event == Event::Failed(TransferError::BufferOverflow),
            event == Event::Failed(TransferError::Disabled) ==> r == Ok::<_, Fatal>(
                (Session::WaitingForConnection, Action::WaitEnabled),
            ),
            self == Session::Active ==> (event matches Event::Received(packet) ==> r
                == Ok::<_, Fatal>((Session::Active, Action::Echo(packet)))),
            r matches Ok((state, action)) ==> (state == Session::WaitingForConnection
                <==> action == Action::WaitEnabled),
    {
        match self {
            Session::WaitingForConnection => match event {
                Event::Enabled => Ok((Session::Active, Action::Receive)),
                Event::Failed(TransferError::BufferOverflow) => Err(Fatal::BufferOverflow),
                _ => Ok((Session::WaitingForConnection, Action::WaitEnabled)),
            },
            Session::Active => match event {
                Event::Enabled | Event::Sent => Ok((Session::Active, Action::Receive)),
                Event::Received(packet) => Ok((Session::Active, Action::Echo(packet))),
                Event::Failed(TransferError::Disabled) => Ok(
                    (Session::WaitingForConnection, Action::WaitEnabled),
                ),
                Event::Failed(TransferError::BufferOverflow) => Err(Fatal::BufferOverflow),
            },
        }
    }
}

} // verus!
