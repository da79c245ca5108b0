//! The echo service of the serial port.
//!
//! The service waits for a host, then sends every packet that it receives
//! straight back, byte for byte, until the host goes away. Then it waits
//! again, without end. It does not read or write an endpoint itself: it says
//! what is to be done next, is told how that went, and says what comes then.

use vstd::prelude::*;
use crate::error::{EndpointError, TransportError};
use crate::usb::{ConnectionState, Packet, MAX_PACKET_SIZE};

verus! {

/// Where the service stands. `P` is a packet: the packet itself while the
/// service runs, its bytes where a contract speaks of it.
#[derive(Debug, PartialEq, Eq)]
pub enum EchoState<P> {
    /// No host has the port open.
    AwaitingConnection,
    /// The port is open and nothing is in flight.
    AwaitingPacket,
    /// A packet was received and has not been written back yet.
    AwaitingWrite(P),
    /// An endpoint overflowed. Nothing happens any more.
    Halted,
}

/// What the service is told.
#[derive(Debug, PartialEq, Eq)]
pub enum EchoEvent<P> {
    /// The host has opened the port.
    Connected,
    /// A packet has arrived.
    Received(P),
    /// The packet that was to be written is on its way.
    Written,
    /// The endpoint failed.
    Failed(EndpointError),
}

/// What the service wants done.
#[derive(Debug, PartialEq, Eq)]
pub enum EchoAction<P> {
    /// Wait until the host opens the port.
    WaitConnection,
    /// Wait for a packet.
    ReadPacket,
    /// Write this packet to the host.
    WritePacket(P),
    /// Stop the device.
    Halt,
}

impl View for EchoState<Packet> {
    type V = EchoState<Seq<u8>>;

    open spec fn view(&self) -> EchoState<Seq<u8>> {
        match *self {
            EchoState::AwaitingConnection => EchoState::AwaitingConnection,
            EchoState::AwaitingPacket => EchoState::AwaitingPacket,
            EchoState::AwaitingWrite(packet) => EchoState::AwaitingWrite(packet@),
            EchoState::Halted => EchoState::Halted,
        }
    }
}

impl View for EchoEvent<Packet> {
    type V = EchoEvent<Seq<u8>>;

    open spec fn view(&self) -> EchoEvent<Seq<u8>> {
        match *self {
            EchoEvent::Connected => EchoEvent::Connected,
            EchoEvent::Received(packet) => EchoEvent::Received(packet@),
            EchoEvent::Written => EchoEvent::Written,
            EchoEvent::Failed(error) => EchoEvent::Failed(error),
        }
    }
}

impl View for EchoAction<Packet> {
    type V = EchoAction<Seq<u8>>;

    open spec fn view(&self) -> EchoAction<Seq<u8>> {
        match *self {
            EchoAction::WaitConnection => EchoAction::WaitConnection,
            EchoAction::ReadPacket => EchoAction::ReadPacket,
            EchoAction::WritePacket(packet) => EchoAction::WritePacket(packet@),
            EchoAction::Halt => EchoAction::Halt,
        }
    }
}

/// The state that follows `state` when `event` comes in.
///
/// A halted service stays halted. Otherwise an endpoint failure decides: an
/// overflow halts, a disabled endpoint means that the host is gone. Of the
/// other events each moves the one state that waits for it, and leaves every
/// other state as it is.
pub open spec fn next_state(state: EchoState<Seq<u8>>, event: EchoEvent<Seq<u8>>) -> EchoState<
    Seq<u8>,
> {
    match (state, event) {
        (EchoState::Halted, _) => EchoState::Halted,
        (_, EchoEvent::Failed(error)) => match TransportError::of(error) {
            TransportError::Fatal => EchoState::Halted,
            TransportError::Disconnected => EchoState::AwaitingConnection,
        },
        (EchoState::AwaitingConnection, EchoEvent::Connected) => EchoState::AwaitingPacket,
        (EchoState::AwaitingPacket, EchoEvent::Received(bytes)) => EchoState::AwaitingWrite(bytes),
        (EchoState::AwaitingWrite(_), EchoEvent::Written) => EchoState::AwaitingPacket,
        (state, _) => state,
    }
}

/// What a service in `state` waits for.
pub open spec fn pending_action(state: EchoState<Seq<u8>>) -> EchoAction<Seq<u8>> {
    match state {
        EchoState::AwaitingConnection => EchoAction::WaitConnection,
        EchoState::AwaitingPacket => EchoAction::ReadPacket,
        EchoState::AwaitingWrite(bytes) => EchoAction::WritePacket(bytes),
        EchoState::Halted => EchoAction::Halt,
    }
}

/// What the host sees of a service in `state`.
pub open spec fn connection_of(state: EchoState<Seq<u8>>) -> ConnectionState {
    match state {
        EchoState::AwaitingPacket | EchoState::AwaitingWrite(_) => ConnectionState::Connected,
        EchoState::AwaitingConnection | EchoState::Halted => ConnectionState::Disconnected,
    }
}

/// Whatever is received is written back unchanged: a service that waits for a
/// packet and gets `bytes` asks for exactly `bytes` to be written, and once
/// that is done it waits for the next packet.
pub proof fn lemma_echo_is_identity(bytes: Seq<u8>)
    requires
        bytes.len() <= MAX_PACKET_SIZE,
    ensures
        pending_action(next_state(EchoState::AwaitingPacket, EchoEvent::Received(bytes)))
            == EchoAction::WritePacket(bytes),
        next_state(
            next_state(EchoState::AwaitingPacket, EchoEvent::Received(bytes)),
            EchoEvent::Written,
        ) == EchoState::<Seq<u8>>::AwaitingPacket,
{
}

/// A packet is written only while a host is connected, and it is always the
/// packet that was received last.
pub proof fn lemma_writes_what_was_read(
    state: EchoState<Seq<u8>>,
    event: EchoEvent<Seq<u8>>,
    bytes: Seq<u8>,
)
    requires
        pending_action(next_state(state, event)) == EchoAction::WritePacket(bytes),
    ensures
        connection_of(next_state(state, event)) == ConnectionState::Connected,
        state == EchoState::AwaitingWrite(bytes) || (state == EchoState::<
            Seq<u8>,
        >::AwaitingPacket && event == EchoEvent::Received(bytes)),
{
}

/// The connection changes only as the host has it: it comes up when the host
/// opens the port, and goes down when an endpoint fails.
pub proof fn lemma_connection_follows_host(state: EchoState<Seq<u8>>, event: EchoEvent<Seq<u8>>)
    ensures
        connection_of(state) == ConnectionState::Disconnected && connection_of(
            next_state(state, event),
        ) == ConnectionState::Connected ==> state == EchoState::<Seq<u8>>::AwaitingConnection
            && event == EchoEvent::<Seq<u8>>::Connected,
        connection_of(state) == ConnectionState::Connected && connection_of(
            next_state(state, event),
        ) == ConnectionState::Disconnected ==> event is Failed,
        state != EchoState::<Seq<u8>>::Halted && event == EchoEvent::<Seq<u8>>::Failed(
            EndpointError::Disabled,
        ) ==> next_state(state, event) == EchoState::<Seq<u8>>::AwaitingConnection,
        event == EchoEvent::<Seq<u8>>::Failed(EndpointError::BufferOverflow) ==> next_state(
            state,
            event,
        ) == EchoState::<Seq<u8>>::Halted,
{
}

/// The echo service.
#[derive(Debug)]
pub struct EchoService {
    state: EchoState<Packet>,
}

impl View for EchoService {
    type V = EchoState<Seq<u8>>;

    closed spec fn view(&self) -> EchoState<Seq<u8>> {
        self.state@
    }
}

impl EchoService {
    /// A service that waits for its first host.
    pub fn new() -> (service: EchoService)
        ensures
            service@ == EchoState::<Seq<u8>>::AwaitingConnection,
    {
        EchoService { state: EchoState::AwaitingConnection }
    }

    /// Whether a host is connected.
    pub fn connection_state(&self) -> (connection: ConnectionState)
        ensures
            connection == connection_of(self@),
    {
        match &self.state {
            EchoState::AwaitingPacket => ConnectionState::Connected,
            EchoState::AwaitingWrite(_) => ConnectionState::Connected,
            EchoState::AwaitingConnection => ConnectionState::Disconnected,
            EchoState::Halted => ConnectionState::Disconnected,
        }
    }

    /// What the service waits for right now.
    pub fn pending(&self) -> (action: EchoAction<Packet>)
        ensures
            action@ == pending_action(self@),
    {
        match &self.state {
            EchoState::AwaitingConnection => EchoAction::WaitConnection,
            EchoState::AwaitingPacket => EchoAction::ReadPacket,
            EchoState::AwaitingWrite(packet) => EchoAction::WritePacket(packet.clone()),
            EchoState::Halted => EchoAction::Halt,
        }
    }

    /// Takes in `event` and says what is to be done next.
    pub fn step(&mut self, event: EchoEvent<Packet>) -> (action: EchoAction<Packet>)
        ensures
            final(self)@ == next_state(old(self)@, event@),
            action@ == pending_action(final(self)@),
    {
        let halted = match &self.state {
            EchoState::Halted => true,
            _ => false,
        };
        if !halted {
            match event {
                EchoEvent::Failed(error) => {
                    match TransportError::from(error) {
                        TransportError::Fatal => {
                            self.state = EchoState::Halted;
                        },
                        TransportError::Disconnected => {
                            self.state = EchoState::AwaitingConnection;
                        },
                    }
                },
                EchoEvent::Connected => {
                    let waiting = match &self.state {
                        EchoState::AwaitingConnection => true,
                        _ => false,
                    };
                    if waiting {
                        self.state = EchoState::AwaitingPacket;
                    }
                },
                EchoEvent::Received(packet) => {
                    let reading = match &self.state {
                        EchoState::AwaitingPacket => true,
                        _ => false,
                    };
                    if reading {
                        self.state = EchoState::AwaitingWrite(packet);
                    }
                },
                EchoEvent::Written => {
                    let writing = match &self.state {
                        EchoState::AwaitingWrite(_) => true,
                        _ => false,
                    };
                    if writing {
                        self.state = EchoState::AwaitingPacket;
                    }
                },
            }
        }
        self.pending()
    }
}

} // verus!
