//! Hosts, datagrams and automata for a transport over datagrams.

use vstd::prelude::*;

verus! {

/// An IPv4 address and a port.
#[derive(Debug, Clone, Copy, PartialEq, Eq, PartialOrd, Ord, Hash)]
pub struct Host(pub (u8, u8, u8, u8), pub u16);

impl Host {
    /// The address and the port.
    pub fn tuple(&self) -> (t: ((u8, u8, u8, u8), u16))
        ensures
            t == (self.0, self.1),
    {
        (self.0, self.1)
    }
}

/// Whether the peer is this machine.
#[derive(Debug, Clone, Copy)]
pub struct RemoteState {
    local: bool,
}

impl RemoteState {
    /// Whether the peer is this machine.
    pub closed spec fn local(&self) -> bool {
        self.local
    }

    /// Whether the peer is this machine.
    pub fn is_local(&self) -> (b: bool)
        ensures
            b == self.local(),
    {
        self.local
    }
}

impl Default for RemoteState {
    fn default() -> (s: Self)
        ensures
            !s.local(),
    {
        Self { local: false }
    }
}

/// A frame of a stream, by its sequence number.
#[derive(Debug, Clone, Copy)]
pub struct TcpDataFrame {
    pub seq: u32,
}

/// A datagram of the stream protocol.
#[derive(Debug, Clone, Copy)]
pub enum TcpDatagram {
    SYN { maximum_segment_size: u32 },
    ACK,
    FIN,
    DataFrame,
}

/// A datagram outside any stream.
#[derive(Debug, Clone)]
pub struct UdpDatagram {
    pub program_version: u32,
    pub data: Vec<u8>,
}

/// Any datagram.
#[derive(Debug, Clone)]
pub enum Datagram {
    TcpDatagram(TcpDatagram),
    UdpDatagram(UdpDatagram),
}

/// A stream over datagrams.
pub trait TouStream {
}

/// A state of a deterministic automaton: it takes an input to the next
/// state, or refuses it, and says whether it is a final state.
pub trait DFA: Sized {
    type Input;

    type Error;

    /// The state that `params` leads to from `self`, or the reason why
    /// `params` is refused.
    fn accept(&self, params: Self::Input) -> Result<Self, Self::Error>;

    /// Whether `self` is a final state.
    fn is_final(&self) -> bool;
}

/// An automaton that runs: it holds the state that the inputs so far
/// have led to.
pub struct DFAInterfer<T: DFA> {
    pub state: T,
}

impl<T: DFA> DFAInterfer<T> {
    /// The automaton in the state `initial`.
    pub fn start(initial: T) -> (a: Self)
        ensures
            a.state == initial,
    {
        DFAInterfer { state: initial }
    }

    /// Moves to the state that `params` leads to, as the state itself
    /// tells it. An input that the state refuses leaves the automaton
    /// where it is, and the refusal is handed on.
    pub fn accept(&mut self, params: T::Input) -> (r: Result<(), T::Error>)
        ensures
            match r {
                Ok(_) => call_ensures(
                    T::accept,
                    (&old(self).state, params),
                    Ok(final(self).state),
                ),
                Err(e) => {
                    &&& call_ensures(T::accept, (&old(self).state, params), Err(e))
                    &&& final(self).state == old(self).state
                },
            },
    {
        match self.state.accept(params) {
            Ok(state) => {
                self.state = state;
                Ok(())
            },
            Err(e) => Err(e),
        }
    }

    /// Whether the automaton is in a final state, as the state itself
    /// tells it.
    pub fn is_final(&self) -> (b: bool)
        ensures
            call_ensures(T::is_final, (&self.state,), b),
    {
        self.state.is_final()
    }
}

} // verus!
