//! The wire protocol between the runtime and its clients.
//!
//! Every message travels as a frame: a ten byte header (the magic `LXR`,
//! the protocol version, the message type, the big-endian payload length
//! and three bytes of zero padding) followed by the payload.
pub mod frame;
pub mod session;

use vstd::prelude::*;

use crate::buffer::buffer_limit;
use frame::{FrameError, FrameMessage, Start, MIN_BUFFER_SIZE};

verus! {

/// A packet that can travel as the payload of a frame.
pub trait Packetize: Sized {
    /// The message type of the packet.
    const MESSAGE: FrameMessage;

    /// The payload size every packet of this kind has, if it has a fixed one.
    spec fn spec_message_size() -> Option<usize>;

    /// The bytes that encode this packet.
    spec fn spec_payload(&self) -> Seq<u8>;

    /// The payloads that [`Packetize::try_from_payload`] can be asked to decode.
    spec fn payload_decodable(payload: Seq<u8>) -> bool;

    /// The payload size every packet of this kind has, if it has a fixed one.
    fn message_size() -> (size: Option<usize>)
        ensures
            size == Self::spec_message_size(),
    ;

    /// Whether [`Packetize::try_from_payload`] can be asked to decode a payload.
    fn can_decode(payload: &Vec<u8>) -> (decodable: bool)
        ensures
            decodable == Self::payload_decodable(payload@),
    ;

    /// Convert packet to bytes.
    fn to_bytes(&self) -> (bytes: Vec<u8>)
        ensures
            bytes@ == self.spec_payload(),
    ;

    /// Decode a packet from the payload of a frame.
    fn try_from_payload(payload: Vec<u8>) -> (packet: Result<Self, FrameError>)
        requires
            Self::payload_decodable(payload@),
    ;
}

/// Whether a payload of `size` bytes may hold a packet of kind `P`: any size
/// does for a packet without a fixed size, else only that size.
pub open spec fn spec_packet_size_accepted<P: Packetize>(size: usize) -> bool {
    match P::spec_message_size() {
        Some(fixed) => size == fixed,
        None => true,
    }
}

/// Checks a payload size announced by a frame against the packet kind that
/// is about to be read.
pub fn packet_size_accepted<P: Packetize>(size: usize) -> (ok: bool)
    ensures
        ok == spec_packet_size_accepted::<P>(size),
{
    match P::message_size() {
        Some(fixed) => size == fixed,
        None => true,
    }
}

/// The bytes that carry `payload` as a packet of type `message`: the frame
/// header followed by the payload.
pub open spec fn spec_packet_wire(message: FrameMessage, payload: Seq<u8>) -> Seq<u8> {
    frame::spec_header(message, payload.len() as usize) + payload
}

/// Encodes a packet as a complete frame, ready to be written to a stream.
pub fn encode_packet<P: Packetize>(packet: &P) -> (wire: Vec<u8>)
    requires
        packet.spec_payload().len() + MIN_BUFFER_SIZE <= buffer_limit(),
    ensures
        wire@ == spec_packet_wire(P::MESSAGE, packet.spec_payload()),
{
    let payload = packet.to_bytes();
    let mut frame = frame::Frame::new(P::MESSAGE, payload.len());
    frame.put(payload.as_slice());
    frame.to_vec()
}

/// A frame written by [`encode_packet`] decodes to the same message type and
/// payload length, and its payload range holds the payload, for every
/// payload within the protocol's limit.
pub proof fn lemma_packet_roundtrip(message: FrameMessage, payload: Seq<u8>)
    requires
        payload.len() <= frame::MAX_PAYLOAD_SIZE,
    ensures
        frame::spec_decode_header(spec_packet_wire(message, payload)) == Ok::<
            (FrameMessage, usize),
            FrameError,
        >((message, payload.len() as usize)),
        spec_packet_wire(message, payload).subrange(
            MIN_BUFFER_SIZE as int,
            MIN_BUFFER_SIZE + payload.len(),
        ) == payload,
{
    frame::lemma_header_roundtrip(message, payload.len() as usize, payload);
    assert(spec_packet_wire(message, payload).subrange(
        MIN_BUFFER_SIZE as int,
        MIN_BUFFER_SIZE + payload.len(),
    ) =~= payload);
}

/// Options with which a client opens a session.
pub struct ConnectionOptions {
    flags: u8,
}

impl ConnectionOptions {
    /// The session flags these options ask for.
    pub closed spec fn spec_flags(&self) -> u8 {
        self.flags
    }

    /// Options that ask for read access only.
    pub fn new() -> (options: Self)
        ensures
            options.spec_flags() == Start::MODE_READ,
    {
        Self { flags: Start::MODE_READ }
    }

    /// Ask for write access, or stop asking for it.
    pub fn write(&mut self, write: bool) -> (options: &mut Self)
        ensures
            options.spec_flags() == frame::spec_set_mode(
                old(self).spec_flags(),
                Start::MODE_WRITE,
                write,
            ),
            *final(self) == *final(options),
    {
        if write {
            self.flags = self.flags | Start::MODE_WRITE;
        } else {
            self.flags = self.flags & !Start::MODE_WRITE;
        }
        self
    }

    /// Ask for read access, or stop asking for it.
    pub fn read(&mut self, read: bool) -> (options: &mut Self)
        ensures
            options.spec_flags() == frame::spec_set_mode(
                old(self).spec_flags(),
                Start::MODE_READ,
                read,
            ),
            *final(self) == *final(options),
    {
        if read {
            self.flags = self.flags | Start::MODE_READ;
        } else {
            self.flags = self.flags & !Start::MODE_READ;
        }
        self
    }

    /// Ask the runtime to stop all motion when the session is lost, or not.
    pub fn failsafe(&mut self, failsafe: bool) -> (options: &mut Self)
        ensures
            options.spec_flags() == frame::spec_set_mode(
                old(self).spec_flags(),
                Start::MODE_FAILSAFE,
                failsafe,
            ),
            *final(self) == *final(options),
    {
        if failsafe {
            self.flags = self.flags | Start::MODE_FAILSAFE;
        } else {
            self.flags = self.flags & !Start::MODE_FAILSAFE;
        }
        self
    }

    /// The session start packet that opens a connection with these options.
    pub fn start_packet(&self, session_name: String) -> (start: Start)
        ensures
            start.spec_flags() == self.spec_flags(),
            start.spec_name() == frame::spec_session_name(session_name@),
            start.wf(),
    {
        Start::new(self.flags, session_name)
    }
}

impl Default for ConnectionOptions {
    fn default() -> (options: Self)
        ensures
            options.spec_flags() == Start::MODE_READ,
    {
        Self::new()
    }
}

/// Turning the bits of `mode` on or off leaves them as asked and every
/// other bit as it was.
proof fn lemma_set_mode_bits(flags: u8, mode: u8, other: u8, on: bool)
    by (bit_vector)
    requires
        mode != 0u8,
        mode & other == 0u8,
    ensures
        ((if on {
            flags | mode
        } else {
            flags & !mode
        }) & mode != 0u8) == on,
        (if on {
            flags | mode
        } else {
            flags & !mode
        }) & other == flags & other,
{
}

/// Each connection option switches its own access flag and no other: after
/// asking for read, write or failsafe access (or not), the start packet
/// reports that access as asked and the other two as before.
pub proof fn lemma_connection_option_independent(flags: u8, on: bool)
    ensures
        (frame::spec_set_mode(flags, Start::MODE_READ, on) & Start::MODE_READ != 0) == on,
        frame::spec_set_mode(flags, Start::MODE_READ, on) & Start::MODE_WRITE == flags
            & Start::MODE_WRITE,
        frame::spec_set_mode(flags, Start::MODE_READ, on) & Start::MODE_FAILSAFE == flags
            & Start::MODE_FAILSAFE,
        (frame::spec_set_mode(flags, Start::MODE_WRITE, on) & Start::MODE_WRITE != 0) == on,
        frame::spec_set_mode(flags, Start::MODE_WRITE, on) & Start::MODE_READ == flags
            & Start::MODE_READ,
        frame::spec_set_mode(flags, Start::MODE_WRITE, on) & Start::MODE_FAILSAFE == flags
            & Start::MODE_FAILSAFE,
        (frame::spec_set_mode(flags, Start::MODE_FAILSAFE, on) & Start::MODE_FAILSAFE != 0) == on,
        frame::spec_set_mode(flags, Start::MODE_FAILSAFE, on) & Start::MODE_READ == flags
            & Start::MODE_READ,
        frame::spec_set_mode(flags, Start::MODE_FAILSAFE, on) & Start::MODE_WRITE == flags
            & Start::MODE_WRITE,
{
    assert(1u8 & 2u8 == 0u8 && 1u8 & 16u8 == 0u8 && 2u8 & 1u8 == 0u8 && 2u8 & 16u8 == 0u8 && 16u8
        & 1u8 == 0u8 && 16u8 & 2u8 == 0u8) by (bit_vector);
    lemma_set_mode_bits(flags, 1, 2, on);
    lemma_set_mode_bits(flags, 1, 16, on);
    lemma_set_mode_bits(flags, 2, 1, on);
    lemma_set_mode_bits(flags, 2, 16, on);
    lemma_set_mode_bits(flags, 16, 1, on);
    lemma_set_mode_bits(flags, 16, 2, on);
}

/// A protocol client over a byte stream.
pub struct Client<T> {
    inner: T,
}

impl<T> Client<T> {
    /// The stream the client talks over.
    pub closed spec fn spec_inner(&self) -> T {
        self.inner
    }

    pub fn new(inner: T) -> (client: Self)
        ensures
            client.spec_inner() == inner,
    {
        Self { inner }
    }

    pub fn inner(&self) -> (inner: &T)
        ensures
            *inner == self.spec_inner(),
    {
        &self.inner
    }

    pub fn inner_mut(&mut self) -> (inner: &mut T)
        ensures
            *inner == old(self).spec_inner(),
            final(self).spec_inner() == *final(inner),
    {
        &mut self.inner
    }
}

} // verus!
