//! Frames and the connection packets they carry.
use vstd::prelude::*;
use vstd::slice::*;
use vstd::string::*;
use vstd::utf8::*;

use crate::buffer::{
    buffer_limit, bytes_as_slice, bytes_mut_contents, bytes_put, bytes_put_u16, bytes_put_u8,
    bytes_to_vec, bytes_with_capacity,
};
use crate::text::{lemma_encode_utf8_len, string_from_utf8_lossy, utf8_lossy};
use super::Packetize;

verus! {

/// First three bytes of every frame: `L`, `X`, `R`.
pub const PROTO_HEADER: [u8; 3] = [0x4C, 0x58, 0x52];
/// Version of the protocol that this library speaks.
pub const PROTO_VERSION: u8 = 0x02;
/// Size of a frame header, and so of the smallest frame.
pub const MIN_BUFFER_SIZE: usize = 10;
/// Largest payload a frame may announce.
pub const MAX_PAYLOAD_SIZE: usize = 1_024;

/// Why a frame header was refused.
#[derive(Debug, PartialEq, Eq, Clone, Copy)]
pub enum FrameError {
    FrameTooSmall,
    InvalidHeader,
    VersionMismatch(u8),
    InvalidMessage(u8),
    ExcessivePayloadLength(usize),
    InvalidPadding,
}

/// Message types that frames carry.
#[derive(Debug, PartialEq, Eq, Clone, Copy, Structural)]
pub enum FrameMessage {
    Null,
    Start,
    Shutdown,
    Request,
    Instance,
    Status,
    Motion,
    Signal,
    Pose,
    VMS,
    GNSS,
    Engine,
    Error,
}

/// The wire code of each message type.
pub open spec fn spec_message_code(message: FrameMessage) -> u8 {
    match message {
        FrameMessage::Null => 0x1,
        FrameMessage::Start => 0x10,
        FrameMessage::Shutdown => 0x11,
        FrameMessage::Request => 0x12,
        FrameMessage::Instance => 0x15,
        FrameMessage::Status => 0x16,
        FrameMessage::Motion => 0x20,
        FrameMessage::Signal => 0x31,
        FrameMessage::Pose => 0x40,
        FrameMessage::VMS => 0x41,
        FrameMessage::GNSS => 0x42,
        FrameMessage::Engine => 0x43,
        FrameMessage::Error => 0xFF,
    }
}

/// The message type a wire code stands for, if any.
pub open spec fn spec_message_from_code(value: u8) -> Option<FrameMessage> {
    if value == 0x1 {
        Some(FrameMessage::Null)
    } else if value == 0x10 {
        Some(FrameMessage::Start)
    } else if value == 0x11 {
        Some(FrameMessage::Shutdown)
    } else if value == 0x12 {
        Some(FrameMessage::Request)
    } else if value == 0x15 {
        Some(FrameMessage::Instance)
    } else if value == 0x16 {
        Some(FrameMessage::Status)
    } else if value == 0x20 {
        Some(FrameMessage::Motion)
    } else if value == 0x31 {
        Some(FrameMessage::Signal)
    } else if value == 0x40 {
        Some(FrameMessage::Pose)
    } else if value == 0x41 {
        Some(FrameMessage::VMS)
    } else if value == 0x42 {
        Some(FrameMessage::GNSS)
    } else if value == 0x43 {
        Some(FrameMessage::Engine)
    } else if value == 0xFF {
        Some(FrameMessage::Error)
    } else {
        None
    }
}

impl FrameMessage {
    pub fn from_u8(value: u8) -> (message: Option<Self>)
        ensures
            message == spec_message_from_code(value),
    {
        match value {
            0x1 => Some(Self::Null),
            0x10 => Some(Self::Start),
            0x11 => Some(Self::Shutdown),
            0x12 => Some(Self::Request),
            0x15 => Some(Self::Instance),
            0x16 => Some(Self::Status),
            0x20 => Some(Self::Motion),
            0x31 => Some(Self::Signal),
            0x40 => Some(Self::Pose),
            0x41 => Some(Self::VMS),
            0x42 => Some(Self::GNSS),
            0x43 => Some(Self::Engine),
            0xFF => Some(Self::Error),
            _ => None,
        }
    }

    pub fn to_u8(&self) -> (value: u8)
        ensures
            value == spec_message_code(*self),
    {
        match self {
            Self::Null => 0x1,
            Self::Start => 0x10,
            Self::Shutdown => 0x11,
            Self::Request => 0x12,
            Self::Instance => 0x15,
            Self::Status => 0x16,
            Self::Motion => 0x20,
            Self::Signal => 0x31,
            Self::Pose => 0x40,
            Self::VMS => 0x41,
            Self::GNSS => 0x42,
            Self::Engine => 0x43,
            Self::Error => 0xFF,
        }
    }
}

/// Every message type reads back from its own wire code.
pub proof fn lemma_message_code_roundtrip(message: FrameMessage)
    ensures
        spec_message_from_code(spec_message_code(message)) == Some(message),
{
}

/// A wire code that names a message type is that type's code: no two
/// message types share a code.
pub proof fn lemma_message_code_unique(value: u8)
    ensures
        spec_message_from_code(value) matches Some(message) ==> spec_message_code(message)
            == value,
{
}

/// The payload length as the header carries it: two bytes, so lengths
/// are taken modulo 65536.
pub open spec fn spec_wire_length(payload_length: usize) -> int {
    payload_length as int % 65536
}

/// The header of a frame for `message` announcing `payload_length` bytes.
pub open spec fn spec_header(message: FrameMessage, payload_length: usize) -> Seq<u8> {
    seq![
        0x4Cu8,
        0x58u8,
        0x52u8,
        PROTO_VERSION,
        spec_message_code(message),
        (spec_wire_length(payload_length) / 256) as u8,
        (spec_wire_length(payload_length) % 256) as u8,
        0u8,
        0u8,
        0u8,
    ]
}

/// The payload length a header announces.
pub open spec fn spec_announced_length(buffer: Seq<u8>) -> int {
    buffer[5] as int * 256 + buffer[6] as int
}

/// What reading a frame header from `buffer` gives: the message type and
/// payload length, or the first check that fails.
pub open spec fn spec_decode_header(buffer: Seq<u8>) -> Result<(FrameMessage, usize), FrameError> {
    if buffer.len() < MIN_BUFFER_SIZE {
        Err(FrameError::FrameTooSmall)
    } else if buffer[0] != 0x4C || buffer[1] != 0x58 || buffer[2] != 0x52 {
        Err(FrameError::InvalidHeader)
    } else if buffer[3] != PROTO_VERSION {
        Err(FrameError::VersionMismatch(buffer[3]))
    } else if spec_message_from_code(buffer[4]) is None {
        Err(FrameError::InvalidMessage(buffer[4]))
    } else if spec_announced_length(buffer) > MAX_PAYLOAD_SIZE {
        Err(FrameError::ExcessivePayloadLength(spec_announced_length(buffer) as usize))
    } else if buffer[7] != 0 || buffer[8] != 0 || buffer[9] != 0 {
        Err(FrameError::InvalidPadding)
    } else {
        Ok((spec_message_from_code(buffer[4]).unwrap(), spec_announced_length(buffer) as usize))
    }
}

/// A header written for a payload within the protocol's limit reads back
/// as the same message type and length, whatever follows it.
pub proof fn lemma_header_roundtrip(message: FrameMessage, payload_length: usize, rest: Seq<u8>)
    requires
        payload_length <= MAX_PAYLOAD_SIZE,
    ensures
        spec_decode_header(spec_header(message, payload_length) + rest) == Ok::<
            (FrameMessage, usize),
            FrameError,
        >((message, payload_length)),
{
    let wire = spec_header(message, payload_length) + rest;
    assert(wire[4] == spec_message_code(message));
    assert(spec_announced_length(wire) == payload_length);
}

/// A frame under construction: its header, then whatever payload has been
/// put after it.
pub struct Frame {
    buffer: bytes::BytesMut,
    pub message: FrameMessage,
    pub payload_length: usize,
}

impl Frame {
    /// The bytes of the frame so far.
    pub closed spec fn spec_bytes(&self) -> Seq<u8> {
        bytes_mut_contents(self.buffer)
    }

    /// The message type of the frame.
    pub closed spec fn spec_message(&self) -> FrameMessage {
        self.message
    }

    /// The payload length the frame announces.
    pub closed spec fn spec_payload_length(&self) -> usize {
        self.payload_length
    }

    /// Starts a frame for `message` with a payload of `payload_length` bytes.
    /// Room for the whole frame is reserved at once, so header and payload
    /// together must be a length that a buffer can hold.
    pub fn new(message: FrameMessage, payload_length: usize) -> (frame: Self)
        requires
            MIN_BUFFER_SIZE + payload_length <= buffer_limit(),
        ensures
            frame.spec_message() == message,
            frame.spec_payload_length() == payload_length,
            frame.spec_bytes() == spec_header(message, payload_length),
    {
        let mut buffer = bytes_with_capacity(MIN_BUFFER_SIZE + payload_length);
        let header: [u8; 3] = PROTO_HEADER;
        bytes_put(&mut buffer, header.as_slice());
        bytes_put_u8(&mut buffer, PROTO_VERSION);
        bytes_put_u8(&mut buffer, message.to_u8());
        let length = #[verifier::truncate] (payload_length as u16);
        assert(length == payload_length % 65536) by (bit_vector)
            requires
                length == #[verifier::truncate] (payload_length as u16),
        ;
        bytes_put_u16(&mut buffer, length);
        let padding: [u8; 3] = [0u8; 3];
        bytes_put(&mut buffer, padding.as_slice());
        assert(bytes_mut_contents(buffer) =~= spec_header(message, payload_length));
        Self { buffer, message, payload_length }
    }

    /// The message type of the frame.
    pub fn message(&self) -> (message: FrameMessage)
        ensures
            message == self.spec_message(),
    {
        self.message
    }

    /// The payload length the frame announces.
    pub fn payload_length(&self) -> (payload_length: usize)
        ensures
            payload_length == self.spec_payload_length(),
    {
        self.payload_length
    }

    /// Appends payload bytes to the frame.
    pub fn put(&mut self, payload: &[u8])
        requires
            old(self).spec_bytes().len() + payload@.len() <= buffer_limit(),
        ensures
            final(self).spec_bytes() == old(self).spec_bytes() + payload@,
            final(self).spec_message() == old(self).spec_message(),
            final(self).spec_payload_length() == old(self).spec_payload_length(),
    {
        bytes_put(&mut self.buffer, payload);
    }

    /// Where the payload sits in a received frame.
    pub fn payload_range(&self) -> (range: std::ops::Range<usize>)
        requires
            self.spec_payload_length() <= usize::MAX - MIN_BUFFER_SIZE,
        ensures
            range.start == MIN_BUFFER_SIZE,
            range.end == MIN_BUFFER_SIZE + self.spec_payload_length(),
    {
        MIN_BUFFER_SIZE..MIN_BUFFER_SIZE + self.payload_length
    }

    /// The bytes of the frame so far.
    pub fn as_slice(&self) -> (bytes: &[u8])
        ensures
            bytes@ == self.spec_bytes(),
    {
        bytes_as_slice(&self.buffer)
    }

    /// The bytes of the frame so far, copied out.
    pub fn to_vec(&self) -> (bytes: Vec<u8>)
        ensures
            bytes@ == self.spec_bytes(),
    {
        bytes_to_vec(&self.buffer)
    }

    /// Reads a frame header; the frame it gives holds that header again.
    pub fn try_from(buffer: &[u8]) -> (frame: Result<Self, FrameError>)
        ensures
            match (frame, spec_decode_header(buffer@)) {
                (Ok(frame), Ok((message, payload_length))) => {
                    &&& frame.spec_message() == message
                    &&& frame.spec_payload_length() == payload_length
                    &&& frame.spec_bytes() == spec_header(message, payload_length)
                },
                (Err(e), Err(expected)) => e == expected,
                _ => false,
            },
    {
        if buffer.len() < MIN_BUFFER_SIZE {
            return Err(FrameError::FrameTooSmall);
        }
        if buffer[0] != 0x4C || buffer[1] != 0x58 || buffer[2] != 0x52 {
            return Err(FrameError::InvalidHeader);
        }
        let version = buffer[3];
        if version != PROTO_VERSION {
            return Err(FrameError::VersionMismatch(version));
        }
        let message = match FrameMessage::from_u8(buffer[4]) {
            Some(message) => message,
            None => {
                return Err(FrameError::InvalidMessage(buffer[4]));
            },
        };
        let payload_length = (buffer[5] as usize) * 256 + (buffer[6] as usize);
        if payload_length > MAX_PAYLOAD_SIZE {
            return Err(FrameError::ExcessivePayloadLength(payload_length));
        }
        if buffer[7] != 0 || buffer[8] != 0 || buffer[9] != 0 {
            return Err(FrameError::InvalidPadding);
        }
        Ok(Self::new(message, payload_length))
    }
}

impl AsRef<[u8]> for Frame {
    fn as_ref(&self) -> (bytes: &[u8])
        ensures
            bytes@ == self.spec_bytes(),
    {
        self.as_slice()
    }
}

/// Reading accepts exactly the headers that a frame writes: a buffer reads
/// as `message` with `payload_length` if and only if it holds at least a
/// header, its first ten bytes are the header written for that message and
/// length, and the length is within the protocol's limit.
pub proof fn lemma_decode_accepts_written_headers(
    buffer: Seq<u8>,
    message: FrameMessage,
    payload_length: usize,
)
    ensures
        spec_decode_header(buffer) == Ok::<(FrameMessage, usize), FrameError>(
            (message, payload_length),
        ) <==> (buffer.len() >= MIN_BUFFER_SIZE && buffer.take(MIN_BUFFER_SIZE as int)
            == spec_header(message, payload_length) && payload_length <= MAX_PAYLOAD_SIZE),
{
    if buffer.len() >= MIN_BUFFER_SIZE && buffer.take(MIN_BUFFER_SIZE as int) == spec_header(
        message,
        payload_length,
    ) && payload_length <= MAX_PAYLOAD_SIZE {
        let rest = buffer.skip(MIN_BUFFER_SIZE as int);
        assert(buffer =~= spec_header(message, payload_length) + rest);
        lemma_header_roundtrip(message, payload_length, rest);
    }
    if spec_decode_header(buffer) == Ok::<(FrameMessage, usize), FrameError>(
        (message, payload_length),
    ) {
        lemma_message_code_unique(buffer[4]);
        let n = spec_announced_length(buffer);
        assert(n == payload_length);
        assert(spec_wire_length(payload_length) == n);
        assert(buffer.take(MIN_BUFFER_SIZE as int) =~= spec_header(message, payload_length));
    }
}

/// A frame started for `message` with a payload length within the
/// protocol's limit reads back as that message type and length, whatever
/// payload has been put after its header: reading looks at the ten header
/// bytes alone, and the frame it gives holds exactly those bytes.
pub proof fn lemma_frame_roundtrip(
    frame: Frame,
    message: FrameMessage,
    payload_length: usize,
    payload: Seq<u8>,
)
    requires
        frame.spec_message() == message,
        frame.spec_payload_length() == payload_length,
        frame.spec_bytes() == spec_header(message, payload_length) + payload,
        payload_length <= MAX_PAYLOAD_SIZE,
    ensures
        spec_decode_header(frame.spec_bytes()) == Ok::<(FrameMessage, usize), FrameError>(
            (message, payload_length),
        ),
        frame.spec_bytes().take(MIN_BUFFER_SIZE as int) == spec_header(message, payload_length),
{
    lemma_header_roundtrip(message, payload_length, payload);
    assert(frame.spec_bytes().take(MIN_BUFFER_SIZE as int) =~= spec_header(
        message,
        payload_length,
    ));
}

/// The flags after turning the bits of `mode` on or off.
pub open spec fn spec_set_mode(flags: u8, mode: u8, on: bool) -> u8 {
    if on {
        flags | mode
    } else {
        flags & !mode
    }
}

/// Longest session name, in characters, that a start packet keeps.
pub const MAX_SESSION_NAME: usize = 64;

/// The session name a start packet keeps: the first 64 characters.
pub open spec fn spec_session_name(name: Seq<char>) -> Seq<char> {
    if name.len() <= MAX_SESSION_NAME {
        name
    } else {
        name.take(MAX_SESSION_NAME as int)
    }
}

/// The packet that opens a session: the access the client asks for and the
/// name of the session.
pub struct Start {
    flags: u8,
    name: String,
}

impl Start {
    pub const MODE_READ: u8 = 0b0000_0001;
    pub const MODE_WRITE: u8 = 0b0000_0010;
    pub const MODE_FAILSAFE: u8 = 0b0001_0000;

    #[verifier::type_invariant]
    spec fn name_fits(&self) -> bool {
        self.name@.len() <= MAX_SESSION_NAME
    }

    /// The access flags of the session.
    pub closed spec fn spec_flags(&self) -> u8 {
        self.flags
    }

    /// The name of the session.
    pub closed spec fn spec_name(&self) -> Seq<char> {
        self.name@
    }

    /// Every start packet holds a name of at most 64 characters.
    pub open spec fn wf(&self) -> bool {
        self.spec_name().len() <= MAX_SESSION_NAME
    }

    pub fn new(mode: u8, name: String) -> (start: Self)
        ensures
            start.spec_flags() == mode,
            start.spec_name() == spec_session_name(name@),
            start.wf(),
    {
        let length = name.as_str().unicode_len();
        let keep = if length < MAX_SESSION_NAME {
            length
        } else {
            MAX_SESSION_NAME
        };
        let kept = name.as_str().substring_char(0, keep);
        let start = Self { flags: mode, name: kept.to_owned() };
        assert(start.name@ =~= spec_session_name(name@));
        start
    }

    #[inline]
    pub fn is_read(&self) -> (read: bool)
        ensures
            read == (self.spec_flags() & Self::MODE_READ != 0),
    {
        self.flags & Self::MODE_READ != 0
    }

    #[inline]
    pub fn is_write(&self) -> (write: bool)
        ensures
            write == (self.spec_flags() & Self::MODE_WRITE != 0),
    {
        self.flags & Self::MODE_WRITE != 0
    }

    #[inline]
    pub fn is_failsafe(&self) -> (failsafe: bool)
        ensures
            failsafe == (self.spec_flags() & Self::MODE_FAILSAFE != 0),
    {
        self.flags & Self::MODE_FAILSAFE != 0
    }

    #[inline]
    pub fn name(&self) -> (name: &str)
        ensures
            name@ == self.spec_name(),
    {
        self.name.as_str()
    }

    /// The session as it is shown: its name, then the letters of the access
    /// it asks for (R, W, F) in parentheses.
    pub fn to_string(&self) -> (text: String)
        ensures
            text@ == spec_start_text(self.spec_name(), self.spec_flags()),
    {
        proof {
            reveal_strlit(" (");
            reveal_strlit("R");
            reveal_strlit("W");
            reveal_strlit("F");
            reveal_strlit(")");
        }
        let mut text = self.name.clone();
        text.append(" (");
        if self.is_read() {
            text.append("R");
        }
        if self.is_write() {
            text.append("W");
        }
        if self.is_failsafe() {
            text.append("F");
        }
        text.append(")");
        assert(text@ =~= spec_start_text(self.spec_name(), self.spec_flags()));
        text
    }
}

/// A session as it is shown: `name (RWF)`, with a letter for each access
/// asked for.
pub open spec fn spec_start_text(name: Seq<char>, flags: u8) -> Seq<char> {
    name + seq![' ', '('] + (if flags & Start::MODE_READ != 0 {
        seq!['R']
    } else {
        Seq::empty()
    }) + (if flags & Start::MODE_WRITE != 0 {
        seq!['W']
    } else {
        Seq::empty()
    }) + (if flags & Start::MODE_FAILSAFE != 0 {
        seq!['F']
    } else {
        Seq::empty()
    }) + seq![')']
}

impl Packetize for Start {
    const MESSAGE: FrameMessage = FrameMessage::Start;

    open spec fn spec_message_size() -> Option<usize> {
        None
    }

    /// The flags byte followed by the UTF-8 bytes of the name.
    open spec fn spec_payload(&self) -> Seq<u8> {
        seq![self.spec_flags()] + encode_utf8(self.spec_name())
    }

    open spec fn payload_decodable(payload: Seq<u8>) -> bool {
        payload.len() >= 1
    }

    fn can_decode(payload: &Vec<u8>) -> (decodable: bool) {
        payload.len() >= 1
    }

    fn message_size() -> (size: Option<usize>) {
        None
    }

    fn to_bytes(&self) -> (bytes: Vec<u8>) {
        proof {
            use_type_invariant(self);
            lemma_encode_utf8_len(self.name@);
        }
        let name_bytes = self.name.as_str().as_bytes();
        let mut buf = bytes_with_capacity(1 + name_bytes.len());
        bytes_put_u8(&mut buf, self.flags);
        bytes_put(&mut buf, name_bytes);
        let bytes = bytes_to_vec(&buf);
        assert(bytes@ =~= seq![self.flags] + encode_utf8(self.name@));
        bytes
    }

    fn try_from_payload(payload: Vec<u8>) -> (start: Result<Self, FrameError>)
        ensures
            start matches Ok(start) && start.spec_flags() == payload@[0] && start.spec_name()
                == spec_session_name(utf8_lossy(payload@.drop_first())) && start.wf() && (valid_utf8(
                payload@.drop_first()) ==> start.spec_name() == spec_session_name(
                decode_utf8(payload@.drop_first()),
            )),
    {
        let flags = payload[0];
        let rest = slice_subrange(payload.as_slice(), 1, payload.len());
        assert(rest@ =~= payload@.drop_first());
        let name = string_from_utf8_lossy(rest);
        Ok(Self::new(flags, name))
    }
}

/// A start packet read back from its own bytes keeps its flags and name:
/// the bytes after the flags are valid UTF-8 and decode to the name, which
/// is short enough to be kept whole.
pub proof fn lemma_start_roundtrip(flags: u8, name: Seq<char>)
    requires
        name.len() <= MAX_SESSION_NAME,
    ensures
        (seq![flags] + encode_utf8(name))[0] == flags,
        valid_utf8((seq![flags] + encode_utf8(name)).drop_first()),
        spec_session_name(decode_utf8((seq![flags] + encode_utf8(name)).drop_first())) == name,
{
    assert((seq![flags] + encode_utf8(name)).drop_first() =~= encode_utf8(name));
    encode_utf8_decode_utf8(name);
    encode_utf8_valid_utf8(name);
}

/// A request for the runtime to send a message of some type.
pub struct Request {
    message: FrameMessage,
}

impl Request {
    /// The message type requested.
    pub closed spec fn spec_message(&self) -> FrameMessage {
        self.message
    }

    pub fn new(message: FrameMessage) -> (request: Self)
        ensures
            request.spec_message() == message,
    {
        Self { message }
    }

    #[inline]
    pub fn message(&self) -> (message: &FrameMessage)
        ensures
            *message == self.spec_message(),
    {
        &self.message
    }
}

/// A request read back from its own bytes asks for the same message type.
pub proof fn lemma_request_roundtrip(request: Request)
    ensures
        request.spec_payload().len() == 1,
        spec_message_from_code(request.spec_payload()[0]) == Some(request.spec_message()),
{
    lemma_message_code_roundtrip(request.spec_message());
}

impl Packetize for Request {
    const MESSAGE: FrameMessage = FrameMessage::Request;

    open spec fn spec_message_size() -> Option<usize> {
        Some(1)
    }

    /// The wire code of the requested message type.
    open spec fn spec_payload(&self) -> Seq<u8> {
        seq![spec_message_code(self.spec_message())]
    }

    open spec fn payload_decodable(payload: Seq<u8>) -> bool {
        payload.len() >= 1
    }

    fn can_decode(payload: &Vec<u8>) -> (decodable: bool) {
        payload.len() >= 1
    }

    fn message_size() -> (size: Option<usize>) {
        Some(1)
    }

    fn to_bytes(&self) -> (bytes: Vec<u8>) {
        let bytes = vec![self.message.to_u8()];
        assert(bytes@ =~= seq![spec_message_code(self.message)]);
        bytes
    }

    fn try_from_payload(payload: Vec<u8>) -> (request: Result<Self, FrameError>)
        ensures
            match spec_message_from_code(payload@[0]) {
                Some(message) => request matches Ok(request) && request.spec_message() == message,
                None => request == Err::<Self, FrameError>(FrameError::InvalidMessage(payload@[0])),
            },
    {
        match FrameMessage::from_u8(payload[0]) {
            Some(message) => Ok(Self::new(message)),
            None => Err(FrameError::InvalidMessage(payload[0])),
        }
    }
}

/// The packet that ends a session; it carries no data.
pub struct Shutdown;

impl Shutdown {
    pub fn to_bytes(&self) -> (bytes: Vec<u8>)
        ensures
            bytes@ == Seq::<u8>::empty(),
    {
        Vec::new()
    }
}

impl Packetize for Shutdown {
    const MESSAGE: FrameMessage = FrameMessage::Shutdown;

    open spec fn spec_message_size() -> Option<usize> {
        Some(0)
    }

    open spec fn spec_payload(&self) -> Seq<u8> {
        Seq::empty()
    }

    open spec fn payload_decodable(payload: Seq<u8>) -> bool {
        true
    }

    fn can_decode(payload: &Vec<u8>) -> (decodable: bool) {
        true
    }

    fn message_size() -> (size: Option<usize>) {
        Some(0)
    }

    fn to_bytes(&self) -> (bytes: Vec<u8>) {
        Vec::new()
    }

    fn try_from_payload(payload: Vec<u8>) -> (shutdown: Result<Self, FrameError>)
        ensures
            shutdown is Ok,
    {
        Ok(Self)
    }
}

/// A packet that carries no data; the runtime answers it in kind.
pub struct Null;

impl Null {
    pub fn to_bytes(&self) -> (bytes: Vec<u8>)
        ensures
            bytes@ == Seq::<u8>::empty(),
    {
        Vec::new()
    }
}

impl Packetize for Null {
    const MESSAGE: FrameMessage = FrameMessage::Null;

    open spec fn spec_message_size() -> Option<usize> {
        Some(0)
    }

    open spec fn spec_payload(&self) -> Seq<u8> {
        Seq::empty()
    }

    open spec fn payload_decodable(payload: Seq<u8>) -> bool {
        true
    }

    fn can_decode(payload: &Vec<u8>) -> (decodable: bool) {
        true
    }

    fn message_size() -> (size: Option<usize>) {
        Some(0)
    }

    fn to_bytes(&self) -> (bytes: Vec<u8>) {
        Vec::new()
    }

    fn try_from_payload(payload: Vec<u8>) -> (null: Result<Self, FrameError>)
        ensures
            null is Ok,
    {
        Ok(Self)
    }
}

} // verus!
