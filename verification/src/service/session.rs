//! How the servers treat a client session: where each incoming message
//! goes, which signals the client is sent, and how the session ends.
//!
//! The servers read frames and packets and pass them on; what they do with
//! each is decided here, from the kind of message and what the session has
//! been granted.
use vstd::prelude::*;

verus! {

/// What a client's session has been granted.
#[derive(Copy, Clone, Debug, PartialEq, Eq, Structural)]
pub struct SessionAccess {
    /// May operate the machine (engine, hydraulics, lights, ...).
    pub control: bool,
    /// May send motion and target commands.
    pub command: bool,
    /// Receives the runtime's signals as they happen.
    pub stream: bool,
    /// Wants all motion stopped when the connection is lost.
    pub failsafe: bool,
}

impl SessionAccess {
    /// The session every connection starts with: nothing granted.
    pub fn anonymous() -> (access: Self)
        ensures
            access == spec_anonymous(),
    {
        Self { control: false, command: false, stream: false, failsafe: false }
    }
}

/// Nothing granted.
pub open spec fn spec_anonymous() -> SessionAccess {
    SessionAccess { control: false, command: false, stream: false, failsafe: false }
}

/// What a server does with a message it accepts.
#[derive(Copy, Clone, Debug, PartialEq, Eq, Structural)]
pub enum Route {
    /// Take the session packet as the new session and answer with the
    /// machine instance.
    StartSession,
    /// Send the packet straight back.
    EchoBack,
    /// Answer with the object the request names.
    Answer,
    /// Close the connection at the client's wish.
    Close,
    /// Hand the packet to the command channel.
    Command,
    /// Hand the packet to the inter-process queue.
    Queue,
    /// Apply the packet to the machine state.
    Apply,
    /// Read the packet and drop it.
    Drop,
}

/// Why a server refused a message.
#[derive(Copy, Clone, Debug, PartialEq, Eq, Structural)]
pub enum SessionError {
    UnauthorizedControl,
    UnauthorizedCommand,
    UnknownMessage(u8),
}

/// The messages the TCP server knows.
#[derive(Copy, Clone, Debug, PartialEq, Eq, Structural)]
pub enum TcpMessage {
    Session,
    Echo,
    Engine,
    Motion,
    Target,
    Control,
    /// Any other message type, by its wire code.
    Other(u8),
}

/// How the TCP server treats a message: engine and control messages need
/// control access, motion and target messages need command access; engine
/// and target messages go to the queue, motion and control messages to the
/// command channel; other messages are refused.
pub open spec fn spec_tcp_route(message: TcpMessage, access: SessionAccess) -> Result<
    Route,
    SessionError,
> {
    match message {
        TcpMessage::Session => Ok(Route::StartSession),
        TcpMessage::Echo => Ok(Route::EchoBack),
        TcpMessage::Engine => if access.control {
            Ok(Route::Queue)
        } else {
            Err(SessionError::UnauthorizedControl)
        },
        TcpMessage::Motion => if access.command {
            Ok(Route::Command)
        } else {
            Err(SessionError::UnauthorizedCommand)
        },
        TcpMessage::Target => if access.command {
            Ok(Route::Queue)
        } else {
            Err(SessionError::UnauthorizedCommand)
        },
        TcpMessage::Control => if access.control {
            Ok(Route::Command)
        } else {
            Err(SessionError::UnauthorizedControl)
        },
        TcpMessage::Other(code) => Err(SessionError::UnknownMessage(code)),
    }
}

/// Decides what the TCP server does with a message.
pub fn tcp_route(message: TcpMessage, access: SessionAccess) -> (route: Result<Route, SessionError>)
    ensures
        route == spec_tcp_route(message, access),
{
    match message {
        TcpMessage::Session => Ok(Route::StartSession),
        TcpMessage::Echo => Ok(Route::EchoBack),
        TcpMessage::Engine => if access.control {
            Ok(Route::Queue)
        } else {
            Err(SessionError::UnauthorizedControl)
        },
        TcpMessage::Motion => if access.command {
            Ok(Route::Command)
        } else {
            Err(SessionError::UnauthorizedCommand)
        },
        TcpMessage::Target => if access.command {
            Ok(Route::Queue)
        } else {
            Err(SessionError::UnauthorizedCommand)
        },
        TcpMessage::Control => if access.control {
            Ok(Route::Command)
        } else {
            Err(SessionError::UnauthorizedControl)
        },
        TcpMessage::Other(code) => Err(SessionError::UnknownMessage(code)),
    }
}

/// The messages the Unix socket server knows.
#[derive(Copy, Clone, Debug, PartialEq, Eq, Structural)]
pub enum UnixMessage {
    Session,
    Engine,
    Motion,
    Target,
    Control,
    /// Any other message type, by its wire code.
    Other(u8),
}

/// How the Unix socket server treats a message: local clients are trusted,
/// so engine, motion, target and control messages all go to the command
/// channel; other messages are refused.
pub open spec fn spec_unix_route(message: UnixMessage) -> Result<Route, SessionError> {
    match message {
        UnixMessage::Session => Ok(Route::StartSession),
        UnixMessage::Other(code) => Err(SessionError::UnknownMessage(code)),
        _ => Ok(Route::Command),
    }
}

/// Decides what the Unix socket server does with a message.
pub fn unix_route(message: UnixMessage) -> (route: Result<Route, SessionError>)
    ensures
        route == spec_unix_route(message),
{
    match message {
        UnixMessage::Session => Ok(Route::StartSession),
        UnixMessage::Other(code) => Err(SessionError::UnknownMessage(code)),
        _ => Ok(Route::Command),
    }
}

/// The messages the machine server knows.
#[derive(Copy, Clone, Debug, PartialEq, Eq, Structural)]
pub enum MachineMessage {
    Request,
    Session,
    Echo,
    Shutdown,
    Motion,
    Target,
    Control,
    /// Any other message type, by its wire code.
    Other(u8),
}

/// How the machine server treats a message: motion goes to the command
/// channel, targets to the queue and control requests to the machine
/// state, all only for a session with control access; without it, and for
/// unknown messages, the packet is dropped.
pub open spec fn spec_machine_route(message: MachineMessage, access: SessionAccess) -> Route {
    match message {
        MachineMessage::Request => Route::Answer,
        MachineMessage::Session => Route::StartSession,
        MachineMessage::Echo => Route::EchoBack,
        MachineMessage::Shutdown => Route::Close,
        MachineMessage::Motion => if access.control {
            Route::Command
        } else {
            Route::Drop
        },
        MachineMessage::Target => if access.control {
            Route::Queue
        } else {
            Route::Drop
        },
        MachineMessage::Control => if access.control {
            Route::Apply
        } else {
            Route::Drop
        },
        MachineMessage::Other(_) => Route::Drop,
    }
}

/// Decides what the machine server does with a message.
pub fn machine_route(message: MachineMessage, access: SessionAccess) -> (route: Route)
    ensures
        route == spec_machine_route(message, access),
{
    match message {
        MachineMessage::Request => Route::Answer,
        MachineMessage::Session => Route::StartSession,
        MachineMessage::Echo => Route::EchoBack,
        MachineMessage::Shutdown => Route::Close,
        MachineMessage::Motion => if access.control {
            Route::Command
        } else {
            Route::Drop
        },
        MachineMessage::Target => if access.control {
            Route::Queue
        } else {
            Route::Drop
        },
        MachineMessage::Control => if access.control {
            Route::Apply
        } else {
            Route::Drop
        },
        MachineMessage::Other(_) => Route::Drop,
    }
}

/// Whether the machine server stops all motion when a session ends: only
/// for a session with control and failsafe access that the client did not
/// close itself.
pub fn machine_failsafe_on_end(access: SessionAccess, client_shutdown: bool) -> (stop: bool)
    ensures
        stop == (!client_shutdown && access.control && access.failsafe),
{
    !client_shutdown && access.control && access.failsafe
}

/// The signals the runtime publishes to sessions.
#[derive(Copy, Clone, Debug, PartialEq, Eq, Structural)]
pub enum SignalKind {
    Engine,
    Gnss,
    Host,
    Motion,
    Rotator,
    ModuleStatus,
    Encoder,
    Other,
}

/// The TCP server sends streaming sessions engine, GNSS, host and motion
/// signals.
pub open spec fn spec_tcp_forwards(access: SessionAccess, signal: SignalKind) -> bool {
    access.stream && (signal == SignalKind::Engine || signal == SignalKind::Gnss || signal
        == SignalKind::Host || signal == SignalKind::Motion)
}

/// Whether the TCP server sends a signal to a session.
pub fn tcp_forwards(access: SessionAccess, signal: SignalKind) -> (send: bool)
    ensures
        send == spec_tcp_forwards(access, signal),
{
    access.stream && match signal {
        SignalKind::Engine | SignalKind::Gnss | SignalKind::Host | SignalKind::Motion => true,
        _ => false,
    }
}

/// The Unix socket server sends streaming sessions engine, GNSS, motion,
/// rotator and module status signals.
pub open spec fn spec_unix_forwards(access: SessionAccess, signal: SignalKind) -> bool {
    access.stream && (signal == SignalKind::Engine || signal == SignalKind::Gnss || signal
        == SignalKind::Motion || signal == SignalKind::Rotator || signal
        == SignalKind::ModuleStatus)
}

/// Whether the Unix socket server sends a signal to a session.
pub fn unix_forwards(access: SessionAccess, signal: SignalKind) -> (send: bool)
    ensures
        send == spec_unix_forwards(access, signal),
{
    access.stream && match signal {
        SignalKind::Engine
        | SignalKind::Gnss
        | SignalKind::Motion
        | SignalKind::Rotator
        | SignalKind::ModuleStatus => true,
        _ => false,
    }
}

/// How reading the next frame failed.
#[derive(Copy, Clone, Debug, PartialEq, Eq, Structural)]
pub enum ReadFailure {
    /// The client closed the connection.
    UnexpectedEof,
    ConnectionReset,
    TimedOut,
    ConnectionAborted,
    /// Any other error.
    Other,
}

/// What a server does after a failed read.
#[derive(Copy, Clone, Debug, PartialEq, Eq, Structural)]
pub enum SessionStep {
    /// Keep serving the session.
    Continue,
    /// Shut the connection down in good order and end the session.
    Shutdown,
    /// End the session; stop all motion first if `failsafe`.
    Lost { failsafe: bool },
}

/// What the TCP server does after a failed read: the client closing the
/// connection ends the session in good order; a reset, time-out or abort
/// ends it as lost, enacting the failsafe if the session asked for it; any
/// other error is only reported.
pub open spec fn spec_tcp_on_read_failure(failure: ReadFailure, access: SessionAccess) -> SessionStep {
    match failure {
        ReadFailure::UnexpectedEof => SessionStep::Shutdown,
        ReadFailure::Other => SessionStep::Continue,
        _ => SessionStep::Lost { failsafe: access.failsafe },
    }
}

/// Decides how the TCP server goes on after a failed read.
pub fn tcp_on_read_failure(failure: ReadFailure, access: SessionAccess) -> (step: SessionStep)
    ensures
        step == spec_tcp_on_read_failure(failure, access),
{
    match failure {
        ReadFailure::UnexpectedEof => SessionStep::Shutdown,
        ReadFailure::Other => SessionStep::Continue,
        _ => SessionStep::Lost { failsafe: access.failsafe },
    }
}

/// What the Unix socket server does after a failed read: closing ends the
/// session in good order, a reset, time-out or abort ends it, any other
/// error is only reported. The failsafe is not enacted here but when the
/// session ends, however it ended (see [`unix_failsafe_on_end`]).
pub open spec fn spec_unix_on_read_failure(failure: ReadFailure) -> SessionStep {
    match failure {
        ReadFailure::UnexpectedEof => SessionStep::Shutdown,
        ReadFailure::Other => SessionStep::Continue,
        _ => SessionStep::Lost { failsafe: false },
    }
}

/// Decides how the Unix socket server goes on after a failed read.
pub fn unix_on_read_failure(failure: ReadFailure) -> (step: SessionStep)
    ensures
        step == spec_unix_on_read_failure(failure),
{
    match failure {
        ReadFailure::UnexpectedEof => SessionStep::Shutdown,
        ReadFailure::Other => SessionStep::Continue,
        _ => SessionStep::Lost { failsafe: false },
    }
}

/// Whether the Unix socket server stops all motion when a session ends,
/// however it ended.
pub fn unix_failsafe_on_end(access: SessionAccess) -> (stop: bool)
    ensures
        stop == access.failsafe,
{
    access.failsafe
}

/// A session that has been granted nothing can neither operate nor command
/// the machine: the TCP server refuses its engine, motion, target and
/// control messages, and the machine server drops them.
pub proof fn lemma_anonymous_session_is_powerless(tcp: TcpMessage, machine: MachineMessage)
    ensures
        spec_tcp_route(tcp, spec_anonymous()) matches Ok(route) ==> route == Route::StartSession
            || route == Route::EchoBack,
        spec_machine_route(machine, spec_anonymous()) != Route::Command,
        spec_machine_route(machine, spec_anonymous()) != Route::Queue,
        spec_machine_route(machine, spec_anonymous()) != Route::Apply,
{
}

/// A TCP session that asked for the failsafe and loses its connection
/// (reset, time-out or abort) stops all motion; one that the client closes
/// in good order never does.
pub proof fn lemma_tcp_failsafe(failure: ReadFailure, access: SessionAccess)
    ensures
        access.failsafe && failure != ReadFailure::UnexpectedEof && failure != ReadFailure::Other
            ==> spec_tcp_on_read_failure(failure, access) == (SessionStep::Lost {
            failsafe: true,
        }),
        failure == ReadFailure::UnexpectedEof ==> spec_tcp_on_read_failure(failure, access)
            == SessionStep::Shutdown,
        !access.failsafe ==> spec_tcp_on_read_failure(failure, access) != (SessionStep::Lost {
            failsafe: true,
        }),
{
}

/// Signals reach only sessions that asked for the stream.
pub proof fn lemma_no_stream_no_signals(access: SessionAccess, signal: SignalKind)
    requires
        !access.stream,
    ensures
        !spec_tcp_forwards(access, signal),
        !spec_unix_forwards(access, signal),
{
}

/// A streaming TCP session is sent every engine, GNSS, host and motion
/// signal, and nothing else; a session without the stream is sent nothing.
pub proof fn lemma_tcp_stream_contents(access: SessionAccess, signal: SignalKind)
    ensures
        access.stream ==> (signal is Engine ==> spec_tcp_forwards(access, signal)),
        access.stream ==> (signal is Gnss ==> spec_tcp_forwards(access, signal)),
        access.stream ==> (signal is Host ==> spec_tcp_forwards(access, signal)),
        access.stream ==> (signal is Motion ==> spec_tcp_forwards(access, signal)),
        signal is Rotator || signal is ModuleStatus || signal is Encoder || signal is Other
            ==> !spec_tcp_forwards(access, signal),
        !access.stream ==> !spec_tcp_forwards(access, signal),
{
}

/// A streaming Unix socket session is sent every engine, GNSS, motion,
/// rotator and module status signal, and nothing else; a session without
/// the stream is sent nothing.
pub proof fn lemma_unix_stream_contents(access: SessionAccess, signal: SignalKind)
    ensures
        access.stream ==> (signal is Engine ==> spec_unix_forwards(access, signal)),
        access.stream ==> (signal is Gnss ==> spec_unix_forwards(access, signal)),
        access.stream ==> (signal is Motion ==> spec_unix_forwards(access, signal)),
        access.stream ==> (signal is Rotator ==> spec_unix_forwards(access, signal)),
        access.stream ==> (signal is ModuleStatus ==> spec_unix_forwards(access, signal)),
        signal is Host || signal is Encoder || signal is Other ==> !spec_unix_forwards(
            access,
            signal,
        ),
        !access.stream ==> !spec_unix_forwards(access, signal),
{
}

/// Every connection reset, time-out or abort ends a Unix socket session as
/// lost; the client closing the connection ends it in good order; only
/// other errors let the session go on.
pub proof fn lemma_unix_read_failure_ends_session(failure: ReadFailure)
    ensures
        failure == ReadFailure::ConnectionReset || failure == ReadFailure::TimedOut || failure
            == ReadFailure::ConnectionAborted ==> spec_unix_on_read_failure(failure) is Lost,
        failure == ReadFailure::UnexpectedEof ==> spec_unix_on_read_failure(failure)
            == SessionStep::Shutdown,
        spec_unix_on_read_failure(failure) == SessionStep::Continue <==> failure
            == ReadFailure::Other,
        spec_unix_on_read_failure(failure) != (SessionStep::Lost { failsafe: true }),
{
}

/// Every connection reset, time-out or abort ends a TCP session as lost,
/// with the failsafe exactly when the session asked for it; only other
/// errors let the session go on.
pub proof fn lemma_tcp_read_failure_ends_session(failure: ReadFailure, access: SessionAccess)
    ensures
        failure == ReadFailure::ConnectionReset || failure == ReadFailure::TimedOut || failure
            == ReadFailure::ConnectionAborted ==> spec_tcp_on_read_failure(failure, access) == (
        SessionStep::Lost { failsafe: access.failsafe }),
        spec_tcp_on_read_failure(failure, access) == SessionStep::Continue <==> failure
            == ReadFailure::Other,
        spec_tcp_on_read_failure(failure, access) == SessionStep::Shutdown <==> failure
            == ReadFailure::UnexpectedEof,
{
}

/// What the TCP server accepts: session and echo messages from anyone;
/// engine and control messages exactly from sessions with control access,
/// motion and target messages exactly from sessions with command access;
/// a refusal names the access that was missing, and unknown messages are
/// refused with their code.
pub proof fn lemma_tcp_route_access(message: TcpMessage, access: SessionAccess)
    ensures
        message == TcpMessage::Session ==> spec_tcp_route(message, access) == Ok::<
            Route,
            SessionError,
        >(Route::StartSession),
        message == TcpMessage::Echo ==> spec_tcp_route(message, access) == Ok::<
            Route,
            SessionError,
        >(Route::EchoBack),
        message == TcpMessage::Engine || message == TcpMessage::Control ==> (spec_tcp_route(
            message,
            access,
        ) is Ok <==> access.control),
        message == TcpMessage::Motion || message == TcpMessage::Target ==> (spec_tcp_route(
            message,
            access,
        ) is Ok <==> access.command),
        message == TcpMessage::Engine || message == TcpMessage::Target ==> (spec_tcp_route(
            message,
            access,
        ) is Ok ==> spec_tcp_route(message, access) == Ok::<Route, SessionError>(Route::Queue)),
        message == TcpMessage::Motion || message == TcpMessage::Control ==> (spec_tcp_route(
            message,
            access,
        ) is Ok ==> spec_tcp_route(message, access) == Ok::<Route, SessionError>(Route::Command)),
        (message == TcpMessage::Engine || message == TcpMessage::Control) && !access.control
            ==> spec_tcp_route(message, access) == Err::<Route, SessionError>(
            SessionError::UnauthorizedControl,
        ),
        (message == TcpMessage::Motion || message == TcpMessage::Target) && !access.command
            ==> spec_tcp_route(message, access) == Err::<Route, SessionError>(
            SessionError::UnauthorizedCommand,
        ),
        message matches TcpMessage::Other(code) ==> spec_tcp_route(message, access) == Err::<
            Route,
            SessionError,
        >(SessionError::UnknownMessage(code)),
{
}

/// The Unix socket server starts sessions, passes engine, motion, target
/// and control messages to the command channel whatever the session, and
/// refuses unknown messages with their code.
pub proof fn lemma_unix_route_trusts_local(message: UnixMessage)
    ensures
        message == UnixMessage::Session ==> spec_unix_route(message) == Ok::<Route, SessionError>(
            Route::StartSession,
        ),
        message == UnixMessage::Engine || message == UnixMessage::Motion || message
            == UnixMessage::Target || message == UnixMessage::Control ==> spec_unix_route(message)
            == Ok::<Route, SessionError>(Route::Command),
        message matches UnixMessage::Other(code) ==> spec_unix_route(message) == Err::<
            Route,
            SessionError,
        >(SessionError::UnknownMessage(code)),
{
}

/// The machine server answers requests, starts sessions, echoes and closes
/// for anyone; it commands motion, queues targets and applies control
/// requests exactly for sessions with control access, and drops them
/// otherwise; unknown messages are dropped.
pub proof fn lemma_machine_route_access(message: MachineMessage, access: SessionAccess)
    ensures
        message == MachineMessage::Request ==> spec_machine_route(message, access)
            == Route::Answer,
        message == MachineMessage::Session ==> spec_machine_route(message, access)
            == Route::StartSession,
        message == MachineMessage::Echo ==> spec_machine_route(message, access)
            == Route::EchoBack,
        message == MachineMessage::Shutdown ==> spec_machine_route(message, access)
            == Route::Close,
        message == MachineMessage::Motion ==> spec_machine_route(message, access) == (if access.control {
            Route::Command
        } else {
            Route::Drop
        }),
        message == MachineMessage::Target ==> spec_machine_route(message, access) == (if access.control {
            Route::Queue
        } else {
            Route::Drop
        }),
        message == MachineMessage::Control ==> spec_machine_route(message, access) == (if access.control {
            Route::Apply
        } else {
            Route::Drop
        }),
        message is Other ==> spec_machine_route(message, access) == Route::Drop,
{
}

} // verus!
