use glonax::service::session::{
    machine_failsafe_on_end, machine_route, tcp_forwards, tcp_on_read_failure, tcp_route,
    unix_failsafe_on_end, unix_forwards, unix_on_read_failure, unix_route, MachineMessage,
    ReadFailure, Route, SessionAccess, SessionError, SessionStep, SignalKind, TcpMessage,
    UnixMessage,
};

use glonax::service::machine::{
    apply_control, request_answer, Answer, Control, EngineRequest, EngineState,
    MachineControlState, MachineRequest,
};

fn access(control: bool, command: bool, stream: bool, failsafe: bool) -> SessionAccess {
    SessionAccess { control, command, stream, failsafe }
}

#[test]
fn tcp_routes() {
    let anonymous = SessionAccess::anonymous();
    assert_eq!(tcp_route(TcpMessage::Session, anonymous), Ok(Route::StartSession));
    assert_eq!(tcp_route(TcpMessage::Echo, anonymous), Ok(Route::EchoBack));
    assert_eq!(tcp_route(TcpMessage::Engine, anonymous), Err(SessionError::UnauthorizedControl));
    assert_eq!(tcp_route(TcpMessage::Control, anonymous), Err(SessionError::UnauthorizedControl));
    assert_eq!(tcp_route(TcpMessage::Motion, anonymous), Err(SessionError::UnauthorizedCommand));
    assert_eq!(tcp_route(TcpMessage::Target, anonymous), Err(SessionError::UnauthorizedCommand));
    assert_eq!(tcp_route(TcpMessage::Other(0x99), anonymous), Err(SessionError::UnknownMessage(0x99)));

    let control = access(true, false, false, false);
    assert_eq!(tcp_route(TcpMessage::Engine, control), Ok(Route::Queue));
    assert_eq!(tcp_route(TcpMessage::Control, control), Ok(Route::Command));
    assert_eq!(tcp_route(TcpMessage::Motion, control), Err(SessionError::UnauthorizedCommand));

    let command = access(false, true, false, false);
    assert_eq!(tcp_route(TcpMessage::Motion, command), Ok(Route::Command));
    assert_eq!(tcp_route(TcpMessage::Target, command), Ok(Route::Queue));
    assert_eq!(tcp_route(TcpMessage::Engine, command), Err(SessionError::UnauthorizedControl));
}

#[test]
fn unix_routes() {
    assert_eq!(unix_route(UnixMessage::Session), Ok(Route::StartSession));
    assert_eq!(unix_route(UnixMessage::Engine), Ok(Route::Command));
    assert_eq!(unix_route(UnixMessage::Motion), Ok(Route::Command));
    assert_eq!(unix_route(UnixMessage::Target), Ok(Route::Command));
    assert_eq!(unix_route(UnixMessage::Control), Ok(Route::Command));
    assert_eq!(unix_route(UnixMessage::Other(7)), Err(SessionError::UnknownMessage(7)));
}

#[test]
fn machine_routes() {
    let anonymous = SessionAccess::anonymous();
    assert_eq!(machine_route(MachineMessage::Request, anonymous), Route::Answer);
    assert_eq!(machine_route(MachineMessage::Session, anonymous), Route::StartSession);
    assert_eq!(machine_route(MachineMessage::Echo, anonymous), Route::EchoBack);
    assert_eq!(machine_route(MachineMessage::Shutdown, anonymous), Route::Close);
    assert_eq!(machine_route(MachineMessage::Motion, anonymous), Route::Drop);
    assert_eq!(machine_route(MachineMessage::Target, anonymous), Route::Drop);
    assert_eq!(machine_route(MachineMessage::Control, anonymous), Route::Drop);
    let control = access(true, false, false, true);
    assert_eq!(machine_route(MachineMessage::Motion, control), Route::Command);
    assert_eq!(machine_route(MachineMessage::Target, control), Route::Queue);
    assert_eq!(machine_route(MachineMessage::Control, control), Route::Apply);
    assert_eq!(machine_route(MachineMessage::Other(1), control), Route::Drop);
    assert!(machine_failsafe_on_end(control, false));
    assert!(!machine_failsafe_on_end(control, true));
    assert!(!machine_failsafe_on_end(access(false, false, false, true), false));
}

#[test]
fn signal_forwarding() {
    let streaming = access(false, false, true, false);
    assert!(tcp_forwards(streaming, SignalKind::Host));
    assert!(!tcp_forwards(streaming, SignalKind::Rotator));
    assert!(!tcp_forwards(streaming, SignalKind::Encoder));
    assert!(unix_forwards(streaming, SignalKind::Rotator));
    assert!(unix_forwards(streaming, SignalKind::ModuleStatus));
    assert!(!unix_forwards(streaming, SignalKind::Host));
    let quiet = SessionAccess::anonymous();
    assert!(!tcp_forwards(quiet, SignalKind::Engine));
    assert!(!unix_forwards(quiet, SignalKind::Engine));
}

#[test]
fn read_failures() {
    let failsafe = access(true, true, false, true);
    let plain = access(true, true, false, false);
    assert_eq!(tcp_on_read_failure(ReadFailure::UnexpectedEof, failsafe), SessionStep::Shutdown);
    assert_eq!(tcp_on_read_failure(ReadFailure::Other, failsafe), SessionStep::Continue);
    assert_eq!(
        tcp_on_read_failure(ReadFailure::ConnectionReset, failsafe),
        SessionStep::Lost { failsafe: true }
    );
    assert_eq!(
        tcp_on_read_failure(ReadFailure::TimedOut, plain),
        SessionStep::Lost { failsafe: false }
    );
    assert_eq!(unix_on_read_failure(ReadFailure::UnexpectedEof), SessionStep::Shutdown);
    assert_eq!(unix_on_read_failure(ReadFailure::ConnectionAborted), SessionStep::Lost { failsafe: false });
    assert_eq!(unix_on_read_failure(ReadFailure::Other), SessionStep::Continue);
    assert!(unix_failsafe_on_end(failsafe));
    assert!(!unix_failsafe_on_end(plain));
}

fn idle_machine() -> MachineControlState {
    MachineControlState {
        engine_request: None,
        hydraulic_quick_disconnect: false,
        hydraulic_lock: false,
    }
}

#[test]
fn control_requests_change_the_machine() {
    let mut state = idle_machine();
    assert!(apply_control(&mut state, Control::EngineRequest(1200)));
    assert_eq!(
        state.engine_request,
        Some(EngineRequest { speed: 1200, state: EngineState::Request })
    );
    assert!(apply_control(&mut state, Control::EngineShutdown));
    assert_eq!(
        state.engine_request,
        Some(EngineRequest { speed: 0, state: EngineState::NoRequest })
    );
    assert!(!apply_control(&mut state, Control::HydraulicQuickDisconnect(true)));
    assert!(state.hydraulic_quick_disconnect);
    assert!(!apply_control(&mut state, Control::HydraulicLock(true)));
    assert!(state.hydraulic_lock);
    assert!(!apply_control(&mut state, Control::HydraulicLock(false)));
    assert!(!state.hydraulic_lock);

    let before = state;
    for control in [
        Control::MachineShutdown,
        Control::MachineIllumination(true),
        Control::MachineLights(true),
        Control::MachineHorn(false),
    ] {
        assert!(!apply_control(&mut state, control));
        assert_eq!(state, before);
    }
}

#[test]
fn control_applied_twice_is_applied_once() {
    for control in [
        Control::EngineRequest(800),
        Control::EngineShutdown,
        Control::HydraulicQuickDisconnect(true),
        Control::HydraulicLock(true),
        Control::MachineHorn(true),
    ] {
        let mut once = idle_machine();
        apply_control(&mut once, control);
        let mut twice = once;
        apply_control(&mut twice, control);
        assert_eq!(once, twice);
    }
}

#[test]
fn requests_are_answered_in_kind() {
    assert_eq!(request_answer(MachineRequest::Instance, false), Some(Answer::Instance));
    assert_eq!(request_answer(MachineRequest::Status, false), Some(Answer::Status));
    assert_eq!(request_answer(MachineRequest::Host, false), Some(Answer::Host));
    assert_eq!(request_answer(MachineRequest::Gnss, false), Some(Answer::Gnss));
    assert_eq!(request_answer(MachineRequest::Engine, true), Some(Answer::Engine));
    assert_eq!(request_answer(MachineRequest::Actor, true), Some(Answer::Actor));
    assert_eq!(request_answer(MachineRequest::Actor, false), None);
    assert_eq!(request_answer(MachineRequest::Other(0x99), true), None);
}
