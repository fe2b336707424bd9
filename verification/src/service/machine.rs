//! What the machine server does with the control requests and information
//! requests of a session that it has routed (see
//! [`machine_route`](super::session::machine_route)).
use vstd::prelude::*;

verus! {

/// A control request of a client.
#[derive(Copy, Clone, Debug, PartialEq, Eq, Structural)]
pub enum Control {
    /// Run the engine at this speed (RPM).
    EngineRequest(u16),
    /// Stop the engine.
    EngineShutdown,
    /// Hydraulic quick disconnect on or off.
    HydraulicQuickDisconnect(bool),
    /// Hydraulic lock on or off.
    HydraulicLock(bool),
    /// Shut the machine down.
    MachineShutdown,
    /// Machine illumination on or off.
    MachineIllumination(bool),
    /// Machine lights on or off.
    MachineLights(bool),
    /// Machine horn on or off.
    MachineHorn(bool),
}

/// The engine states a client can ask for.
#[derive(Copy, Clone, Debug, PartialEq, Eq, Structural)]
pub enum EngineState {
    /// No request: the engine may stop.
    NoRequest,
    /// The engine is requested to run.
    Request,
}

/// A request to the engine: its speed and state.
#[derive(Copy, Clone, Debug, PartialEq, Eq, Structural)]
pub struct EngineRequest {
    /// Engine speed in RPM.
    pub speed: u16,
    /// Requested state.
    pub state: EngineState,
}

/// The part of the machine state that control requests change.
#[derive(Copy, Clone, Debug, PartialEq, Eq, Structural)]
pub struct MachineControlState {
    /// The last engine request, if any.
    pub engine_request: Option<EngineRequest>,
    /// Hydraulic quick disconnect engaged.
    pub hydraulic_quick_disconnect: bool,
    /// Hydraulic lock engaged.
    pub hydraulic_lock: bool,
}

/// The state after a control request: an engine request replaces the
/// engine request with a running request at that speed, an engine shutdown
/// with a request of speed 0 and no state; the hydraulic requests set their
/// switch; the machine requests (shutdown, illumination, lights, horn)
/// change nothing here.
pub open spec fn spec_apply_control(
    state: MachineControlState,
    control: Control,
) -> MachineControlState {
    match control {
        Control::EngineRequest(rpm) => MachineControlState {
            engine_request: Some(EngineRequest { speed: rpm, state: EngineState::Request }),
            ..state
        },
        Control::EngineShutdown => MachineControlState {
            engine_request: Some(EngineRequest { speed: 0, state: EngineState::NoRequest }),
            ..state
        },
        Control::HydraulicQuickDisconnect(on) => MachineControlState {
            hydraulic_quick_disconnect: on,
            ..state
        },
        Control::HydraulicLock(on) => MachineControlState { hydraulic_lock: on, ..state },
        _ => state,
    }
}

/// Whether a control request is an engine request, whose time the server
/// records.
pub open spec fn spec_is_engine_control(control: Control) -> bool {
    control is EngineRequest || control is EngineShutdown
}

/// Applies a control request of a session with control access to the
/// machine state. Returns whether the engine request changed, so that the
/// caller records when it did.
pub fn apply_control(state: &mut MachineControlState, control: Control) -> (engine_changed: bool)
    ensures
        *final(state) == spec_apply_control(*old(state), control),
        engine_changed == spec_is_engine_control(control),
{
    match control {
        Control::EngineRequest(rpm) => {
            state.engine_request = Some(EngineRequest { speed: rpm, state: EngineState::Request });
            true
        },
        Control::EngineShutdown => {
            state.engine_request = Some(EngineRequest { speed: 0, state: EngineState::NoRequest });
            true
        },
        Control::HydraulicQuickDisconnect(on) => {
            state.hydraulic_quick_disconnect = on;
            false
        },
        Control::HydraulicLock(on) => {
            state.hydraulic_lock = on;
            false
        },
        _ => false,
    }
}

/// What each control request does to the machine: an engine request asks
/// for the engine to run at its speed, an engine shutdown asks for speed 0
/// and no running; each hydraulic request sets its own switch to the value
/// asked for, whatever it was before; everything a request does not name is
/// left as it was. Exactly the engine requests are reported as changing the
/// engine request.
pub proof fn lemma_apply_control_effects(state: MachineControlState, control: Control)
    ensures
        ({
            let after = spec_apply_control(state, control);
            &&& control matches Control::EngineRequest(rpm) ==> after.engine_request == Some(
                EngineRequest { speed: rpm, state: EngineState::Request },
            )
            &&& control == Control::EngineShutdown ==> after.engine_request == Some(
                EngineRequest { speed: 0, state: EngineState::NoRequest },
            )
            &&& !(control is EngineRequest || control is EngineShutdown) ==> after.engine_request
                == state.engine_request
            &&& control matches Control::HydraulicQuickDisconnect(on)
                ==> after.hydraulic_quick_disconnect == on
            &&& !(control is HydraulicQuickDisconnect) ==> after.hydraulic_quick_disconnect
                == state.hydraulic_quick_disconnect
            &&& control matches Control::HydraulicLock(on) ==> after.hydraulic_lock == on
            &&& !(control is HydraulicLock) ==> after.hydraulic_lock == state.hydraulic_lock
        }),
        spec_is_engine_control(control) <==> (control is EngineRequest || control is EngineShutdown),
{
}

/// Each known object is answered with itself; the actor is answered
/// exactly when there is one; unknown requests are never answered.
pub proof fn lemma_request_answer_in_kind(request: MachineRequest, has_actor: bool)
    ensures
        request == MachineRequest::Instance ==> spec_request_answer(request, has_actor) == Some(
            Answer::Instance,
        ),
        request == MachineRequest::Status ==> spec_request_answer(request, has_actor) == Some(
            Answer::Status,
        ),
        request == MachineRequest::Host ==> spec_request_answer(request, has_actor) == Some(
            Answer::Host,
        ),
        request == MachineRequest::Gnss ==> spec_request_answer(request, has_actor) == Some(
            Answer::Gnss,
        ),
        request == MachineRequest::Engine ==> spec_request_answer(request, has_actor) == Some(
            Answer::Engine,
        ),
        request == MachineRequest::Actor ==> (spec_request_answer(request, has_actor) == Some(
            Answer::Actor,
        ) <==> has_actor),
        request == MachineRequest::Actor && !has_actor ==> spec_request_answer(request, has_actor)
            is None,
        request is Other ==> spec_request_answer(request, has_actor) is None,
{
}

/// A control request applied twice leaves the machine as applying it once
/// does.
pub proof fn lemma_apply_control_idempotent(state: MachineControlState, control: Control)
    ensures
        spec_apply_control(spec_apply_control(state, control), control) == spec_apply_control(
            state,
            control,
        ),
{
}

/// The last engine request wins: after an engine request or shutdown, the
/// engine request no longer depends on what was asked before, and requests
/// to the hydraulics or the machine leave it as it was.
pub proof fn lemma_engine_request_last_wins(
    first: MachineControlState,
    second: MachineControlState,
    control: Control,
)
    ensures
        spec_is_engine_control(control) ==> spec_apply_control(first, control).engine_request
            == spec_apply_control(second, control).engine_request,
        !spec_is_engine_control(control) ==> spec_apply_control(first, control).engine_request
            == first.engine_request,
{
}

/// The objects a client can ask the machine server for.
#[derive(Copy, Clone, Debug, PartialEq, Eq, Structural)]
pub enum MachineRequest {
    Instance,
    Status,
    Host,
    Gnss,
    Engine,
    Actor,
    /// Any other message type, by its wire code.
    Other(u8),
}

/// What the machine server answers a request with.
#[derive(Copy, Clone, Debug, PartialEq, Eq, Structural)]
pub enum Answer {
    /// The machine instance.
    Instance,
    /// The runtime status.
    Status,
    /// The host (VMS) state.
    Host,
    /// The GNSS state.
    Gnss,
    /// The engine state.
    Engine,
    /// The actor of the world model.
    Actor,
}

/// The answer to a request: each known object is answered with itself, the
/// actor only when the world model has one; other requests go unanswered.
pub open spec fn spec_request_answer(request: MachineRequest, has_actor: bool) -> Option<Answer> {
    match request {
        MachineRequest::Instance => Some(Answer::Instance),
        MachineRequest::Status => Some(Answer::Status),
        MachineRequest::Host => Some(Answer::Host),
        MachineRequest::Gnss => Some(Answer::Gnss),
        MachineRequest::Engine => Some(Answer::Engine),
        MachineRequest::Actor => if has_actor {
            Some(Answer::Actor)
        } else {
            None
        },
        MachineRequest::Other(_) => None,
    }
}

/// Chooses what the machine server answers a request with.
pub fn request_answer(request: MachineRequest, has_actor: bool) -> (answer: Option<Answer>)
    ensures
        answer == spec_request_answer(request, has_actor),
{
    match request {
        MachineRequest::Instance => Some(Answer::Instance),
        MachineRequest::Status => Some(Answer::Status),
        MachineRequest::Host => Some(Answer::Host),
        MachineRequest::Gnss => Some(Answer::Gnss),
        MachineRequest::Engine => Some(Answer::Engine),
        MachineRequest::Actor => if has_actor {
            Some(Answer::Actor)
        } else {
            None
        },
        MachineRequest::Other(_) => None,
    }
}

} // verus!
