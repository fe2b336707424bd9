//! What a remote session on the machine does with each frame it receives.
//!
//! A session opens with a start packet; from then on requests are answered,
//! motion is passed on for sessions that asked to write, and the session
//! ends when the client shuts it down or the connection is lost.
use vstd::prelude::*;

use super::frame::{FrameMessage, Start};

verus! {

/// A session must open with a start frame.
pub fn opens_session(message: FrameMessage) -> (opens: bool)
    ensures
        opens == (message == FrameMessage::Start),
{
    match message {
        FrameMessage::Start => true,
        _ => false,
    }
}

/// The message types the machine answers requests for with data of its
/// own.
pub open spec fn spec_is_served(message: FrameMessage) -> bool {
    message == FrameMessage::Null || message == FrameMessage::Status || message
        == FrameMessage::Instance || message == FrameMessage::Pose || message
        == FrameMessage::Engine || message == FrameMessage::VMS || message == FrameMessage::GNSS
}

/// The type of the answer to a request: the type requested where the
/// machine serves it, else an empty `Null` packet.
pub open spec fn spec_request_reply(requested: FrameMessage) -> FrameMessage {
    if spec_is_served(requested) {
        requested
    } else {
        FrameMessage::Null
    }
}

/// Decides with what type of packet a request is answered.
pub fn request_reply(requested: FrameMessage) -> (reply: FrameMessage)
    ensures
        reply == spec_request_reply(requested),
{
    match requested {
        FrameMessage::Null
        | FrameMessage::Status
        | FrameMessage::Instance
        | FrameMessage::Pose
        | FrameMessage::Engine
        | FrameMessage::VMS
        | FrameMessage::GNSS => requested,
        _ => FrameMessage::Null,
    }
}

/// What a session does with a frame.
#[derive(Copy, Clone, Debug, PartialEq, Eq, Structural)]
pub enum RemoteAction {
    /// Read the request packet and answer it.
    Answer,
    /// The client ends the session.
    Close,
    /// Read the motion packet and pass it to the machine.
    Move,
    /// Read the motion packet and drop it: the session may not write.
    RefuseMotion,
    /// Nothing to do.
    Ignore,
}

/// What a session does with a frame of each type: requests are answered,
/// a shutdown ends the session, motion moves the machine only for a
/// session that asked to write, anything else is ignored.
pub open spec fn spec_remote_action(message: FrameMessage, write: bool) -> RemoteAction {
    match message {
        FrameMessage::Request => RemoteAction::Answer,
        FrameMessage::Shutdown => RemoteAction::Close,
        FrameMessage::Motion => if write {
            RemoteAction::Move
        } else {
            RemoteAction::RefuseMotion
        },
        _ => RemoteAction::Ignore,
    }
}

/// Decides what a session does with a frame.
pub fn remote_action(message: FrameMessage, start: &Start) -> (action: RemoteAction)
    ensures
        action == spec_remote_action(message, start.spec_flags() & Start::MODE_WRITE != 0),
{
    match message {
        FrameMessage::Request => RemoteAction::Answer,
        FrameMessage::Shutdown => RemoteAction::Close,
        FrameMessage::Motion => if start.is_write() {
            RemoteAction::Move
        } else {
            RemoteAction::RefuseMotion
        },
        _ => RemoteAction::Ignore,
    }
}

/// Whether all motion is stopped when a session ends: only for a session
/// that asked to write and for the failsafe, and that the client did not
/// shut down itself.
pub fn failsafe_on_end(start: &Start, client_shutdown: bool) -> (stop: bool)
    ensures
        stop == (!client_shutdown && start.spec_flags() & Start::MODE_WRITE != 0
            && start.spec_flags() & Start::MODE_FAILSAFE != 0),
{
    !client_shutdown && start.is_write() && start.is_failsafe()
}

/// Every request is answered, with the type requested or an empty packet,
/// and a session that did not ask to write never moves the machine.
pub proof fn lemma_remote_session_guards(requested: FrameMessage, message: FrameMessage)
    ensures
        spec_request_reply(requested) == requested || spec_request_reply(requested)
            == FrameMessage::Null,
        spec_remote_action(message, false) != RemoteAction::Move,
{
}

/// What a session does with each frame: a request is answered, a shutdown
/// closes the session, motion moves the machine exactly when the session
/// asked to write and is refused otherwise, and every other frame is
/// ignored.
pub proof fn lemma_remote_actions(message: FrameMessage, write: bool)
    ensures
        message is Request ==> spec_remote_action(message, write) == RemoteAction::Answer,
        message is Shutdown ==> spec_remote_action(message, write) == RemoteAction::Close,
        message is Motion && write ==> spec_remote_action(message, write) == RemoteAction::Move,
        message is Motion && !write ==> spec_remote_action(message, write)
            == RemoteAction::RefuseMotion,
        !(message is Request || message is Shutdown || message is Motion) ==> spec_remote_action(
            message,
            write,
        ) == RemoteAction::Ignore,
{
}

/// Requests for the null packet, the status, the instance, the pose, the
/// engine, the host (VMS) and the GNSS state are answered in kind; requests
/// for anything else (start, shutdown, request, motion, signal, error) get
/// an empty null packet.
pub proof fn lemma_request_reply_kinds(requested: FrameMessage)
    ensures
        requested is Null || requested is Status || requested is Instance || requested is Pose
            || requested is Engine || requested is VMS || requested is GNSS ==> spec_request_reply(
            requested,
        ) == requested,
        requested is Start || requested is Shutdown || requested is Request || requested is Motion
            || requested is Signal || requested is Error ==> spec_request_reply(requested)
            == FrameMessage::Null,
{
}

} // verus!
