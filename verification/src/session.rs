//! The decisions of the server: what one client's session does with each
//! thing that happens on its connection, and what the relay loop does with
//! each thing that comes out of the message channel.

use vstd::prelude::*;
use crate::error::ChatError;
use crate::frame::FrameOutcome;
use crate::text::{bold_bright_green, bold_bright_red, bright_green_bold, bright_red_bold};

verus! {

/// Where a client's session stands.
pub enum HandlerState {
    /// The client's username has not been read yet.
    AwaitingName,
    /// The username is known; the stream is being duplicated for the room.
    Joining(String),
    /// The client is in the room and its messages are relayed.
    Chatting(String),
    /// The session is over.
    Finished,
}

/// What happened on a client's connection.
pub enum HandlerEvent {
    /// A frame was read (or the read ended or failed).
    Read(FrameOutcome),
    /// The stream was duplicated.
    StreamCloned,
    /// The stream could not be duplicated.
    CloneFailed,
    /// The server is shutting down.
    ShutdownRequested,
    /// The relay channel refused a message.
    ForwardFailed,
}

/// What the session asks the server to do next.
pub enum HandlerAction {
    /// Duplicate the client's stream.
    CloneStream,
    /// Announce `notice` from `username` and put the client in the room.
    Join { username: String, notice: String },
    /// Relay `message` from `username`.
    Forward { username: String, message: String },
    /// Shut the stream, take `username` out of the room, announce `notice`,
    /// and end the session successfully.
    Leave { username: String, notice: String },
    /// The connection is gone: take `username` out of the room, announce
    /// `notice`, and end the session with `error`.
    Depart { username: String, notice: String, error: ChatError },
    /// End the session with this failure.
    Abort(ChatError),
    /// Nothing: the event does not belong to this state.
    Ignore,
}

/// The notice relayed when a client joins.
pub open spec fn joined_notice() -> Seq<char> {
    bold_bright_green("Joined!"@)
}

/// The notice relayed when a client leaves.
pub open spec fn left_notice() -> Seq<char> {
    bold_bright_red("Left!"@)
}

/// The state that follows `state` when `event` happens.
pub open spec fn next_state(state: HandlerState, event: HandlerEvent) -> HandlerState {
    match (state, event) {
        (HandlerState::AwaitingName, HandlerEvent::Read(FrameOutcome::Message(name))) => {
            HandlerState::Joining(name)
        },
        (HandlerState::AwaitingName, HandlerEvent::Read(_)) => HandlerState::Finished,
        (HandlerState::Joining(name), HandlerEvent::StreamCloned) => HandlerState::Chatting(name),
        (HandlerState::Joining(_), HandlerEvent::CloneFailed) => HandlerState::Finished,
        (HandlerState::Chatting(name), HandlerEvent::Read(FrameOutcome::Message(_))) => {
            HandlerState::Chatting(name)
        },
        (HandlerState::Chatting(_), HandlerEvent::Read(_)) => HandlerState::Finished,
        (HandlerState::Chatting(_), HandlerEvent::ShutdownRequested) => HandlerState::Finished,
        (HandlerState::Chatting(_), HandlerEvent::ForwardFailed) => HandlerState::Finished,
        (state, _) => state,
    }
}

/// The state that a session starting in `state` reaches after `events`.
pub open spec fn run(state: HandlerState, events: Seq<HandlerEvent>) -> HandlerState
    decreases events.len(),
{
    if events.len() == 0 {
        state
    } else {
        run(next_state(state, events[0]), events.drop_first())
    }
}

/// The username that the first read of `events` gave, if the first read gave
/// a message.
pub open spec fn first_name_read(events: Seq<HandlerEvent>) -> Option<String>
    decreases events.len(),
{
    if events.len() == 0 {
        None
    } else {
        match events[0] {
            HandlerEvent::Read(FrameOutcome::Message(name)) => Some(name),
            HandlerEvent::Read(_) => None,
            _ => first_name_read(events.drop_first()),
        }
    }
}

/// The username a state stands for, if it stands for one.
pub open spec fn state_name(state: HandlerState) -> Option<String> {
    match state {
        HandlerState::Joining(name) => Some(name),
        HandlerState::Chatting(name) => Some(name),
        _ => None,
    }
}

/// Once a session knows its username it keeps it until it finishes.
proof fn lemma_name_kept(state: HandlerState, events: Seq<HandlerEvent>)
    requires
        state_name(state) is Some || state is Finished,
    ensures
        state is Finished ==> run(state, events) is Finished,
        run(state, events) is Finished || state_name(run(state, events)) == state_name(state),
    decreases events.len(),
{
    if events.len() > 0 {
        lemma_name_kept(next_state(state, events[0]), events.drop_first());
    }
}

/// A session speaks for one user only: whatever happens on the connection,
/// a session that is joining or chatting does so under the username of the
/// first frame it read, and a session whose first read gave no message never
/// joins.
pub proof fn law_session_keeps_first_name(events: Seq<HandlerEvent>)
    ensures
        state_name(run(HandlerState::AwaitingName, events)) is Some ==> state_name(
            run(HandlerState::AwaitingName, events),
        ) == first_name_read(events),
    decreases events.len(),
{
    if events.len() > 0 {
        let next = next_state(HandlerState::AwaitingName, events[0]);
        match events[0] {
            HandlerEvent::Read(_) => {
                lemma_name_kept(next, events.drop_first());
            },
            _ => {
                law_session_keeps_first_name(events.drop_first());
            },
        }
    }
}

impl HandlerState {
    /// The state of a session that has just been accepted.
    pub fn new() -> (state: HandlerState)
        ensures
            state is AwaitingName,
    {
        HandlerState::AwaitingName
    }

    /// Takes the session one step: from this state and what happened, the
    /// next state and what the server must do.
    pub fn step(self, event: HandlerEvent) -> (result: (HandlerState, HandlerAction))
        ensures
            ({
                let (next, action) = result;
                &&& next == next_state(self, event)
                &&& match (self, event) {
                    (HandlerState::AwaitingName, HandlerEvent::Read(FrameOutcome::Message(name))) => {
                        next == HandlerState::Joining(name) && action is CloneStream
                    },
                    (HandlerState::AwaitingName, HandlerEvent::Read(FrameOutcome::Closed)) => {
                        next is Finished && action == HandlerAction::Abort(ChatError::DisconnectedEarly)
                    },
                    (HandlerState::AwaitingName, HandlerEvent::Read(FrameOutcome::Failed)) => {
                        next is Finished && action == HandlerAction::Abort(ChatError::HeaderReadFailed)
                    },
                    (HandlerState::Joining(name), HandlerEvent::StreamCloned) => {
                        &&& next == HandlerState::Chatting(name)
                        &&& action matches HandlerAction::Join { username, notice }
                        &&& username == name
                        &&& notice@ == joined_notice()
                    },
                    (HandlerState::Joining(_), HandlerEvent::CloneFailed) => {
                        next is Finished && action == HandlerAction::Abort(ChatError::CloneFailed)
                    },
                    (HandlerState::Chatting(name), HandlerEvent::Read(FrameOutcome::Message(m))) => {
                        next == HandlerState::Chatting(name) && action == HandlerAction::Forward {
                            username: name,
                            message: m,
                        }
                    },
                    (HandlerState::Chatting(name), HandlerEvent::Read(FrameOutcome::Closed)) => {
                        &&& next is Finished
                        &&& action matches HandlerAction::Depart { username, notice, error }
                        &&& username == name
                        &&& notice@ == left_notice()
                        &&& error == ChatError::ClientLeft
                    },
                    (HandlerState::Chatting(name), HandlerEvent::Read(FrameOutcome::Failed)) => {
                        &&& next is Finished
                        &&& action matches HandlerAction::Depart { username, notice, error }
                        &&& username == name
                        &&& notice@ == left_notice()
                        &&& error == ChatError::MessageReadFailed
                    },
                    (HandlerState::Chatting(name), HandlerEvent::ShutdownRequested) => {
                        &&& next is Finished
                        &&& action matches HandlerAction::Leave { username, notice }
                        &&& username == name
                        &&& notice@ == left_notice()
                    },
                    (HandlerState::Chatting(name), HandlerEvent::ForwardFailed) => {
                        &&& next is Finished
                        &&& action matches HandlerAction::Leave { username, notice }
                        &&& username == name
                        &&& notice@ == left_notice()
                    },
                    (state, _) => next == state && action is Ignore,
                }
            }),
    {
        match (self, event) {
            (HandlerState::AwaitingName, HandlerEvent::Read(FrameOutcome::Message(name))) => {
                (HandlerState::Joining(name), HandlerAction::CloneStream)
            },
            (HandlerState::AwaitingName, HandlerEvent::Read(FrameOutcome::Closed)) => {
                (HandlerState::Finished, HandlerAction::Abort(ChatError::DisconnectedEarly))
            },
            (HandlerState::AwaitingName, HandlerEvent::Read(FrameOutcome::Failed)) => {
                (HandlerState::Finished, HandlerAction::Abort(ChatError::HeaderReadFailed))
            },
            (HandlerState::Joining(name), HandlerEvent::StreamCloned) => {
                let username: String = name.clone();
                let notice: String = bright_green_bold("Joined!");
                (HandlerState::Chatting(name), HandlerAction::Join { username, notice })
            },
            (HandlerState::Joining(_), HandlerEvent::CloneFailed) => {
                (HandlerState::Finished, HandlerAction::Abort(ChatError::CloneFailed))
            },
            (HandlerState::Chatting(name), HandlerEvent::Read(FrameOutcome::Message(m))) => {
                let username: String = name.clone();
                (HandlerState::Chatting(name), HandlerAction::Forward { username, message: m })
            },
            (HandlerState::Chatting(name), HandlerEvent::Read(FrameOutcome::Closed)) => {
                let notice: String = bright_red_bold("Left!");
                (
                    HandlerState::Finished,
                    HandlerAction::Depart { username: name, notice, error: ChatError::ClientLeft },
                )
            },
            (HandlerState::Chatting(name), HandlerEvent::Read(FrameOutcome::Failed)) => {
                let notice: String = bright_red_bold("Left!");
                (
                    HandlerState::Finished,
                    HandlerAction::Depart {
                        username: name,
                        notice,
                        error: ChatError::MessageReadFailed,
                    },
                )
            },
            (HandlerState::Chatting(name), HandlerEvent::ShutdownRequested) => {
                let notice: String = bright_red_bold("Left!");
                (HandlerState::Finished, HandlerAction::Leave { username: name, notice })
            },
            (HandlerState::Chatting(name), HandlerEvent::ForwardFailed) => {
                let notice: String = bright_red_bold("Left!");
                (HandlerState::Finished, HandlerAction::Leave { username: name, notice })
            },
            (state, _) => (state, HandlerAction::Ignore),
        }
    }
}

/// What came out of the relay channel, or what stopped it.
pub enum RelayEvent {
    /// The shutdown flag is set.
    Shutdown,
    /// `message` arrived from `from`, who writes on connection `sender`.
    Received { sender: u64, from: String, message: String },
    /// Nothing arrived in time.
    Timeout,
    /// Every sender is gone.
    Disconnected,
}

/// What the relay loop does next.
pub enum RelayAction {
    /// Stop.
    Stop,
    /// Relay `message` from `from`, on connection `sender`, to the room.
    Deliver { sender: u64, from: String, message: String },
    /// Wait for the next message.
    Wait,
    /// Report that the channel is gone, and stop.
    Close,
}

/// Decides the relay loop's next move: a message is delivered as it came; a
/// timeout waits; a shutdown stops; a lost channel is reported and stops.
pub fn relay_step(event: RelayEvent) -> (action: RelayAction)
    ensures
        match event {
            RelayEvent::Shutdown => action is Stop,
            RelayEvent::Received { sender, from, message } => action == RelayAction::Deliver {
                sender,
                from,
                message,
            },
            RelayEvent::Timeout => action is Wait,
            RelayEvent::Disconnected => action is Close,
        },
{
    match event {
        RelayEvent::Shutdown => RelayAction::Stop,
        RelayEvent::Received { sender, from, message } => RelayAction::Deliver { sender, from, message },
        RelayEvent::Timeout => RelayAction::Wait,
        RelayEvent::Disconnected => RelayAction::Close,
    }
}

} // verus!
