//! The decisions of the client: which typed lines go to the server, what the
//! writer does with each line it is handed, and what the receiver does with
//! each frame it reads.

use vstd::prelude::*;
use crate::error::ChatError;
use crate::frame::FrameOutcome;
use crate::text::{trim_text, trimmed};

verus! {

/// What to do with a line typed at the prompt.
pub enum InputAction {
    /// The user asked to leave: pass the exit command on and stop reading.
    Exit,
    /// Pass this text on to the writer.
    Send(String),
    /// Nothing to send.
    Skip,
}

/// Decides what a typed line becomes: the line is trimmed; `/exit` ends the
/// input, an empty line is dropped, and anything else is sent as trimmed.
pub fn read_input(line: &str) -> (action: InputAction)
    ensures
        trimmed(line@) == "/exit"@ ==> action is Exit,
        trimmed(line@) != "/exit"@ && trimmed(line@).len() == 0 ==> action is Skip,
        trimmed(line@) != "/exit"@ && trimmed(line@).len() != 0 ==> (action matches InputAction::Send(
            t,
        ) && t@ == trimmed(line@)),
{
    let text: String = trim_text(line);
    let exit: String = String::from_str("/exit");
    if text == exit {
        InputAction::Exit
    } else if text.as_str().is_empty() {
        InputAction::Skip
    } else {
        InputAction::Send(text)
    }
}

/// What happened to the writer.
pub enum WriterEvent {
    /// The shutdown flag is set.
    Shutdown,
    /// A line arrived from the input.
    Received(String),
    /// No line arrived in time.
    Timeout,
    /// The input is gone.
    Disconnected,
    /// Writing to the server failed.
    WriteFailed,
}

/// What the writer does next.
pub enum WriterAction {
    /// Stop, successfully.
    Stop,
    /// The user is leaving: raise the shutdown flag, shut the connection in
    /// both directions, and stop successfully.
    Exit,
    /// Write this message to the server.
    Write(String),
    /// Wait for the next line.
    Wait,
    /// Set the shutdown flag and stop with this failure.
    Fail(ChatError),
}

/// Decides the writer's next move: the exit command closes the connection
/// and stops; a shutdown or a lost input stops it; any other line is written; a failed write raises the
/// shutdown flag and fails.
pub fn writer_step(event: WriterEvent) -> (action: WriterAction)
    ensures
        match event {
            WriterEvent::Shutdown => action is Stop,
            WriterEvent::Received(msg) => if msg@ == "/exit"@ {
                action is Exit
            } else {
                action == WriterAction::Write(msg)
            },
            WriterEvent::Timeout => action is Wait,
            WriterEvent::Disconnected => action is Stop,
            WriterEvent::WriteFailed => action == WriterAction::Fail(ChatError::SendFailed),
        },
{
    match event {
        WriterEvent::Shutdown => WriterAction::Stop,
        WriterEvent::Received(msg) => {
            let exit: String = String::from_str("/exit");
            if msg == exit {
                WriterAction::Exit
            } else {
                WriterAction::Write(msg)
            }
        },
        WriterEvent::Timeout => WriterAction::Wait,
        WriterEvent::Disconnected => WriterAction::Stop,
        WriterEvent::WriteFailed => WriterAction::Fail(ChatError::SendFailed),
    }
}

/// What happened to the receiver.
pub enum ReceiverEvent {
    /// The shutdown flag is set.
    Shutdown,
    /// A frame was read from the server (or the read ended or failed).
    Read(FrameOutcome),
}

/// What the receiver does next.
pub enum ReceiverAction {
    /// Stop, successfully.
    Stop,
    /// Show this message and read on.
    Show(String),
    /// Set the shutdown flag and stop successfully.
    Close,
    /// Set the shutdown flag and stop with this failure.
    Fail(ChatError),
}

/// Decides the receiver's next move: a message is shown; the end of the
/// server's stream raises the shutdown flag and stops; a failed read raises
/// it and fails.
pub fn receiver_step(event: ReceiverEvent) -> (action: ReceiverAction)
    ensures
        match event {
            ReceiverEvent::Shutdown => action is Stop,
            ReceiverEvent::Read(FrameOutcome::Message(m)) => action == ReceiverAction::Show(m),
            ReceiverEvent::Read(FrameOutcome::Closed) => action is Close,
            ReceiverEvent::Read(FrameOutcome::Failed) => action == ReceiverAction::Fail(
                ChatError::ServerGone,
            ),
        },
{
    match event {
        ReceiverEvent::Shutdown => ReceiverAction::Stop,
        ReceiverEvent::Read(FrameOutcome::Message(m)) => ReceiverAction::Show(m),
        ReceiverEvent::Read(FrameOutcome::Closed) => ReceiverAction::Close,
        ReceiverEvent::Read(FrameOutcome::Failed) => ReceiverAction::Fail(ChatError::ServerGone),
    }
}

} // verus!
