//! The failures that end a session, with the words the program reports.

use vstd::prelude::*;

verus! {

/// Why a server or client session ended in failure.
#[derive(Debug, Clone, Copy, PartialEq, Eq, Structural)]
pub enum ChatError {
    /// The client went away before it sent its username.
    DisconnectedEarly,
    /// The username could not be read.
    HeaderReadFailed,
    /// The server could not take a second handle on the client's stream.
    CloneFailed,
    /// The client closed its connection.
    ClientLeft,
    /// A message from the client could not be read.
    MessageReadFailed,
    /// A message could not be written to the server.
    SendFailed,
    /// The server's stream failed while the client was reading.
    ServerGone,
}

impl ChatError {
    /// The words reported for this failure.
    pub open spec fn spec_message(self) -> Seq<char> {
        match self {
            ChatError::DisconnectedEarly => "Server error: Disconnected early"@,
            ChatError::HeaderReadFailed => "Server error: Failed to read header"@,
            ChatError::CloneFailed => "Unable to clone stream"@,
            ChatError::ClientLeft => "client left"@,
            ChatError::MessageReadFailed => "Server error: Failed to read message"@,
            ChatError::SendFailed => "Error Sending message to server"@,
            ChatError::ServerGone => "\nRead error — assuming server is gone."@,
        }
    }

    /// The words reported for this failure.
    pub fn message(&self) -> (words: &'static str)
        ensures
            words@ == self.spec_message(),
    {
        match self {
            ChatError::DisconnectedEarly => "Server error: Disconnected early",
            ChatError::HeaderReadFailed => "Server error: Failed to read header",
            ChatError::CloneFailed => "Unable to clone stream",
            ChatError::ClientLeft => "client left",
            ChatError::MessageReadFailed => "Server error: Failed to read message",
            ChatError::SendFailed => "Error Sending message to server",
            ChatError::ServerGone => "\nRead error — assuming server is gone.",
        }
    }
}

} // verus!
