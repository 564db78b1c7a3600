use vstd::prelude::*;
use crate::lobby::Lobby;
use crate::lobby::LobbyError;
use crate::lobby::LobbySettings;
use crate::turn::Turn;

verus! {

/// A network message exchanged between client and server. The host
/// serializes these at the transport boundary.
pub enum Message {
    /// Everything's fine; nothing to report.
    Okay,
    /// A single [`Turn`].
    Move(Turn),
    /// A list of [`Turn`]s for synchronising observers who may be multiple
    /// turns behind.
    TurnSync(Vec<Turn>),
    /// An entire [`Lobby`] state for complete synchronisation.
    Lobby(Box<Lobby>),
    /// A list of lobbies, keyed by lobby identifier.
    Lobbies(Vec<(u16, Lobby)>),
    /// A [`LobbyError`].
    LobbyError(LobbyError),
}

/// An HTTP-style request made with a certain session id.
pub struct SessionRequest {
    /// The session id for this request.
    pub session_id: String,
}

/// A request made with a session id, containing a [`Message`] payload.
pub struct SessionMessage {
    /// The session id for this request.
    pub session_id: String,
    /// A [`Message`] payload.
    pub message: Message,
}

/// A request made with a session id, asking for a new lobby.
pub struct SessionNewLobby {
    /// The session id for this request.
    pub session_id: String,
    /// The settings the new lobby should use.
    pub lobby_settings: LobbySettings,
}

/// How many frames a poll blocks re-issuing the next network poll.
pub const BLOCK_FRAMES: u64 = 60;

/// A rate-limited buffer for messages arriving asynchronously from the
/// network. Responses are pushed here by the transport callback and drained
/// synchronously once per frame; `available`/`block` bound how often a new
/// poll may be issued, independent of frame rate.
pub struct MessagePool {
    /// The messages that arrived since the pool was last drained.
    pub messages: Vec<Message>,
    /// The frame number before which no new poll may be issued.
    pub block_frame: u64,
}

impl MessagePool {
    /// An empty pool that allows polling at once.
    pub fn new() -> (p: MessagePool)
        ensures
            p.messages@.len() == 0,
            p.block_frame == 0,
    {
        MessagePool { messages: Vec::new(), block_frame: 0 }
    }

    /// Whether a new poll may be issued at this frame.
    pub fn available(&self, frame: u64) -> (r: bool)
        ensures
            r == (frame >= self.block_frame),
    {
        frame >= self.block_frame
    }

    /// Defers the next poll by a fixed number of frames.
    pub fn block(&mut self, frame: u64)
        requires
            frame + BLOCK_FRAMES <= u64::MAX,
        ensures
            final(self).block_frame == frame + BLOCK_FRAMES,
            final(self).messages == old(self).messages,
    {
        self.block_frame = frame + BLOCK_FRAMES;
    }

    /// Buffers one arrived message.
    pub fn push(&mut self, message: Message)
        ensures
            final(self).messages@ == old(self).messages@.push(message),
            final(self).block_frame == old(self).block_frame,
    {
        self.messages.push(message);
    }

    /// Empties the pool after a drain.
    pub fn clear(&mut self)
        ensures
            final(self).messages@.len() == 0,
            final(self).block_frame == old(self).block_frame,
    {
        self.messages.clear();
    }
}

} // verus!
