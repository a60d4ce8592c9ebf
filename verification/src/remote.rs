//! The connection to a player's client: the messages that cross it, and the
//! protocol state that tells what each incoming frame means.
//!
//! The socket itself, and the JSON text of a message, belong to the caller.
//! [`RemoteConnection`] keeps the liveness ping: it numbers the pings it
//! sends, and turns the matching pong into a round-trip time.

use vstd::prelude::*;

use crate::room::{GameState, GameStateView, PlayerState, PlayerStateView};

verus! {

/// A message between a client and its player. It travels as a JSON object
/// whose field `type` names the variant.
#[derive(Debug, Clone, PartialEq, Eq)]
pub enum RemoteMessage {
    Vote { vote: Option<String> },
    UpdatePlayer { voter: bool, name: Option<String> },
    ForceOpen,
    Restart,
    SetName { name: String },
    JoinRoom { room: String },
    CreateRoom { deck: String },
    /// A pong matched the last ping; the value is the round trip in
    /// nanoseconds. Never sent by a client.
    Ping(u128),
    /// The connection ended. Never sent by a client.
    Close,
    Welcome { player_id: String },
    Rejected,
    Joined { room: String, state: GameState, players: Vec<PlayerState> },
    PlayerJoined { player: PlayerState },
    PlayerChanged { player: PlayerState },
    PlayerLeft { player_id: String },
    GameChanged { game_state: GameState },
}

/// The mathematical value of a [`RemoteMessage`].
pub enum RemoteMessageView {
    Vote { vote: Option<Seq<char>> },
    UpdatePlayer { voter: bool, name: Option<Seq<char>> },
    ForceOpen,
    Restart,
    SetName { name: Seq<char> },
    JoinRoom { room: Seq<char> },
    CreateRoom { deck: Seq<char> },
    Ping(u128),
    Close,
    Welcome { player_id: Seq<char> },
    Rejected,
    Joined { room: Seq<char>, state: GameStateView, players: Seq<PlayerStateView> },
    PlayerJoined { player: PlayerStateView },
    PlayerChanged { player: PlayerStateView },
    PlayerLeft { player_id: Seq<char> },
    GameChanged { game_state: GameStateView },
}

impl View for RemoteMessage {
    type V = RemoteMessageView;

    open spec fn view(&self) -> RemoteMessageView {
        match self {
            RemoteMessage::Vote { vote } => RemoteMessageView::Vote { vote: vote.deep_view() },
            RemoteMessage::UpdatePlayer { voter, name } => RemoteMessageView::UpdatePlayer {
                voter: *voter,
                name: name.deep_view(),
            },
            RemoteMessage::ForceOpen => RemoteMessageView::ForceOpen,
            RemoteMessage::Restart => RemoteMessageView::Restart,
            RemoteMessage::SetName { name } => RemoteMessageView::SetName { name: name@ },
            RemoteMessage::JoinRoom { room } => RemoteMessageView::JoinRoom { room: room@ },
            RemoteMessage::CreateRoom { deck } => RemoteMessageView::CreateRoom { deck: deck@ },
            RemoteMessage::Ping(nanos) => RemoteMessageView::Ping(*nanos),
            RemoteMessage::Close => RemoteMessageView::Close,
            RemoteMessage::Welcome { player_id } => RemoteMessageView::Welcome {
                player_id: player_id@,
            },
            RemoteMessage::Rejected => RemoteMessageView::Rejected,
            RemoteMessage::Joined { room, state, players } => RemoteMessageView::Joined {
                room: room@,
                state: state@,
                players: players.deep_view(),
            },
            RemoteMessage::PlayerJoined { player } => RemoteMessageView::PlayerJoined {
                player: player@,
            },
            RemoteMessage::PlayerChanged { player } => RemoteMessageView::PlayerChanged {
                player: player@,
            },
            RemoteMessage::PlayerLeft { player_id } => RemoteMessageView::PlayerLeft {
                player_id: player_id@,
            },
            RemoteMessage::GameChanged { game_state } => RemoteMessageView::GameChanged {
                game_state: game_state@,
            },
        }
    }
}

impl DeepView for RemoteMessage {
    type V = RemoteMessageView;

    open spec fn deep_view(&self) -> RemoteMessageView {
        self@
    }
}

/// One frame of the message stream.
#[derive(Debug, Clone, PartialEq, Eq)]
pub enum Frame {
    Text(String),
    Binary(Vec<u8>),
    Ping(Vec<u8>),
    Pong(Vec<u8>),
    Close,
}

/// The mathematical value of a [`Frame`].
pub enum FrameView {
    Text(Seq<char>),
    Binary(Seq<u8>),
    Ping(Seq<u8>),
    Pong(Seq<u8>),
    Close,
}

impl View for Frame {
    type V = FrameView;

    open spec fn view(&self) -> FrameView {
        match self {
            Frame::Text(text) => FrameView::Text(text@),
            Frame::Binary(bytes) => FrameView::Binary(bytes@),
            Frame::Ping(bytes) => FrameView::Ping(bytes@),
            Frame::Pong(bytes) => FrameView::Pong(bytes@),
            Frame::Close => FrameView::Close,
        }
    }
}

/// What an incoming frame means to the reader of the stream.
#[derive(Debug, Clone, PartialEq, Eq)]
pub enum Reception {
    /// Hand this message to the player.
    Message(RemoteMessage),
    /// Decode this text as one JSON message and hand it to the player; a
    /// text that does not decode is an error.
    Decode(String),
    /// Send this frame back and read on.
    Reply(Frame),
    /// Read on.
    Skip,
    /// An error: the stream does not carry frames of this kind.
    Unsupported(Frame),
}

/// The mathematical value of a [`Reception`].
pub enum ReceptionView {
    Message(RemoteMessageView),
    Decode(Seq<char>),
    Reply(FrameView),
    Skip,
    Unsupported(FrameView),
}

impl View for Reception {
    type V = ReceptionView;

    open spec fn view(&self) -> ReceptionView {
        match self {
            Reception::Message(msg) => ReceptionView::Message(msg@),
            Reception::Decode(text) => ReceptionView::Decode(text@),
            Reception::Reply(frame) => ReceptionView::Reply(frame@),
            Reception::Skip => ReceptionView::Skip,
            Reception::Unsupported(frame) => ReceptionView::Unsupported(frame@),
        }
    }
}

/// The two bytes that carry a ping's number: low byte first.
pub open spec fn ping_payload(id: u16) -> Seq<u8> {
    seq![(id % 256) as u8, (id / 256) as u8]
}

/// The number after `id`, rolling over after 65535.
pub open spec fn next_ping_id(id: u16) -> u16 {
    if id == u16::MAX {
        0
    } else {
        (id + 1) as u16
    }
}

/// The protocol state of a connection: the number of the last ping and when
/// it was sent. Times are readings of one monotonic clock, in nanoseconds.
#[derive(Debug, Clone, Copy, PartialEq, Eq)]
pub struct RemoteConnection {
    pub last_ping_start: u128,
    pub last_ping_id: u16,
}

impl RemoteConnection {
    /// What an incoming frame means in this state at the time `now`.
    pub open spec fn reception(self, frame: FrameView, now: u128) -> ReceptionView {
        match frame {
            FrameView::Text(text) => ReceptionView::Decode(text),
            FrameView::Close => ReceptionView::Message(RemoteMessageView::Close),
            FrameView::Pong(payload) => if payload == ping_payload(self.last_ping_id) && now
                >= self.last_ping_start {
                ReceptionView::Message(
                    RemoteMessageView::Ping((now - self.last_ping_start) as u128),
                )
            } else {
                ReceptionView::Skip
            },
            FrameView::Ping(payload) => ReceptionView::Reply(FrameView::Pong(payload)),
            FrameView::Binary(bytes) => ReceptionView::Unsupported(FrameView::Binary(bytes)),
        }
    }

    /// A connection opened at the time `now`; no ping is out yet.
    pub fn new(now: u128) -> (conn: Self)
        ensures
            conn == (RemoteConnection { last_ping_start: now, last_ping_id: 0 }),
    {
        Self { last_ping_start: now, last_ping_id: 0 }
    }

    /// Numbers the next ping, notes that it leaves at the time `now`, and
    /// returns the frame to send.
    pub fn ping(&mut self, now: u128) -> (frame: Frame)
        ensures
            final(self).last_ping_id == next_ping_id(old(self).last_ping_id),
            final(self).last_ping_start == now,
            frame@ == FrameView::Ping(ping_payload(final(self).last_ping_id)),
    {
        self.last_ping_id = if self.last_ping_id == u16::MAX {
            0
        } else {
            self.last_ping_id + 1
        };
        self.last_ping_start = now;
        let mut payload: Vec<u8> = Vec::new();
        payload.push((self.last_ping_id % 256) as u8);
        payload.push((self.last_ping_id / 256) as u8);
        assert(payload@ =~= ping_payload(self.last_ping_id));
        Frame::Ping(payload)
    }

    /// What an incoming frame means: a text is to be decoded; a close ends
    /// the connection; a ping is answered with a pong of the same payload; a
    /// pong that carries the number of the last ping gives the round trip,
    /// any other pong is dropped; every other frame is an error.
    pub fn on_frame(&self, frame: Frame, now: u128) -> (reception: Reception)
        ensures
            reception@ == self.reception(frame@, now),
    {
        match frame {
            Frame::Text(text) => Reception::Decode(text),
            Frame::Close => Reception::Message(RemoteMessage::Close),
            Frame::Pong(payload) => {
                if payload.len() == 2 && payload[0] == (self.last_ping_id % 256) as u8
                    && payload[1] == (self.last_ping_id / 256) as u8 && now
                    >= self.last_ping_start {
                    assert(payload@ =~= ping_payload(self.last_ping_id));
                    Reception::Message(RemoteMessage::Ping(now - self.last_ping_start))
                } else {
                    Reception::Skip
                }
            },
            Frame::Ping(payload) => Reception::Reply(Frame::Pong(payload)),
            Frame::Binary(bytes) => Reception::Unsupported(Frame::Binary(bytes)),
        }
    }

    /// What the end of the stream means: the connection is closed.
    pub fn on_end(&self) -> (reception: Reception)
        ensures
            reception@ == ReceptionView::Message(RemoteMessageView::Close),
    {
        Reception::Message(RemoteMessage::Close)
    }
}

/// A pong is taken for the answer to the last ping only if it carries the
/// last ping's number; so after a new ping an old pong gives no round trip.
pub proof fn law_only_the_last_ping_is_answered(
    conn: RemoteConnection,
    payload: Seq<u8>,
    now: u128,
)
    ensures
        conn.reception(FrameView::Pong(payload), now) is Message ==> payload == ping_payload(
            conn.last_ping_id,
        ) && now >= conn.last_ping_start,
        forall|a: u16, b: u16| ping_payload(a) == ping_payload(b) ==> a == b,
{
    assert forall|a: u16, b: u16| ping_payload(a) == ping_payload(b) implies a == b by {}
}

} // verus!
