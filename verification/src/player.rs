//! One connected participant: the bridge between a client and the room it
//! is in.
//!
//! A player is a state machine with three sources of events: the client, the
//! player's own mailbox, and the ping timer. [`Player::handle`] takes one
//! event, moves the player to its next state and returns, in order, what its
//! owner has to do. The owner holds the connection and the addresses of the
//! registry and of the room.

use vstd::prelude::*;

use crate::game_server::{GameServerMessage, GameServerMessageView};
use crate::ids::{is_alphanumeric, random_alphanumeric, PLAYER_ID_CHARS};
use crate::remote::{RemoteMessage, RemoteMessageView};
use crate::room::{
    GamePlayerMessage, GamePlayerMessageView, RoomMessage, RoomMessageView,
};
use crate::text::{copy_opt_text, same_text};

verus! {

/// What a player tells a room about itself when it joins.
#[derive(Debug, Clone, PartialEq, Eq)]
pub struct PlayerInformation {
    pub id: String,
    pub voter: bool,
    pub name: Option<String>,
}

/// The mathematical value of a [`PlayerInformation`].
pub struct PlayerInformationView {
    pub id: Seq<char>,
    pub voter: bool,
    pub name: Option<Seq<char>>,
}

impl View for PlayerInformation {
    type V = PlayerInformationView;

    open spec fn view(&self) -> PlayerInformationView {
        PlayerInformationView {
            id: self.id@,
            voter: self.voter,
            name: self.name.deep_view(),
        }
    }
}

impl DeepView for PlayerInformation {
    type V = PlayerInformationView;

    open spec fn deep_view(&self) -> PlayerInformationView {
        self@
    }
}

/// How many messages a player's mailbox holds before senders wait.
pub const PLAYER_MAILBOX: usize = 16;

/// Seconds between two pings to the client.
pub const PING_INTERVAL_SECS: u64 = 30;

/// What stands for the id of a room that the player has asked for and that
/// has no id yet.
pub open spec fn to_be_created() -> Seq<char> {
    "<to be created>"@
}

/// What stands for the id of a room that the player has asked for and that
/// has no id yet.
pub fn to_be_created_text() -> (text: String)
    ensures
        text@ == to_be_created(),
{
    "<to be created>".to_owned()
}

/// What the owner of a player has to do.
#[derive(Debug, Clone, PartialEq, Eq)]
pub enum PlayerEffect {
    /// Send the message to the client. A failure is logged.
    ToRemote(RemoteMessage),
    /// Send a ping to the client. A failure is logged.
    Ping,
    /// Send the message to the room whose address the player keeps. If that
    /// fails, call [`Player::on_send_failed`].
    ToRoom(RoomMessage),
    /// Send the message to the registry. If that fails, call
    /// [`Player::on_send_failed`].
    ToGameServer(GameServerMessage),
    /// Send the message to the room whose address the player keeps, and
    /// drop the address. A failure is ignored.
    Leave(RoomMessage),
    /// Keep the address of the room that sent the welcome.
    Adopt,
    /// Send the message to the room that sent the welcome, and do not keep
    /// its address. A failure is ignored.
    Decline(RoomMessage),
}

/// The mathematical value of a [`PlayerEffect`].
pub enum PlayerEffectView {
    ToRemote(RemoteMessageView),
    Ping,
    ToRoom(RoomMessageView),
    ToGameServer(GameServerMessageView),
    Leave(RoomMessageView),
    Adopt,
    Decline(RoomMessageView),
}

impl View for PlayerEffect {
    type V = PlayerEffectView;

    open spec fn view(&self) -> PlayerEffectView {
        match self {
            PlayerEffect::ToRemote(msg) => PlayerEffectView::ToRemote(msg@),
            PlayerEffect::Ping => PlayerEffectView::Ping,
            PlayerEffect::ToRoom(msg) => PlayerEffectView::ToRoom(msg@),
            PlayerEffect::ToGameServer(msg) => PlayerEffectView::ToGameServer(msg@),
            PlayerEffect::Leave(msg) => PlayerEffectView::Leave(msg@),
            PlayerEffect::Adopt => PlayerEffectView::Adopt,
            PlayerEffect::Decline(msg) => PlayerEffectView::Decline(msg@),
        }
    }
}

impl DeepView for PlayerEffect {
    type V = PlayerEffectView;

    open spec fn deep_view(&self) -> PlayerEffectView {
        self@
    }
}

/// What happens to a player.
#[derive(Debug, Clone, PartialEq, Eq)]
pub enum PlayerEvent {
    /// The client sent a message, or its connection ended (`Close`).
    Remote(RemoteMessage),
    /// Reading from the client failed.
    RemoteError,
    /// A message arrived in the player's mailbox.
    Mailbox(GamePlayerMessage),
    /// The player's mailbox was closed.
    MailboxClosed,
    /// The ping timer ticked.
    Tick,
}

/// The mathematical value of a [`PlayerEvent`].
pub enum PlayerEventView {
    Remote(RemoteMessageView),
    RemoteError,
    Mailbox(GamePlayerMessageView),
    MailboxClosed,
    Tick,
}

impl View for PlayerEvent {
    type V = PlayerEventView;

    open spec fn view(&self) -> PlayerEventView {
        match self {
            PlayerEvent::Remote(msg) => PlayerEventView::Remote(msg@),
            PlayerEvent::RemoteError => PlayerEventView::RemoteError,
            PlayerEvent::Mailbox(msg) => PlayerEventView::Mailbox(msg@),
            PlayerEvent::MailboxClosed => PlayerEventView::MailboxClosed,
            PlayerEvent::Tick => PlayerEventView::Tick,
        }
    }
}

/// A player after an event: its state, whether it lives on, and what the
/// event has its owner do.
pub struct Reaction {
    pub player: PlayerView,
    pub alive: bool,
    pub effects: Seq<PlayerEffectView>,
}

/// The state of a player.
pub struct PlayerView {
    pub id: Seq<char>,
    /// The room the player has asked for or is in.
    pub room_id: Option<Seq<char>>,
    /// Whether the player keeps a room's address: it was welcomed there.
    pub in_room: bool,
    pub name: Option<Seq<char>>,
    pub voter: bool,
}

impl PlayerView {
    /// A player that has just connected: in no room, a voter, without name.
    pub open spec fn connected(id: Seq<char>) -> PlayerView {
        PlayerView { id, room_id: None, in_room: false, name: None, voter: true }
    }

    /// What the player tells rooms of itself.
    pub open spec fn information(self) -> PlayerInformationView {
        PlayerInformationView { id: self.id, voter: self.voter, name: self.name }
    }

    /// The player goes on as it is, with nothing to do.
    pub open spec fn idle(self) -> Reaction {
        Reaction { player: self, alive: true, effects: Seq::empty() }
    }

    /// The player ends, with nothing to do.
    pub open spec fn end(self) -> Reaction {
        Reaction { player: self, alive: false, effects: Seq::empty() }
    }

    /// The farewell to the room whose address the player keeps, if it keeps
    /// one and has asked for a room.
    pub open spec fn leave_old_room(self) -> Seq<PlayerEffectView> {
        if self.room_id is Some && self.in_room {
            seq![PlayerEffectView::Leave(RoomMessageView::PlayerLeft(self.id))]
        } else {
            Seq::empty()
        }
    }

    /// The player asks the registry for the room `room_id`, after it has
    /// left the room it was in.
    pub open spec fn request(self, room_id: Seq<char>, msg: GameServerMessageView) -> Reaction {
        Reaction {
            player: PlayerView {
                room_id: Some(room_id),
                in_room: self.in_room && self.room_id is None,
                ..self
            },
            alive: true,
            effects: self.leave_old_room() + seq![PlayerEffectView::ToGameServer(msg)],
        }
    }

    /// The player passes a message on to its room, if it is in one.
    pub open spec fn send_to_room(self, msg: RoomMessageView) -> Reaction {
        Reaction {
            player: self,
            alive: true,
            effects: if self.in_room {
                seq![PlayerEffectView::ToRoom(msg)]
            } else {
                Seq::empty()
            },
        }
    }

    /// The client sent a message.
    pub open spec fn on_remote_message(self, msg: RemoteMessageView) -> Reaction {
        match msg {
            RemoteMessageView::Close => self.end(),
            RemoteMessageView::CreateRoom { deck } => self.request(
                to_be_created(),
                GameServerMessageView::Create { deck, player: Some(self.information()) },
            ),
            RemoteMessageView::JoinRoom { room } => if self.room_id == Some(room) {
                self.idle()
            } else {
                self.request(
                    room,
                    GameServerMessageView::Join { room, player: self.information() },
                )
            },
            RemoteMessageView::Vote { vote } => self.send_to_room(
                RoomMessageView::PlayerVoted(self.id, vote),
            ),
            RemoteMessageView::UpdatePlayer { voter, name } => (PlayerView {
                voter,
                name,
                ..self
            }).send_to_room(RoomMessageView::UpdatePlayer { id: self.id, voter, name }),
            RemoteMessageView::ForceOpen => self.send_to_room(RoomMessageView::ForceOpen),
            RemoteMessageView::Restart => self.send_to_room(RoomMessageView::Restart),
            _ => self.idle(),
        }
    }

    /// Whether a welcome from the room `room` is one the player waits for.
    pub open spec fn expects(self, room: Seq<char>) -> bool {
        self.room_id == Some(room) || self.room_id == Some(to_be_created())
    }

    /// A message arrived in the mailbox.
    pub open spec fn on_message(self, msg: GamePlayerMessageView) -> Reaction {
        match msg {
            GamePlayerMessageView::Welcome(room, state, players) => if self.expects(room) {
                Reaction {
                    player: PlayerView { in_room: true, ..self },
                    alive: true,
                    effects: seq![
                        PlayerEffectView::Adopt,
                        PlayerEffectView::ToRemote(
                            RemoteMessageView::Joined { room, state, players },
                        ),
                    ],
                }
            } else {
                Reaction {
                    player: self,
                    alive: true,
                    effects: seq![
                        PlayerEffectView::Decline(RoomMessageView::PlayerLeft(self.id)),
                    ],
                }
            },
            GamePlayerMessageView::Rejected(_) => self.tell(RemoteMessageView::Rejected),
            GamePlayerMessageView::PlayerJoined(player) => self.tell(
                RemoteMessageView::PlayerJoined { player },
            ),
            GamePlayerMessageView::PlayerChanged(player) => self.tell(
                RemoteMessageView::PlayerChanged { player },
            ),
            GamePlayerMessageView::PlayerLeft(player_id) => self.tell(
                RemoteMessageView::PlayerLeft { player_id },
            ),
            GamePlayerMessageView::GameStateChanged(game_state) => self.tell(
                RemoteMessageView::GameChanged { game_state },
            ),
        }
    }

    /// The player passes a message on to its client.
    pub open spec fn tell(self, msg: RemoteMessageView) -> Reaction {
        Reaction { player: self, alive: true, effects: seq![PlayerEffectView::ToRemote(msg)] }
    }

    /// The room or the registry could not be reached: the player is in no
    /// room any more, and its client is told that it was rejected.
    pub open spec fn on_send_failed(self) -> Reaction {
        Reaction {
            player: PlayerView { room_id: None, in_room: false, ..self },
            alive: true,
            effects: seq![PlayerEffectView::ToRemote(RemoteMessageView::Rejected)],
        }
    }

    /// The player's answer to one event.
    pub open spec fn handle(self, event: PlayerEventView) -> Reaction {
        match event {
            PlayerEventView::Remote(msg) => self.on_remote_message(msg),
            PlayerEventView::RemoteError => self.end(),
            PlayerEventView::Mailbox(msg) => self.on_message(msg),
            PlayerEventView::MailboxClosed => self.end(),
            PlayerEventView::Tick => Reaction {
                player: self,
                alive: true,
                effects: seq![PlayerEffectView::Ping],
            },
        }
    }

    /// What a player does when it starts: it tells the client its id and
    /// sends a first ping.
    pub open spec fn setup(self) -> Seq<PlayerEffectView> {
        seq![
            PlayerEffectView::ToRemote(RemoteMessageView::Welcome { player_id: self.id }),
            PlayerEffectView::Ping,
        ]
    }

    /// What a player does when it ends: it takes leave of the room it is in.
    pub open spec fn tear_down(self) -> Seq<PlayerEffectView> {
        if self.in_room {
            seq![PlayerEffectView::Leave(RoomMessageView::PlayerLeft(self.id))]
        } else {
            Seq::empty()
        }
    }
}

/// A connected participant.
#[derive(Debug, Clone, PartialEq, Eq)]
pub struct Player {
    id: String,
    room_id: Option<String>,
    in_room: bool,
    name: Option<String>,
    voter: bool,
}

impl View for Player {
    type V = PlayerView;

    closed spec fn view(&self) -> PlayerView {
        PlayerView {
            id: self.id@,
            room_id: self.room_id.deep_view(),
            in_room: self.in_room,
            name: self.name.deep_view(),
            voter: self.voter,
        }
    }
}

/// The effects as a list of one.
fn one(effect: PlayerEffect) -> (effects: Vec<PlayerEffect>)
    ensures
        effects.deep_view() == seq![effect@],
{
    let mut effects: Vec<PlayerEffect> = Vec::new();
    effects.push(effect);
    effects
}

/// No effects.
fn none() -> (effects: Vec<PlayerEffect>)
    ensures
        effects.deep_view() == Seq::<PlayerEffectView>::empty(),
{
    let effects: Vec<PlayerEffect> = Vec::new();
    effects
}

impl Player {
    /// A player that has just connected, with the id `id`.
    pub fn with_id(id: String) -> (player: Self)
        ensures
            player@ == PlayerView::connected(id@),
    {
        Self { id, room_id: None, in_room: false, name: None, voter: true }
    }

    /// A player that has just connected, with a fresh id.
    pub fn new() -> (player: Self)
        ensures
            player@ == PlayerView::connected(player@.id),
            player@.id.len() == PLAYER_ID_CHARS,
            forall|i: int| 0 <= i < player@.id.len() ==> is_alphanumeric(#[trigger] player@.id[i]),
    {
        Self::with_id(Self::gen_id())
    }

    /// A fresh player id: sixteen random ASCII letters and digits.
    pub fn gen_id() -> (id: String)
        ensures
            id@.len() == PLAYER_ID_CHARS,
            forall|i: int| 0 <= i < id@.len() ==> is_alphanumeric(#[trigger] id@[i]),
    {
        random_alphanumeric(PLAYER_ID_CHARS)
    }

    pub fn id(&self) -> (id: &str)
        ensures
            id@ == self@.id,
    {
        self.id.as_str()
    }

    /// The room the player has asked for or is in.
    pub fn room_id(&self) -> (room_id: &Option<String>)
        ensures
            room_id.deep_view() == self@.room_id,
    {
        &self.room_id
    }

    /// Whether the player keeps a room's address.
    pub fn in_room(&self) -> (in_room: bool)
        ensures
            in_room == self@.in_room,
    {
        self.in_room
    }

    pub fn name(&self) -> (name: &Option<String>)
        ensures
            name.deep_view() == self@.name,
    {
        &self.name
    }

    pub fn is_voter(&self) -> (voter: bool)
        ensures
            voter == self@.voter,
    {
        self.voter
    }

    /// What the player tells rooms of itself.
    pub fn get_player_information(&self) -> (info: PlayerInformation)
        ensures
            info@ == self@.information(),
    {
        PlayerInformation {
            id: self.id.clone(),
            voter: self.voter,
            name: copy_opt_text(&self.name),
        }
    }

    /// Takes leave of the room whose address the player keeps.
    fn leave_old_room(&mut self) -> (effects: Vec<PlayerEffect>)
        ensures
            effects.deep_view() == old(self)@.leave_old_room(),
            final(self)@ == (PlayerView {
                in_room: old(self)@.in_room && old(self)@.room_id is None,
                ..old(self)@
            }),
    {
        if self.room_id.is_some() && self.in_room {
            self.in_room = false;
            one(PlayerEffect::Leave(RoomMessage::PlayerLeft(self.id.clone())))
        } else {
            none()
        }
    }

    /// Passes a message on to the room, if the player is in one.
    fn send_to_room(&self, msg: RoomMessage) -> (effects: Vec<PlayerEffect>)
        ensures
            effects.deep_view() == self@.send_to_room(msg@).effects,
    {
        if self.in_room {
            one(PlayerEffect::ToRoom(msg))
        } else {
            none()
        }
    }

    /// Asks the registry for a room, after leaving the room the player was
    /// in.
    fn request(&mut self, room_id: String, msg: GameServerMessage) -> (effects: Vec<PlayerEffect>)
        ensures
            final(self)@ == old(self)@.request(room_id@, msg@).player,
            effects.deep_view() == old(self)@.request(room_id@, msg@).effects,
    {
        let mut effects = self.leave_old_room();
        self.room_id = Some(room_id);
        let effect = PlayerEffect::ToGameServer(msg);
        effects.push(effect);
        effects
    }

    /// The client sent a message. Says whether the player lives on, and what
    /// its owner has to do.
    pub fn on_remote_message(&mut self, msg: RemoteMessage) -> (reaction: (
        bool,
        Vec<PlayerEffect>,
    ))
        ensures
            final(self)@ == old(self)@.on_remote_message(msg@).player,
            reaction.0 == old(self)@.on_remote_message(msg@).alive,
            reaction.1.deep_view() == old(self)@.on_remote_message(msg@).effects,
    {
        match msg {
            RemoteMessage::Close => (false, none()),
            RemoteMessage::CreateRoom { deck } => {
                let player = Some(self.get_player_information());
                let effects = self.request(
                    to_be_created_text(),
                    GameServerMessage::Create { deck, player },
                );
                (true, effects)
            },
            RemoteMessage::JoinRoom { room } => {
                let joined = match &self.room_id {
                    Some(current) => same_text(current.as_str(), room.as_str()),
                    None => false,
                };
                if joined {
                    (true, none())
                } else {
                    let player = self.get_player_information();
                    let effects = self.request(
                        room.clone(),
                        GameServerMessage::Join { room, player },
                    );
                    (true, effects)
                }
            },
            RemoteMessage::Vote { vote } => {
                let effects = self.send_to_room(RoomMessage::PlayerVoted(self.id.clone(), vote));
                (true, effects)
            },
            RemoteMessage::UpdatePlayer { voter, name } => {
                self.voter = voter;
                self.name = copy_opt_text(&name);
                let effects = self.send_to_room(
                    RoomMessage::UpdatePlayer { id: self.id.clone(), voter, name },
                );
                (true, effects)
            },
            RemoteMessage::ForceOpen => (true, self.send_to_room(RoomMessage::ForceOpen)),
            RemoteMessage::Restart => (true, self.send_to_room(RoomMessage::Restart)),
            _ => (true, none()),
        }
    }

    /// A message arrived in the player's mailbox. A welcome from the room
    /// the player asked for makes it a member and goes on to the client as
    /// `Joined`; a welcome from any other room is declined; everything else
    /// goes on to the client.
    pub fn on_message(&mut self, msg: GamePlayerMessage) -> (effects: Vec<PlayerEffect>)
        ensures
            final(self)@ == old(self)@.on_message(msg@).player,
            effects.deep_view() == old(self)@.on_message(msg@).effects,
    {
        match msg {
            GamePlayerMessage::Welcome(room, state, players) => {
                let expected = match &self.room_id {
                    Some(current) => same_text(current.as_str(), room.as_str()) || same_text(
                        current.as_str(),
                        "<to be created>",
                    ),
                    None => false,
                };
                if expected {
                    self.in_room = true;
                    let mut effects: Vec<PlayerEffect> = Vec::new();
                    let joined = PlayerEffect::ToRemote(
                        RemoteMessage::Joined { room, state, players },
                    );
                    effects.push(PlayerEffect::Adopt);
                    effects.push(joined);
                    effects
                } else {
                    one(PlayerEffect::Decline(RoomMessage::PlayerLeft(self.id.clone())))
                }
            },
            GamePlayerMessage::Rejected(_) => one(PlayerEffect::ToRemote(RemoteMessage::Rejected)),
            GamePlayerMessage::PlayerJoined(player) => one(
                PlayerEffect::ToRemote(RemoteMessage::PlayerJoined { player }),
            ),
            GamePlayerMessage::PlayerChanged(player) => one(
                PlayerEffect::ToRemote(RemoteMessage::PlayerChanged { player }),
            ),
            GamePlayerMessage::PlayerLeft(player_id) => one(
                PlayerEffect::ToRemote(RemoteMessage::PlayerLeft { player_id }),
            ),
            GamePlayerMessage::GameStateChanged(game_state) => one(
                PlayerEffect::ToRemote(RemoteMessage::GameChanged { game_state }),
            ),
        }
    }

    /// A message to the room or to the registry could not be sent.
    pub fn on_send_failed(&mut self) -> (effects: Vec<PlayerEffect>)
        ensures
            final(self)@ == old(self)@.on_send_failed().player,
            effects.deep_view() == old(self)@.on_send_failed().effects,
    {
        self.room_id = None;
        self.in_room = false;
        one(PlayerEffect::ToRemote(RemoteMessage::Rejected))
    }

    /// Handles one event. Says whether the player lives on, and what its
    /// owner has to do. The player ends when the client closes the
    /// connection, when reading from it fails, and when the player's mailbox
    /// is closed.
    pub fn handle(&mut self, event: PlayerEvent) -> (reaction: (bool, Vec<PlayerEffect>))
        ensures
            final(self)@ == old(self)@.handle(event@).player,
            reaction.0 == old(self)@.handle(event@).alive,
            reaction.1.deep_view() == old(self)@.handle(event@).effects,
    {
        match event {
            PlayerEvent::Remote(msg) => self.on_remote_message(msg),
            PlayerEvent::RemoteError => (false, none()),
            PlayerEvent::Mailbox(msg) => (true, self.on_message(msg)),
            PlayerEvent::MailboxClosed => (false, none()),
            PlayerEvent::Tick => (true, one(PlayerEffect::Ping)),
        }
    }

    /// What the player does when it starts.
    pub fn setup(&self) -> (effects: Vec<PlayerEffect>)
        ensures
            effects.deep_view() == self@.setup(),
    {
        let mut effects: Vec<PlayerEffect> = Vec::new();
        let welcome = PlayerEffect::ToRemote(RemoteMessage::Welcome { player_id: self.id.clone() });
        effects.push(welcome);
        effects.push(PlayerEffect::Ping);
        effects
    }

    /// What the player does when it ends.
    pub fn tear_down(&self) -> (effects: Vec<PlayerEffect>)
        ensures
            effects.deep_view() == self@.tear_down(),
    {
        if self.in_room {
            one(PlayerEffect::Leave(RoomMessage::PlayerLeft(self.id.clone())))
        } else {
            none()
        }
    }
}

/// A player never takes a welcome from a room it did not ask for: it keeps
/// no address and tells the room that it left.
pub proof fn law_unexpected_welcome_is_declined(
    player: PlayerView,
    room: Seq<char>,
    state: crate::room::GameStateView,
    players: Seq<crate::room::PlayerStateView>,
)
    requires
        !player.expects(room),
    ensures
        player.on_message(GamePlayerMessageView::Welcome(room, state, players)).player == player,
        player.on_message(GamePlayerMessageView::Welcome(room, state, players)).effects == seq![
            PlayerEffectView::Decline(RoomMessageView::PlayerLeft(player.id)),
        ],
{
}

/// A player that is in no room sends nothing to any room, whatever its
/// client says.
pub proof fn law_no_room_no_room_message(player: PlayerView, msg: RemoteMessageView, i: int)
    requires
        !player.in_room,
        0 <= i < player.on_remote_message(msg).effects.len(),
    ensures
        !(player.on_remote_message(msg).effects[i] is ToRoom),
        !(player.on_remote_message(msg).effects[i] is Leave),
{
}

} // verus!
