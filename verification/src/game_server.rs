//! The registry of live rooms: the one place where rooms are created and
//! where players ask to join.
//!
//! The registry decides; its owner carries out. Reading a room's log and
//! passing a message on to a room are the owner's work, and their results
//! come back through [`GameServer::on_loaded`] and
//! [`GameServer::on_forward_failed`].

use vstd::prelude::*;

use crate::ids::is_url_safe;
use crate::player::{PlayerInformation, PlayerInformationView};
use crate::ports::{read_of, DbResult};
use crate::room::model::{created_deck, restorable, RoomView};
use crate::room::{
    RejectReason, Room, RoomEvent, RoomEventView, RoomMessage, RoomMessageView,
};
use crate::text::same_text;

verus! {

/// What the registry is asked.
#[derive(Debug, Clone, PartialEq, Eq)]
pub enum GameServerMessage {
    /// A player wants into the room with this id.
    Join { room: String, player: PlayerInformation },
    /// Somebody wants a new room with this deck: a player, who then joins
    /// it, or nobody in particular, who then gets the room's id as reply.
    Create { deck: String, player: Option<PlayerInformation> },
}

/// The mathematical value of a [`GameServerMessage`].
pub enum GameServerMessageView {
    Join { room: Seq<char>, player: PlayerInformationView },
    Create { deck: Seq<char>, player: Option<PlayerInformationView> },
}

impl View for GameServerMessage {
    type V = GameServerMessageView;

    open spec fn view(&self) -> GameServerMessageView {
        match self {
            GameServerMessage::Join { room, player } => GameServerMessageView::Join {
                room: room@,
                player: player@,
            },
            GameServerMessage::Create { deck, player } => GameServerMessageView::Create {
                deck: deck@,
                player: player.deep_view(),
            },
        }
    }
}

impl DeepView for GameServerMessage {
    type V = GameServerMessageView;

    open spec fn deep_view(&self) -> GameServerMessageView {
        self@
    }
}

/// What the owner of the registry has to do.
#[derive(Debug)]
pub enum GameServerEffect {
    /// Start this room under its id. With a `log` entry, append that to the
    /// room's log first.
    Spawn { room: Room, log: Option<RoomEvent> },
    /// Pass the message on to the live room with this id. If that fails,
    /// call [`GameServer::on_forward_failed`].
    Forward { room: String, msg: RoomMessage },
    /// Read the log of the room with this id and call
    /// [`GameServer::on_loaded`] with it.
    Load { room: String, player: PlayerInformation },
    /// Tell the player with this id that it was rejected.
    Reject { player: String, reason: RejectReason },
    /// Answer the request for a new room with the room's id.
    Reply(String),
}

/// The mathematical value of a [`GameServerEffect`].
pub enum GameServerEffectView {
    Spawn { room: RoomView, log: Option<RoomEventView> },
    Forward { room: Seq<char>, msg: RoomMessageView },
    Load { room: Seq<char>, player: PlayerInformationView },
    Reject { player: Seq<char>, reason: RejectReason },
    Reply(Seq<char>),
}

impl View for GameServerEffect {
    type V = GameServerEffectView;

    open spec fn view(&self) -> GameServerEffectView {
        match self {
            GameServerEffect::Spawn { room, log } => GameServerEffectView::Spawn {
                room: room@,
                log: log.deep_view(),
            },
            GameServerEffect::Forward { room, msg } => GameServerEffectView::Forward {
                room: room@,
                msg: msg@,
            },
            GameServerEffect::Load { room, player } => GameServerEffectView::Load {
                room: room@,
                player: player@,
            },
            GameServerEffect::Reject { player, reason } => GameServerEffectView::Reject {
                player: player@,
                reason: *reason,
            },
            GameServerEffect::Reply(room) => GameServerEffectView::Reply(room@),
        }
    }
}

impl DeepView for GameServerEffect {
    type V = GameServerEffectView;

    open spec fn deep_view(&self) -> GameServerEffectView {
        self@
    }
}

/// The registry after a step, and what the step has its owner do.
pub struct Decision {
    pub rooms: Set<Seq<char>>,
    pub effects: Seq<GameServerEffectView>,
}

/// A player asks to join: a live room gets the request, any other room's log
/// is to be read.
pub open spec fn join(rooms: Set<Seq<char>>, room: Seq<char>, player: PlayerInformationView)
    -> Decision {
    Decision {
        rooms,
        effects: if rooms.contains(room) {
            seq![
                GameServerEffectView::Forward { room, msg: RoomMessageView::JoinRequest(player) },
            ]
        } else {
            seq![GameServerEffectView::Load { room, player }]
        },
    }
}

/// A room with the id `id` is created: it starts empty, its creation is
/// logged, and it is registered. A player who asked for it joins it; anybody
/// else gets the id as reply.
pub open spec fn create(
    rooms: Set<Seq<char>>,
    id: Seq<char>,
    deck: Seq<char>,
    player: Option<PlayerInformationView>,
) -> Decision {
    Decision {
        rooms: rooms.insert(id),
        effects: seq![
            GameServerEffectView::Spawn {
                room: RoomView::empty(id, deck),
                log: Some(RoomEventView::Created { deck }),
            },
            match player {
                Some(player) => GameServerEffectView::Forward {
                    room: id,
                    msg: RoomMessageView::JoinRequest(player),
                },
                None => GameServerEffectView::Reply(id),
            },
        ],
    }
}

/// A join request could not be passed on: the room is gone. It leaves the
/// registry, and the player is told that the room does not exist.
pub open spec fn forward_failed(rooms: Set<Seq<char>>, room: Seq<char>, player: Seq<char>)
    -> Decision {
    Decision {
        rooms: rooms.remove(room),
        effects: seq![
            GameServerEffectView::Reject { player, reason: RejectReason::RoomDoesNotExist },
        ],
    }
}

/// The log of a room that is not live was read, or could not be (`None`).
/// Without a log the room does not exist; from a log that starts with the
/// creation and holds no second one the room is restored, registered and
/// given the join request; a read that failed, or any other log, is an error.
pub open spec fn loaded(
    rooms: Set<Seq<char>>,
    room: Seq<char>,
    player: PlayerInformationView,
    events: Option<Seq<RoomEventView>>,
) -> Decision {
    match events {
        Some(events) if events.len() == 0 => Decision {
            rooms,
            effects: seq![
                GameServerEffectView::Reject {
                    player: player.id,
                    reason: RejectReason::RoomDoesNotExist,
                },
            ],
        },
        Some(events) if restorable(events) => Decision {
            rooms: rooms.insert(room),
            effects: seq![
                GameServerEffectView::Spawn {
                    room: RoomView::empty(room, created_deck(events[0])),
                    log: None,
                },
                GameServerEffectView::Forward { room, msg: RoomMessageView::JoinRequest(player) },
            ],
        },
        _ => Decision {
            rooms,
            effects: seq![
                GameServerEffectView::Reject {
                    player: player.id,
                    reason: RejectReason::JoinGameError,
                },
            ],
        },
    }
}

/// A room was created under some fresh id: 22 characters of the URL-safe
/// alphabet.
pub open spec fn created_fresh(
    before: Set<Seq<char>>,
    deck: Seq<char>,
    player: Option<PlayerInformationView>,
    after: Set<Seq<char>>,
    effects: Seq<GameServerEffectView>,
) -> bool {
    exists|id: Seq<char>|
        {
            &&& id.len() == 22
            &&& forall|i: int| 0 <= i < id.len() ==> is_url_safe(#[trigger] id[i])
            &&& after == create(before, id, deck, player).rooms
            &&& effects == #[trigger] create(before, id, deck, player).effects
        }
}

/// The registry went from `before` to `after` and asked for `effects` in
/// answer to `msg`.
pub open spec fn answers(
    before: Set<Seq<char>>,
    msg: GameServerMessageView,
    after: Set<Seq<char>>,
    effects: Seq<GameServerEffectView>,
) -> bool {
    match msg {
        GameServerMessageView::Join { room, player } => after == before && effects == join(
            before,
            room,
            player,
        ).effects,
        GameServerMessageView::Create { deck, player } => created_fresh(
            before,
            deck,
            player,
            after,
            effects,
        ),
    }
}

/// How many messages the registry's mailbox holds before senders wait.
pub const GAME_SERVER_MAILBOX: usize = 64;

/// The registry of live rooms.
#[derive(Debug)]
pub struct GameServer {
    rooms: Vec<String>,
}

impl View for GameServer {
    type V = Set<Seq<char>>;

    /// The ids of the live rooms.
    closed spec fn view(&self) -> Set<Seq<char>> {
        Set::new(|id: Seq<char>| exists|i: int| 0 <= i < self.rooms.len() && self.rooms[i]@ == id)
    }
}

impl GameServer {
    /// A registry without rooms.
    pub fn new() -> (server: Self)
        ensures
            server@ == Set::<Seq<char>>::empty(),
    {
        let server = Self { rooms: Vec::new() };
        server
    }

    /// Whether a room with this id is live.
    pub fn has_room(&self, room: &str) -> (live: bool)
        ensures
            live == self@.contains(room@),
    {
        let mut i: usize = 0;
        while i < self.rooms.len()
            invariant
                i <= self.rooms.len(),
                forall|k: int| 0 <= k < i ==> self.rooms[k]@ != room@,
            decreases self.rooms.len() - i,
        {
            if same_text(self.rooms[i].as_str(), room) {
                return true;
            }
            i += 1;
        }
        false
    }

    /// Enters a room's id.
    fn register(&mut self, room: String)
        ensures
            final(self)@ == old(self)@.insert(room@),
    {
        if !self.has_room(room.as_str()) {
            self.rooms.push(room);
            assert forall|id: Seq<char>| final(self)@.contains(id) == old(self)@.insert(
                room@,
            ).contains(id) by {
                if old(self)@.contains(id) {
                    let i = choose|i: int| 0 <= i < old(self).rooms.len() && old(self).rooms[i]@ == id;
                    assert(self.rooms[i]@ == id);
                }
                if id == room@ {
                    assert(self.rooms[old(self).rooms.len() as int]@ == id);
                }
            }
        }
    }

    /// Strikes a room's id.
    fn unregister(&mut self, room: &str)
        ensures
            final(self)@ == old(self)@.remove(room@),
    {
        let mut kept: Vec<String> = Vec::new();
        let mut i: usize = 0;
        while i < self.rooms.len()
            invariant
                i <= self.rooms.len(),
                forall|k: int| 0 <= k < kept.len() ==> kept[k]@ != room@,
                forall|k: int|
                    0 <= k < kept.len() ==> exists|j: int|
                        0 <= j < i && self.rooms[j]@ == #[trigger] kept[k]@,
                forall|j: int|
                    0 <= j < i && self.rooms[j]@ != room@ ==> exists|k: int|
                        0 <= k < kept.len() && kept[k]@ == #[trigger] self.rooms[j]@,
            decreases self.rooms.len() - i,
        {
            if !same_text(self.rooms[i].as_str(), room) {
                let ghost before = kept@;
                kept.push(self.rooms[i].clone());
                assert forall|j: int| 0 <= j < i + 1 && self.rooms[j]@ != room@ implies exists|
                    k: int,
                |
                    0 <= k < kept.len() && kept[k]@ == #[trigger] self.rooms[j]@ by {
                    if j < i {
                        let k = choose|k: int| 0 <= k < before.len() && before[k]@ == self.rooms[j]@;
                        assert(kept[k]@ == self.rooms[j]@);
                    } else {
                        assert(kept[before.len() as int]@ == self.rooms[j]@);
                    }
                }
            }
            i += 1;
        }
        self.rooms = kept;
        assert forall|id: Seq<char>| final(self)@.contains(id) == old(self)@.remove(
            room@,
        ).contains(id) by {
            if final(self)@.contains(id) {
                let k = choose|k: int| 0 <= k < kept.len() && kept[k]@ == id;
            }
            if old(self)@.remove(room@).contains(id) {
                let j = choose|j: int| 0 <= j < old(self).rooms.len() && old(self).rooms[j]@ == id;
            }
        }
    }

    /// A player asks to join a room.
    pub fn join(&self, room: String, player: PlayerInformation) -> (effects: Vec<
        GameServerEffect,
    >)
        ensures
            effects.deep_view() == join(self@, room@, player@).effects,
    {
        let mut effects: Vec<GameServerEffect> = Vec::new();
        let effect = if self.has_room(room.as_str()) {
            GameServerEffect::Forward { room, msg: RoomMessage::JoinRequest(player) }
        } else {
            GameServerEffect::Load { room, player }
        };
        effects.push(effect);
        effects
    }

    /// Creates the room with the id `id`.
    pub fn create_with_id(&mut self, id: String, deck: String, player: Option<PlayerInformation>)
        -> (effects: Vec<GameServerEffect>)
        ensures
            final(self)@ == create(old(self)@, id@, deck@, player.deep_view()).rooms,
            effects.deep_view() == create(old(self)@, id@, deck@, player.deep_view()).effects,
    {
        let (room, event) = Room::new(id.as_str(), deck);
        self.register(id.clone());
        let mut effects: Vec<GameServerEffect> = Vec::new();
        let spawn = GameServerEffect::Spawn { room, log: Some(event) };
        let then = match player {
            Some(player) => GameServerEffect::Forward {
                room: id,
                msg: RoomMessage::JoinRequest(player),
            },
            None => GameServerEffect::Reply(id),
        };
        effects.push(spawn);
        effects.push(then);
        effects
    }

    /// Creates a room under a fresh id: the URL-safe text of sixteen
    /// time-ordered bytes.
    pub fn create(&mut self, deck: String, player: Option<PlayerInformation>) -> (effects: Vec<
        GameServerEffect,
    >)
        ensures
            created_fresh(
                old(self)@,
                deck@,
                player.deep_view(),
                final(self)@,
                effects.deep_view(),
            ),
    {
        let id = Room::gen_id();
        let effects = self.create_with_id(id, deck, player);
        effects
    }

    /// A join request could not be passed on to the room.
    pub fn on_forward_failed(&mut self, room: &str, player: &str) -> (effects: Vec<
        GameServerEffect,
    >)
        ensures
            final(self)@ == forward_failed(old(self)@, room@, player@).rooms,
            effects.deep_view() == forward_failed(old(self)@, room@, player@).effects,
    {
        self.unregister(room);
        let mut effects: Vec<GameServerEffect> = Vec::new();
        let effect = GameServerEffect::Reject {
            player: player.to_owned(),
            reason: RejectReason::RoomDoesNotExist,
        };
        effects.push(effect);
        effects
    }

    /// The log of a room was read, or the read failed.
    pub fn on_loaded(
        &mut self,
        room: String,
        player: PlayerInformation,
        events: DbResult<Vec<RoomEvent>>,
    ) -> (effects: Vec<GameServerEffect>)
        ensures
            final(self)@ == loaded(old(self)@, room@, player@, read_of(events)).rooms,
            effects.deep_view() == loaded(old(self)@, room@, player@, read_of(events)).effects,
    {
        let mut effects: Vec<GameServerEffect> = Vec::new();
        match events {
            Ok(events) => {
                if events.len() == 0 {
                    let effect = GameServerEffect::Reject {
                        player: player.id,
                        reason: RejectReason::RoomDoesNotExist,
                    };
                    effects.push(effect);
                    return effects;
                }
                match Room::restore(room.as_str(), events) {
                    Some(restored) => {
                        self.register(room.clone());
                        let spawn = GameServerEffect::Spawn { room: restored, log: None };
                        let forward = GameServerEffect::Forward {
                            room,
                            msg: RoomMessage::JoinRequest(player),
                        };
                        effects.push(spawn);
                        effects.push(forward);
                        effects
                    },
                    None => {
                        let effect = GameServerEffect::Reject {
                            player: player.id,
                            reason: RejectReason::JoinGameError,
                        };
                        effects.push(effect);
                        effects
                    },
                }
            },
            Err(_) => {
                let effect = GameServerEffect::Reject {
                    player: player.id,
                    reason: RejectReason::JoinGameError,
                };
                effects.push(effect);
                effects
            },
        }
    }

    /// Handles one message: a request to join is answered as [`join`] says;
    /// a request for a room creates one under a fresh id, as [`create`] says.
    pub fn on_message(&mut self, msg: GameServerMessage) -> (effects: Vec<GameServerEffect>)
        ensures
            answers(old(self)@, msg@, final(self)@, effects.deep_view()),
    {
        match msg {
            GameServerMessage::Join { room, player } => {
                let effects = self.join(room, player);
                effects
            },
            GameServerMessage::Create { deck, player } => {
                let effects = self.create(deck, player);
                effects
            },
        }
    }
}

/// A room enters the registry only by its creation or its restoration, and a
/// request to join a room that is live is passed on to it without reading
/// any log.
pub proof fn law_live_rooms_get_their_joins(
    rooms: Set<Seq<char>>,
    room: Seq<char>,
    player: PlayerInformationView,
)
    requires
        rooms.contains(room),
    ensures
        join(rooms, room, player).effects == seq![
            GameServerEffectView::Forward { room, msg: RoomMessageView::JoinRequest(player) },
        ],
        join(rooms, room, player).rooms == rooms,
{
}

/// Once a room has left the registry, the next request to join it has its
/// log read: the room is restored from the event store.
pub proof fn law_gone_rooms_are_restored_from_their_log(
    rooms: Set<Seq<char>>,
    room: Seq<char>,
    leaver: Seq<char>,
    player: PlayerInformationView,
)
    ensures
        join(forward_failed(rooms, room, leaver).rooms, room, player).effects == seq![
            GameServerEffectView::Load { room, player },
        ],
{
}

} // verus!
