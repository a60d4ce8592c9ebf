//! One planning-poker room: who is in it, who has voted, and when the votes
//! are revealed.
//!
//! A room is a state machine. [`Room::on_message`] takes one message, moves
//! the room to its next state and returns what has to be done for it, in
//! order: events to append to the room's log, messages to deliver to single
//! players, the idle timer to arm, the room to shut down. The caller owns the
//! mailboxes and the event store and carries these effects out.

use vstd::prelude::*;

pub mod laws;
pub mod model;

use crate::ids::{base64_url, is_url_safe, room_id_of, time_ordered_bytes};
use crate::player::{PlayerInformation, PlayerInformationView};
use crate::room::model::{
    all_voted, ballots, cleared, created_deck, deliveries, hidden_vote, lemma_ballots_push,
    lemma_others_push, lemma_take_next, lemma_voters_push, others, restorable, voters_of,
    GamePlayerView, RoomView,
};
use crate::text::{copy_opt_text, same_text};

verus! {

/// Seconds an empty room waits before it closes itself.
pub const IDLE_GRACE_SECS: u64 = 300;

/// How many messages a room's mailbox holds before senders wait.
pub const ROOM_MAILBOX: usize = 64;

/// Why a player could not be placed in a room.
#[derive(Debug, PartialEq, Eq, Copy, Clone)]
pub enum RejectReason {
    RoomDoesNotExist,
    CreateGameError,
    JoinGameError,
}

/// What clients see of another player.
#[derive(Debug, PartialEq, Eq)]
pub struct PlayerState {
    pub id: String,
    pub name: Option<String>,
    pub voter: bool,
}

/// The mathematical value of a [`PlayerState`].
pub struct PlayerStateView {
    pub id: Seq<char>,
    pub name: Option<Seq<char>>,
    pub voter: bool,
}

impl View for PlayerState {
    type V = PlayerStateView;

    open spec fn view(&self) -> PlayerStateView {
        PlayerStateView { id: self.id@, name: self.name.deep_view(), voter: self.voter }
    }
}

impl DeepView for PlayerState {
    type V = PlayerStateView;

    open spec fn deep_view(&self) -> PlayerStateView {
        self@
    }
}

/// What clients see of the current round. `votes` has one entry for each
/// voter, in the room's player order.
#[derive(Debug, PartialEq, Eq)]
pub struct GameState {
    pub deck: String,
    pub open: bool,
    pub votes: Vec<(String, Option<String>)>,
}

/// The mathematical value of a [`GameState`].
pub struct GameStateView {
    pub deck: Seq<char>,
    pub open: bool,
    pub votes: Seq<(Seq<char>, Option<Seq<char>>)>,
}

impl GameStateView {
    /// Whether `id` has an entry among the votes.
    pub open spec fn lists(self, id: Seq<char>) -> bool {
        exists|i: int| 0 <= i < self.votes.len() && self.votes[i].0 == id
    }

    /// The votes as a mapping from player id to what is shown of the vote.
    pub open spec fn votes_map(self) -> Map<Seq<char>, Option<Seq<char>>> {
        Map::new(
            |id: Seq<char>| self.lists(id),
            |id: Seq<char>|
                self.votes[choose|i: int| 0 <= i < self.votes.len() && self.votes[i].0 == id].1,
        )
    }
}

impl View for GameState {
    type V = GameStateView;

    open spec fn view(&self) -> GameStateView {
        GameStateView { deck: self.deck@, open: self.open, votes: self.votes.deep_view() }
    }
}

impl DeepView for GameState {
    type V = GameStateView;

    open spec fn deep_view(&self) -> GameStateView {
        self@
    }
}

/// What a room sends to a player.
#[derive(Debug, PartialEq, Eq)]
pub enum GamePlayerMessage {
    /// The player is in: room id, the round, and everybody in the room.
    Welcome(String, GameState, Vec<PlayerState>),
    Rejected(RejectReason),
    PlayerJoined(PlayerState),
    PlayerChanged(PlayerState),
    PlayerLeft(String),
    GameStateChanged(GameState),
}

/// The mathematical value of a [`GamePlayerMessage`].
pub enum GamePlayerMessageView {
    Welcome(Seq<char>, GameStateView, Seq<PlayerStateView>),
    Rejected(RejectReason),
    PlayerJoined(PlayerStateView),
    PlayerChanged(PlayerStateView),
    PlayerLeft(Seq<char>),
    GameStateChanged(GameStateView),
}

impl View for GamePlayerMessage {
    type V = GamePlayerMessageView;

    open spec fn view(&self) -> GamePlayerMessageView {
        match self {
            GamePlayerMessage::Welcome(room, state, players) => GamePlayerMessageView::Welcome(
                room@,
                state@,
                players.deep_view(),
            ),
            GamePlayerMessage::Rejected(reason) => GamePlayerMessageView::Rejected(*reason),
            GamePlayerMessage::PlayerJoined(player) => GamePlayerMessageView::PlayerJoined(
                player@,
            ),
            GamePlayerMessage::PlayerChanged(player) => GamePlayerMessageView::PlayerChanged(
                player@,
            ),
            GamePlayerMessage::PlayerLeft(id) => GamePlayerMessageView::PlayerLeft(id@),
            GamePlayerMessage::GameStateChanged(state) => GamePlayerMessageView::GameStateChanged(
                state@,
            ),
        }
    }
}

impl DeepView for GamePlayerMessage {
    type V = GamePlayerMessageView;

    open spec fn deep_view(&self) -> GamePlayerMessageView {
        self@
    }
}

impl Clone for PlayerState {
    fn clone(&self) -> (copy: Self)
        ensures
            copy@ == self@,
    {
        PlayerState { id: self.id.clone(), name: copy_opt_text(&self.name), voter: self.voter }
    }
}

impl Clone for GameState {
    fn clone(&self) -> (copy: Self)
        ensures
            copy@ == self@,
    {
        let mut votes: Vec<(String, Option<String>)> = Vec::new();
        let mut i: usize = 0;
        while i < self.votes.len()
            invariant
                i <= self.votes.len(),
                votes.len() == i,
                forall|k: int| 0 <= k < i ==> votes[k].deep_view() == self.votes[k].deep_view(),
            decreases self.votes.len() - i,
        {
            votes.push((self.votes[i].0.clone(), copy_opt_text(&self.votes[i].1)));
            i += 1;
        }
        assert(votes.deep_view() =~= self.votes.deep_view());
        GameState { deck: self.deck.clone(), open: self.open, votes }
    }
}

/// A copy of a list of player states.
pub fn copy_roster(roster: &Vec<PlayerState>) -> (copy: Vec<PlayerState>)
    ensures
        copy.deep_view() == roster.deep_view(),
{
    let mut copy: Vec<PlayerState> = Vec::new();
    let mut i: usize = 0;
    while i < roster.len()
        invariant
            i <= roster.len(),
            copy.len() == i,
            forall|k: int| 0 <= k < i ==> copy[k]@ == roster[k]@,
        decreases roster.len() - i,
    {
        copy.push(roster[i].clone());
        i += 1;
    }
    copy
}

impl Clone for GamePlayerMessage {
    fn clone(&self) -> (copy: Self)
        ensures
            copy@ == self@,
    {
        match self {
            GamePlayerMessage::Welcome(room, state, players) => GamePlayerMessage::Welcome(
                room.clone(),
                state.clone(),
                copy_roster(players),
            ),
            GamePlayerMessage::Rejected(reason) => GamePlayerMessage::Rejected(*reason),
            GamePlayerMessage::PlayerJoined(player) => GamePlayerMessage::PlayerJoined(
                player.clone(),
            ),
            GamePlayerMessage::PlayerChanged(player) => GamePlayerMessage::PlayerChanged(
                player.clone(),
            ),
            GamePlayerMessage::PlayerLeft(id) => GamePlayerMessage::PlayerLeft(id.clone()),
            GamePlayerMessage::GameStateChanged(state) => GamePlayerMessage::GameStateChanged(
                state.clone(),
            ),
        }
    }
}

/// What a room is told.
#[derive(Debug, Clone, PartialEq, Eq)]
pub enum RoomMessage {
    JoinRequest(PlayerInformation),
    PlayerLeft(String),
    PlayerVoted(String, Option<String>),
    UpdatePlayer { id: String, voter: bool, name: Option<String> },
    ForceOpen,
    Restart,
    Close,
    /// The idle timer fired.
    CloseWhenEmpty,
}

/// The mathematical value of a [`RoomMessage`].
pub enum RoomMessageView {
    JoinRequest(PlayerInformationView),
    PlayerLeft(Seq<char>),
    PlayerVoted(Seq<char>, Option<Seq<char>>),
    UpdatePlayer { id: Seq<char>, voter: bool, name: Option<Seq<char>> },
    ForceOpen,
    Restart,
    Close,
    CloseWhenEmpty,
}

impl View for RoomMessage {
    type V = RoomMessageView;

    open spec fn view(&self) -> RoomMessageView {
        match self {
            RoomMessage::JoinRequest(info) => RoomMessageView::JoinRequest(info@),
            RoomMessage::PlayerLeft(id) => RoomMessageView::PlayerLeft(id@),
            RoomMessage::PlayerVoted(id, vote) => RoomMessageView::PlayerVoted(
                id@,
                vote.deep_view(),
            ),
            RoomMessage::UpdatePlayer { id, voter, name } => RoomMessageView::UpdatePlayer {
                id: id@,
                voter: *voter,
                name: name.deep_view(),
            },
            RoomMessage::ForceOpen => RoomMessageView::ForceOpen,
            RoomMessage::Restart => RoomMessageView::Restart,
            RoomMessage::Close => RoomMessageView::Close,
            RoomMessage::CloseWhenEmpty => RoomMessageView::CloseWhenEmpty,
        }
    }
}

impl DeepView for RoomMessage {
    type V = RoomMessageView;

    open spec fn deep_view(&self) -> RoomMessageView {
        self@
    }
}

/// One entry of a room's durable log.
#[derive(Debug, Clone, PartialEq, Eq)]
pub enum RoomEvent {
    Created { deck: String },
    PlayerJoined { player_id: String },
    PlayerLeft { player_id: String },
}

/// The mathematical value of a [`RoomEvent`].
pub enum RoomEventView {
    Created { deck: Seq<char> },
    PlayerJoined { player_id: Seq<char> },
    PlayerLeft { player_id: Seq<char> },
}

impl View for RoomEvent {
    type V = RoomEventView;

    open spec fn view(&self) -> RoomEventView {
        match self {
            RoomEvent::Created { deck } => RoomEventView::Created { deck: deck@ },
            RoomEvent::PlayerJoined { player_id } => RoomEventView::PlayerJoined {
                player_id: player_id@,
            },
            RoomEvent::PlayerLeft { player_id } => RoomEventView::PlayerLeft {
                player_id: player_id@,
            },
        }
    }
}

impl DeepView for RoomEvent {
    type V = RoomEventView;

    open spec fn deep_view(&self) -> RoomEventView {
        self@
    }
}

/// What the owner of a room has to do after the room handled a message.
#[derive(Debug, Clone, PartialEq, Eq)]
pub enum RoomEffect {
    /// Append the event to the room's log. A failure is logged and ignored.
    Append(RoomEvent),
    /// Deliver the message to the player with this id. A failure is logged
    /// and ignored.
    Send(String, GamePlayerMessage),
    /// Deliver `CloseWhenEmpty` to this room after so many seconds.
    CloseLater(u64),
    /// Stop the room.
    Quit,
}

/// The mathematical value of a [`RoomEffect`].
pub enum RoomEffectView {
    Append(RoomEventView),
    Send(Seq<char>, GamePlayerMessageView),
    CloseLater(u64),
    Quit,
}

impl View for RoomEffect {
    type V = RoomEffectView;

    open spec fn view(&self) -> RoomEffectView {
        match self {
            RoomEffect::Append(event) => RoomEffectView::Append(event@),
            RoomEffect::Send(to, msg) => RoomEffectView::Send(to@, msg@),
            RoomEffect::CloseLater(secs) => RoomEffectView::CloseLater(*secs),
            RoomEffect::Quit => RoomEffectView::Quit,
        }
    }
}

impl DeepView for RoomEffect {
    type V = RoomEffectView;

    open spec fn deep_view(&self) -> RoomEffectView {
        self@
    }
}

/// One member of a room: what it said of itself, and its vote in this round.
#[derive(Debug, Clone, PartialEq, Eq)]
pub struct GamePlayer {
    pub info: PlayerInformation,
    pub vote: Option<String>,
}

impl View for GamePlayer {
    type V = GamePlayerView;

    open spec fn view(&self) -> GamePlayerView {
        GamePlayerView { info: self.info@, vote: self.vote.deep_view() }
    }
}

impl DeepView for GamePlayer {
    type V = GamePlayerView;

    open spec fn deep_view(&self) -> GamePlayerView {
        self@
    }
}

impl GamePlayer {
    /// A member who has just come in: no vote yet.
    pub fn new(info: PlayerInformation) -> (player: Self)
        ensures
            player@ == GamePlayerView::fresh(info@),
    {
        Self { info, vote: None }
    }

    /// What clients see of this member.
    pub fn to_state(&self) -> (state: PlayerState)
        ensures
            state@ == self@.state(),
    {
        PlayerState {
            id: self.info.id.clone(),
            name: copy_opt_text(&self.info.name),
            voter: self.info.voter,
        }
    }
}

/// The mathematical values of a list of members.
spec fn views_of(players: Seq<GamePlayer>) -> Seq<GamePlayerView> {
    Seq::new(players.len(), |i: int| players[i]@)
}

/// What stands in place of a vote while the votes are hidden.
pub fn hidden_vote_text() -> (text: String)
    ensures
        text@ == hidden_vote(),
{
    let text = "?".to_owned();
    proof {
        reveal_strlit("?");
    }
    text
}

/// A planning-poker room.
#[derive(Debug, PartialEq, Eq)]
pub struct Room {
    id: String,
    deck: String,
    players: Vec<GamePlayer>,
    open: bool,
}

impl View for Room {
    type V = RoomView;

    closed spec fn view(&self) -> RoomView {
        RoomView {
            id: self.id@,
            deck: self.deck@,
            players: self.players.deep_view(),
            open: self.open,
        }
    }
}

impl Room {
    #[verifier::type_invariant]
    spec fn inv(self) -> bool {
        self@.wf()
    }

    /// A new, empty room with hidden votes, and the event that records its
    /// creation, to be appended to the room's log.
    pub fn new(id: &str, deck: String) -> (created: (Self, RoomEvent))
        ensures
            created.0@ == RoomView::empty(id@, deck@),
            created.1@ == (RoomEventView::Created { deck: deck@ }),
    {
        let event = RoomEvent::Created { deck: deck.clone() };
        let room = Self { id: id.to_owned(), deck, players: Vec::new(), open: false };
        assert(room@.players =~= Seq::empty());
        (room, event)
    }

    /// Brings a room back from its log. The log has to start with the
    /// room's creation and to hold no second one; the joins and leaves in it
    /// are passed over, so the room comes back empty, with hidden votes and
    /// the deck it was created with.
    pub fn restore(id: &str, events: Vec<RoomEvent>) -> (room: Option<Self>)
        ensures
            room is Some <==> restorable(events.deep_view()),
            room matches Some(r) ==> r@ == RoomView::empty(
                id@,
                created_deck(events.deep_view()[0]),
            ),
    {
        if events.len() == 0 {
            return None;
        }
        let deck = match &events[0] {
            RoomEvent::Created { deck } => deck.clone(),
            _ => {
                return None;
            },
        };
        let mut i: usize = 1;
        while i < events.len()
            invariant
                1 <= i <= events.len(),
                forall|k: int| 1 <= k < i ==> !(events.deep_view()[k] is Created),
            decreases events.len() - i,
        {
            assert(events.deep_view()[i as int] == events[i as int]@);
            match &events[i] {
                RoomEvent::Created { .. } => {
                    return None;
                },
                _ => {},
            }
            i += 1;
        }
        let room = Self { id: id.to_owned(), deck, players: Vec::new(), open: false };
        assert(room@.players =~= Seq::empty());
        Some(room)
    }

    /// A fresh room id: the URL-safe text of sixteen bytes that hold the
    /// time and random bits, so that ids sort by the time they were made.
    pub fn gen_id() -> (id: String)
        ensures
            exists|bytes: Seq<u8>| bytes.len() == 16 && id@ == #[trigger] base64_url(bytes),
            id@.len() == 22,
            forall|i: int| 0 <= i < id@.len() ==> is_url_safe(#[trigger] id@[i]),
    {
        let bytes = time_ordered_bytes();
        let id = room_id_of(&bytes);
        id
    }

    pub fn id(&self) -> (id: &str)
        ensures
            id@ == self@.id,
    {
        self.id.as_str()
    }

    pub fn deck(&self) -> (deck: &str)
        ensures
            deck@ == self@.deck,
    {
        self.deck.as_str()
    }

    /// Whether the votes are revealed.
    pub fn is_open(&self) -> (open: bool)
        ensures
            open == self@.open,
    {
        self.open
    }

    /// The members, in the room's order.
    pub fn players(&self) -> (players: &Vec<GamePlayer>)
        ensures
            players.deep_view() == self@.players,
            self@.wf(),
    {
        proof {
            use_type_invariant(self);
        }
        &self.players
    }

    pub fn is_empty(&self) -> (empty: bool)
        ensures
            empty == (self@.players.len() == 0),
    {
        self.players.len() == 0
    }

    /// Takes the members out of the room, which is left empty.
    fn take_players(&mut self) -> (players: Vec<GamePlayer>)
        ensures
            players == old(self).players,
            final(self).players@ == Seq::<GamePlayer>::empty(),
            final(self).id == old(self).id,
            final(self).deck == old(self).deck,
            final(self).open == old(self).open,
    {
        let mut players: Vec<GamePlayer> = Vec::new();
        core::mem::swap(&mut self.players, &mut players);
        players
    }

    /// Where the member with this id stands.
    fn find(&self, id: &str) -> (at: Option<usize>)
        ensures
            at is Some <==> self@.has_player(id@),
            at matches Some(i) ==> i < self.players.len() && i == self@.slot(id@)
                && self.players[i as int].info.id@ == id@,
    {
        let mut i: usize = 0;
        while i < self.players.len()
            invariant
                i <= self.players.len(),
                forall|k: int| 0 <= k < i ==> self.players[k].info.id@ != id@,
            decreases self.players.len() - i,
        {
            if same_text(self.players[i].info.id.as_str(), id) {
                proof {
                    use_type_invariant(self);
                    assert(self@.players[i as int].info.id == id@);
                }
                return Some(i);
            }
            i += 1;
        }
        assert forall|k: int| 0 <= k < self@.players.len() implies self@.players[k].info.id
            != id@ by {}
        None
    }

    /// What clients see of the round: one entry for each voter, the vote
    /// itself if the votes are revealed, else `"?"` in place of each vote
    /// that was cast.
    pub fn to_state(&self) -> (state: GameState)
        ensures
            state@ == self@.game_state(),
    {
        let mut votes: Vec<(String, Option<String>)> = Vec::new();
        let mut i: usize = 0;
        while i < self.players.len()
            invariant
                i <= self.players.len(),
                votes.deep_view() == ballots(self@.players.take(i as int), self.open),
            decreases self.players.len() - i,
        {
            let player = &self.players[i];
            proof {
                lemma_take_next(self@.players, i as int);
                lemma_ballots_push(self@.players.take(i as int), player@, self.open);
            }
            if player.info.voter {
                let shown = if self.open {
                    copy_opt_text(&player.vote)
                } else {
                    match player.vote {
                        Some(_) => Some(hidden_vote_text()),
                        None => None,
                    }
                };
                votes.push((player.info.id.clone(), shown));
            }
            i += 1;
        }
        assert(self@.players.take(i as int) =~= self@.players);
        GameState { deck: self.deck.clone(), open: self.open, votes }
    }

    /// What clients see of the membership, in the room's order.
    pub fn roster(&self) -> (roster: Vec<PlayerState>)
        ensures
            roster.deep_view() == self@.roster(),
    {
        let mut roster: Vec<PlayerState> = Vec::new();
        let mut i: usize = 0;
        while i < self.players.len()
            invariant
                i <= self.players.len(),
                roster.len() == i,
                forall|k: int| 0 <= k < i ==> roster[k]@ == self.players[k]@.state(),
            decreases self.players.len() - i,
        {
            roster.push(self.players[i].to_state());
            i += 1;
        }
        roster
    }
}

impl Room {
    /// Adds one delivery of `msg` to each member, in the room's order.
    fn fan_out(&self, msg: &GamePlayerMessage, effects: &mut Vec<RoomEffect>)
        ensures
            final(effects).deep_view() == old(effects).deep_view() + self@.broadcast(msg@),
    {
        let mut i: usize = 0;
        while i < self.players.len()
            invariant
                i <= self.players.len(),
                effects.deep_view() == old(effects).deep_view() + deliveries(
                    self@.players.take(i as int),
                    msg@,
                ),
            decreases self.players.len() - i,
        {
            let ghost before = effects.deep_view();
            let effect = RoomEffect::Send(self.players[i].info.id.clone(), msg.clone());
            effects.push(effect);
            assert(effects.deep_view() =~= before.push(effect@));
            i += 1;
        }
    }

    /// Adds one delivery of `msg` to each member but `skip`, in the room's
    /// order.
    fn fan_out_except(&self, skip: &str, msg: &GamePlayerMessage, effects: &mut Vec<RoomEffect>)
        ensures
            final(effects).deep_view() == old(effects).deep_view() + self@.broadcast_except(
                skip@,
                msg@,
            ),
    {
        let mut i: usize = 0;
        while i < self.players.len()
            invariant
                i <= self.players.len(),
                effects.deep_view() == old(effects).deep_view() + deliveries(
                    others(self@.players.take(i as int), skip@),
                    msg@,
                ),
            decreases self.players.len() - i,
        {
            proof {
                lemma_take_next(self@.players, i as int);
                lemma_others_push(self@.players.take(i as int), self.players[i as int]@, skip@);
            }
            if !same_text(self.players[i].info.id.as_str(), skip) {
                let ghost before = effects.deep_view();
                let effect = RoomEffect::Send(self.players[i].info.id.clone(), msg.clone());
                effects.push(effect);
                assert(effects.deep_view() =~= before.push(effect@));
            }
            i += 1;
        }
        assert(self@.players.take(i as int) =~= self@.players);
    }

    /// Adds one delivery of the round's state to each member.
    fn send_game_state(&self, effects: &mut Vec<RoomEffect>)
        ensures
            final(effects).deep_view() == old(effects).deep_view() + self@.announce(),
    {
        let msg = GamePlayerMessage::GameStateChanged(self.to_state());
        self.fan_out(&msg, effects);
    }

    /// What the room tells its members when it starts: a welcome to each.
    pub fn setup(&self) -> (effects: Vec<RoomEffect>)
        ensures
            effects.deep_view() == self@.greeting(),
    {
        let mut effects: Vec<RoomEffect> = Vec::new();
        let msg = GamePlayerMessage::Welcome(self.id.clone(), self.to_state(), self.roster());
        self.fan_out(&msg, &mut effects);
        effects
    }
}

impl Room {
    /// Re-evaluates the reveal: the votes are revealed if at least two
    /// members vote and each of them has voted. Says whether that changed the
    /// room.
    pub fn update_state(&mut self) -> (changed: bool)
        ensures
            final(self)@ == old(self)@.revealed(),
            changed == old(self)@.reveals(),
    {
        let mut voters: usize = 0;
        let mut all = true;
        let mut i: usize = 0;
        while i < self.players.len()
            invariant
                i <= self.players.len(),
                voters <= i,
                voters == voters_of(self@.players.take(i as int)).len(),
                all == all_voted(self@.players.take(i as int)),
            decreases self.players.len() - i,
        {
            proof {
                lemma_take_next(self@.players, i as int);
                lemma_voters_push(self@.players.take(i as int), self.players[i as int]@);
                let next = self@.players.take(i + 1);
                if all_voted(next) {
                    assert forall|k: int| 0 <= k < i implies !self@.players.take(
                        i as int,
                    )[k].info.voter || self@.players.take(i as int)[k].vote is Some by {}
                    assert(next[i as int] == self.players[i as int]@);
                }
            }
            if self.players[i].info.voter {
                voters += 1;
                if self.players[i].vote.is_none() {
                    all = false;
                }
            }
            i += 1;
        }
        assert(self@.players.take(i as int) =~= self@.players);
        if all && voters >= 2 {
            let changed = !self.open;
            proof {
                use_type_invariant(&*self);
            }
            self.open = true;
            changed
        } else {
            false
        }
    }

    /// Re-evaluates the reveal and tells the members only if it changed the
    /// room.
    fn update_state_and_send(&mut self, effects: &mut Vec<RoomEffect>)
        ensures
            final(self)@ == old(self)@.settle().room,
            final(effects).deep_view() == old(effects).deep_view() + old(self)@.settle().effects,
    {
        if self.update_state() {
            self.send_game_state(effects);
        }
    }

    /// A player joins: it takes the place of the member with the same id, or
    /// the last place; the join is logged; the player is welcomed with the
    /// round and the whole membership; every other member is told.
    pub fn add_player(&mut self, info: PlayerInformation) -> (effects: Vec<RoomEffect>)
        ensures
            final(self)@ == old(self)@.join(info@).room,
            effects.deep_view() == old(self)@.join(info@).effects,
    {
        let id = info.id.clone();
        let player = GamePlayer::new(info);
        let joined = player.to_state();
        proof {
            use_type_invariant(&*self);
        }
        let found = self.find(id.as_str());
        let mut players = self.take_players();
        match found {
            Some(at) => {
                players[at] = player;
                assert(views_of(players@) =~= old(self)@.players.update(at as int, player@));
            },
            None => {
                players.push(player);
                assert(views_of(players@) =~= old(self)@.players.push(player@));
            },
        }
        assert(views_of(players@) =~= players.deep_view());
        self.players = players;
        let mut effects: Vec<RoomEffect> = Vec::new();
        effects.push(RoomEffect::Append(RoomEvent::PlayerJoined { player_id: id.clone() }));
        effects.push(
            RoomEffect::Send(
                id.clone(),
                GamePlayerMessage::Welcome(self.id.clone(), self.to_state(), self.roster()),
            ),
        );
        self.fan_out_except(id.as_str(), &GamePlayerMessage::PlayerJoined(joined), &mut effects);
        effects
    }

    /// A player leaves: the leave is logged, the remaining members are told,
    /// the reveal is re-evaluated, and a room left empty arms its idle timer.
    pub fn remove_player(&mut self, player_id: &str) -> (effects: Vec<RoomEffect>)
        ensures
            final(self)@ == old(self)@.leave(player_id@).room,
            effects.deep_view() == old(self)@.leave(player_id@).effects,
    {
        proof {
            use_type_invariant(&*self);
        }
        let found = self.find(player_id);
        let mut players = self.take_players();
        match found {
            Some(at) => {
                players.remove(at);
                assert(views_of(players@) =~= old(self)@.players.remove(at as int));
            },
            None => {},
        }
        assert(views_of(players@) =~= players.deep_view());
        self.players = players;
        let mut effects: Vec<RoomEffect> = Vec::new();
        effects.push(
            RoomEffect::Append(RoomEvent::PlayerLeft { player_id: player_id.to_owned() }),
        );
        let ghost head = effects.deep_view();
        assert(head =~= seq![
            RoomEffectView::Append(RoomEventView::PlayerLeft { player_id: player_id@ }),
        ]);
        self.fan_out(&GamePlayerMessage::PlayerLeft(player_id.to_owned()), &mut effects);
        self.update_state_and_send(&mut effects);
        if self.players.len() == 0 {
            effects.push(RoomEffect::CloseLater(IDLE_GRACE_SECS));
        }
        effects
    }

    /// A player votes, or takes its vote back with `None`. The vote counts
    /// only while the votes are hidden and only from a voter of this room;
    /// then the reveal is re-evaluated and every member gets the round's
    /// state. Any other vote changes nothing and has no effect.
    pub fn set_vote(&mut self, player_id: &str, vote: Option<String>) -> (effects: Vec<
        RoomEffect,
    >)
        ensures
            final(self)@ == old(self)@.vote(player_id@, vote.deep_view()).room,
            effects.deep_view() == old(self)@.vote(player_id@, vote.deep_view()).effects,
    {
        let mut effects: Vec<RoomEffect> = Vec::new();
        if self.open {
            return effects;
        }
        proof {
            use_type_invariant(&*self);
        }
        match self.find(player_id) {
            Some(at) => {
                if !self.players[at].info.voter {
                    return effects;
                }
                let mut players = self.take_players();
                players[at].vote = vote;
                assert(views_of(players@) =~= old(self)@.with_vote(
                    player_id@,
                    vote.deep_view(),
                ).players);
                assert(views_of(players@) =~= players.deep_view());
                self.players = players;
                self.update_state();
                self.send_game_state(&mut effects);
                effects
            },
            None => {
                effects
            },
        }
    }

    /// A player changes its voter flag and its name: every member is told,
    /// and the reveal is re-evaluated. For an unknown player nothing changes.
    pub fn update_player(&mut self, id: &str, name: Option<String>, voter: bool) -> (effects:
        Vec<RoomEffect>)
        ensures
            final(self)@ == old(self)@.update(id@, voter, name.deep_view()).room,
            effects.deep_view() == old(self)@.update(id@, voter, name.deep_view()).effects,
    {
        let mut effects: Vec<RoomEffect> = Vec::new();
        proof {
            use_type_invariant(&*self);
        }
        match self.find(id) {
            Some(at) => {
                let changed = GamePlayer {
                    info: PlayerInformation { id: id.to_owned(), voter, name },
                    vote: copy_opt_text(&self.players[at].vote),
                };
                let state = changed.to_state();
                let mut players = self.take_players();
                players[at] = changed;
                assert(views_of(players@) =~= old(self)@.with_profile(
                    id@,
                    voter,
                    name.deep_view(),
                ).players);
                assert(views_of(players@) =~= players.deep_view());
                self.players = players;
                self.fan_out(&GamePlayerMessage::PlayerChanged(state), &mut effects);
                self.update_state_and_send(&mut effects);
                effects
            },
            None => {
                effects
            },
        }
    }

    /// Reveals the votes now, and tells every member, unless they are
    /// revealed already.
    pub fn force_open(&mut self) -> (effects: Vec<RoomEffect>)
        ensures
            final(self)@ == old(self)@.force_open().room,
            effects.deep_view() == old(self)@.force_open().effects,
    {
        let mut effects: Vec<RoomEffect> = Vec::new();
        if !self.open {
            proof {
                use_type_invariant(&*self);
            }
            self.open = true;
            self.send_game_state(&mut effects);
        }
        effects
    }

    /// Starts a new round: the votes are hidden, every vote is cleared, and
    /// every member is told.
    pub fn restart(&mut self) -> (effects: Vec<RoomEffect>)
        ensures
            final(self)@ == old(self)@.restart().room,
            effects.deep_view() == old(self)@.restart().effects,
    {
        proof {
            use_type_invariant(&*self);
        }
        self.open = false;
        let mut players = self.take_players();
        let mut i: usize = 0;
        while i < players.len()
            invariant
                i <= players.len(),
                players.len() == old(self).players.len(),
                forall|k: int|
                    0 <= k < i ==> players[k]@ == (GamePlayerView {
                        vote: None,
                        ..old(self).players[k]@
                    }),
                forall|k: int| i <= k < players.len() ==> players[k]@ == old(self).players[k]@,
            decreases players.len() - i,
        {
            players[i].vote = None;
            i += 1;
        }
        assert(players.deep_view() =~= cleared(old(self)@.players));
        assert forall|a: int, b: int| 0 <= a < b < players.len() implies players.deep_view()[a].info.id
            != players.deep_view()[b].info.id by {}
        self.players = players;
        let mut effects: Vec<RoomEffect> = Vec::new();
        self.send_game_state(&mut effects);
        effects
    }

    /// The idle timer fired: the room stops if it is still empty.
    pub fn close_when_empty(&self) -> (effects: Vec<RoomEffect>)
        ensures
            effects.deep_view() == self@.close_when_empty().effects,
    {
        let mut effects: Vec<RoomEffect> = Vec::new();
        if self.players.len() == 0 {
            effects.push(RoomEffect::Quit);
        }
        effects
    }

    /// Handles one message: moves the room to its next state and returns, in
    /// order, what the room's owner has to do.
    pub fn on_message(&mut self, msg: RoomMessage) -> (effects: Vec<RoomEffect>)
        ensures
            final(self)@ == old(self)@.step(msg@),
            effects.deep_view() == old(self)@.effects(msg@),
            final(self)@.wf(),
    {
        let effects = match msg {
            RoomMessage::JoinRequest(info) => self.add_player(info),
            RoomMessage::PlayerLeft(id) => self.remove_player(id.as_str()),
            RoomMessage::PlayerVoted(id, vote) => self.set_vote(id.as_str(), vote),
            RoomMessage::UpdatePlayer { id, voter, name } => self.update_player(
                id.as_str(),
                name,
                voter,
            ),
            RoomMessage::ForceOpen => self.force_open(),
            RoomMessage::Restart => self.restart(),
            RoomMessage::Close => {
                let mut effects: Vec<RoomEffect> = Vec::new();
                effects.push(RoomEffect::Quit);
                effects
            },
            RoomMessage::CloseWhenEmpty => self.close_when_empty(),
        };
        proof {
            use_type_invariant(&*self);
        }
        effects
    }
}

} // verus!
