//! The room as a mathematical state machine: its states, the state after each
//! message, and the effects each message has.

use vstd::prelude::*;

use crate::player::PlayerInformationView;
use crate::room::{
    GamePlayerMessageView, GameStateView, PlayerStateView, RoomEffectView, RoomEventView,
    RoomMessageView, IDLE_GRACE_SECS,
};

verus! {

/// What stands in place of a vote while the votes are hidden.
pub open spec fn hidden_vote() -> Seq<char> {
    seq!['?']
}

/// What clients are shown of a vote.
pub open spec fn shown_vote(vote: Option<Seq<char>>, open: bool) -> Option<Seq<char>> {
    if open {
        vote
    } else {
        match vote {
            Some(_) => Some(hidden_vote()),
            None => None,
        }
    }
}

/// One member of a room.
pub struct GamePlayerView {
    pub info: PlayerInformationView,
    pub vote: Option<Seq<char>>,
}

impl GamePlayerView {
    /// A member who has just come in: no vote yet.
    pub open spec fn fresh(info: PlayerInformationView) -> GamePlayerView {
        GamePlayerView { info, vote: None }
    }

    /// What clients see of this member.
    pub open spec fn state(self) -> PlayerStateView {
        PlayerStateView { id: self.info.id, name: self.info.name, voter: self.info.voter }
    }

    /// This member's line in the round's votes.
    pub open spec fn ballot(self, open: bool) -> (Seq<char>, Option<Seq<char>>) {
        (self.info.id, shown_vote(self.vote, open))
    }
}

/// The members who vote, in order.
pub open spec fn voters_of(players: Seq<GamePlayerView>) -> Seq<GamePlayerView> {
    players.filter(|p: GamePlayerView| p.info.voter)
}

/// One line for each voter, in order.
pub open spec fn ballots(players: Seq<GamePlayerView>, open: bool) -> Seq<
    (Seq<char>, Option<Seq<char>>),
> {
    voters_of(players).map_values(|p: GamePlayerView| p.ballot(open))
}

/// What clients see of each member, in order.
pub open spec fn roster_of(players: Seq<GamePlayerView>) -> Seq<PlayerStateView> {
    players.map_values(|p: GamePlayerView| p.state())
}

/// The members but the one with the id `skip`, in order.
pub open spec fn others(players: Seq<GamePlayerView>, skip: Seq<char>) -> Seq<GamePlayerView> {
    players.filter(|p: GamePlayerView| p.info.id != skip)
}

/// One delivery of `msg` to each member, in order.
pub open spec fn deliveries(players: Seq<GamePlayerView>, msg: GamePlayerMessageView) -> Seq<
    RoomEffectView,
> {
    players.map_values(|p: GamePlayerView| RoomEffectView::Send(p.info.id, msg))
}

/// Every member with its vote taken away.
pub open spec fn cleared(players: Seq<GamePlayerView>) -> Seq<GamePlayerView> {
    players.map_values(|p: GamePlayerView| GamePlayerView { vote: None, ..p })
}

/// Every voter among the members has a vote.
pub open spec fn all_voted(players: Seq<GamePlayerView>) -> bool {
    forall|i: int| 0 <= i < players.len() ==> !players[i].info.voter || players[i].vote is Some
}

/// A room's state and the effects of the message that led to it.
pub struct Outcome {
    pub room: RoomView,
    pub effects: Seq<RoomEffectView>,
}

/// The state of a room.
pub struct RoomView {
    pub id: Seq<char>,
    pub deck: Seq<char>,
    pub players: Seq<GamePlayerView>,
    pub open: bool,
}

impl RoomView {
    /// No two members share an id.
    pub open spec fn wf(self) -> bool {
        forall|i: int, j: int|
            0 <= i < j < self.players.len() ==> self.players[i].info.id != self.players[j].info.id
    }

    /// A room right after its creation or its restoration.
    pub open spec fn empty(id: Seq<char>, deck: Seq<char>) -> RoomView {
        RoomView { id, deck, players: Seq::empty(), open: false }
    }

    pub open spec fn has_player(self, id: Seq<char>) -> bool {
        exists|i: int| 0 <= i < self.players.len() && self.players[i].info.id == id
    }

    /// Where the member with this id stands, if there is one.
    pub open spec fn slot(self, id: Seq<char>) -> int {
        choose|i: int| 0 <= i < self.players.len() && self.players[i].info.id == id
    }

    /// The members who vote, in the room's order.
    pub open spec fn voters(self) -> Seq<GamePlayerView> {
        voters_of(self.players)
    }

    /// Every voter has a vote.
    pub open spec fn all_voted(self) -> bool {
        all_voted(self.players)
    }

    /// The round is complete: at least two voters, and each has voted.
    pub open spec fn complete(self) -> bool {
        self.voters().len() >= 2 && self.all_voted()
    }

    /// What clients see of the round.
    pub open spec fn game_state(self) -> GameStateView {
        GameStateView {
            deck: self.deck,
            open: self.open,
            votes: ballots(self.players, self.open),
        }
    }

    /// What clients see of the membership.
    pub open spec fn roster(self) -> Seq<PlayerStateView> {
        roster_of(self.players)
    }

    /// One delivery of `msg` to each member, in the room's order.
    pub open spec fn broadcast(self, msg: GamePlayerMessageView) -> Seq<RoomEffectView> {
        deliveries(self.players, msg)
    }

    /// One delivery of `msg` to each member but `skip`, in the room's order.
    pub open spec fn broadcast_except(self, skip: Seq<char>, msg: GamePlayerMessageView) -> Seq<
        RoomEffectView,
    > {
        deliveries(others(self.players, skip), msg)
    }

    /// The round's state goes to every member.
    pub open spec fn announce(self) -> Seq<RoomEffectView> {
        self.broadcast(GamePlayerMessageView::GameStateChanged(self.game_state()))
    }

    /// The votes are revealed if the round is complete; nothing closes them
    /// again.
    pub open spec fn revealed(self) -> RoomView {
        if self.complete() {
            RoomView { open: true, ..self }
        } else {
            self
        }
    }

    /// Revealing changes the room: it was closed and the round is complete.
    pub open spec fn reveals(self) -> bool {
        !self.open && self.complete()
    }

    /// Re-evaluates the reveal and tells the members only if it changed the
    /// room.
    pub open spec fn settle(self) -> Outcome {
        let room = self.revealed();
        Outcome {
            room,
            effects: if self.reveals() {
                room.announce()
            } else {
                Seq::empty()
            },
        }
    }

    /// The membership with `info` seated: in the place of the member with the
    /// same id if there is one, else at the end.
    pub open spec fn seat(self, info: PlayerInformationView) -> RoomView {
        let fresh = GamePlayerView::fresh(info);
        RoomView {
            players: if self.has_player(info.id) {
                self.players.update(self.slot(info.id), fresh)
            } else {
                self.players.push(fresh)
            },
            ..self
        }
    }

    /// A player joins.
    pub open spec fn join(self, info: PlayerInformationView) -> Outcome {
        let room = self.seat(info);
        Outcome {
            room,
            effects: seq![
                RoomEffectView::Append(RoomEventView::PlayerJoined { player_id: info.id }),
                RoomEffectView::Send(
                    info.id,
                    GamePlayerMessageView::Welcome(room.id, room.game_state(), room.roster()),
                ),
            ] + room.broadcast_except(
                info.id,
                GamePlayerMessageView::PlayerJoined(GamePlayerView::fresh(info).state()),
            ),
        }
    }

    /// The membership without the member with this id.
    pub open spec fn unseat(self, id: Seq<char>) -> RoomView {
        RoomView {
            players: if self.has_player(id) {
                self.players.remove(self.slot(id))
            } else {
                self.players
            },
            ..self
        }
    }

    /// A player leaves.
    pub open spec fn leave(self, id: Seq<char>) -> Outcome {
        let without = self.unseat(id);
        let settled = without.settle();
        Outcome {
            room: settled.room,
            effects: seq![RoomEffectView::Append(RoomEventView::PlayerLeft { player_id: id })]
                + without.broadcast(GamePlayerMessageView::PlayerLeft(id)) + settled.effects + (
            if without.players.len() == 0 {
                seq![RoomEffectView::CloseLater(IDLE_GRACE_SECS)]
            } else {
                Seq::empty()
            }),
        }
    }

    /// A vote counts: the votes are hidden and it comes from a voter of this
    /// room.
    pub open spec fn accepts_vote(self, id: Seq<char>) -> bool {
        !self.open && self.has_player(id) && self.players[self.slot(id)].info.voter
    }

    /// The membership with the vote of the member `id` set.
    pub open spec fn with_vote(self, id: Seq<char>, vote: Option<Seq<char>>) -> RoomView {
        let at = self.slot(id);
        RoomView {
            players: self.players.update(at, GamePlayerView { vote, ..self.players[at] }),
            ..self
        }
    }

    /// A player votes, or takes the vote back.
    pub open spec fn vote(self, id: Seq<char>, vote: Option<Seq<char>>) -> Outcome {
        if self.accepts_vote(id) {
            let room = self.with_vote(id, vote).revealed();
            Outcome { room, effects: room.announce() }
        } else {
            Outcome { room: self, effects: Seq::empty() }
        }
    }

    /// The membership with the voter flag and the name of the member `id` set.
    pub open spec fn with_profile(self, id: Seq<char>, voter: bool, name: Option<Seq<char>>)
        -> RoomView {
        let at = self.slot(id);
        let old = self.players[at];
        RoomView {
            players: self.players.update(
                at,
                GamePlayerView { info: PlayerInformationView { id, voter, name }, vote: old.vote },
            ),
            ..self
        }
    }

    /// A player changes its voter flag and its name.
    pub open spec fn update(self, id: Seq<char>, voter: bool, name: Option<Seq<char>>)
        -> Outcome {
        if self.has_player(id) {
            let changed = self.with_profile(id, voter, name);
            let settled = changed.settle();
            Outcome {
                room: settled.room,
                effects: changed.broadcast(
                    GamePlayerMessageView::PlayerChanged(PlayerStateView { id, name, voter }),
                ) + settled.effects,
            }
        } else {
            Outcome { room: self, effects: Seq::empty() }
        }
    }

    /// A player asks for the votes to be shown now.
    pub open spec fn force_open(self) -> Outcome {
        if self.open {
            Outcome { room: self, effects: Seq::empty() }
        } else {
            let room = RoomView { open: true, ..self };
            Outcome { room, effects: room.announce() }
        }
    }

    /// A new round starts.
    pub open spec fn restart(self) -> Outcome {
        let room = RoomView { open: false, players: cleared(self.players), ..self };
        Outcome { room, effects: room.announce() }
    }

    /// The idle timer fired.
    pub open spec fn close_when_empty(self) -> Outcome {
        Outcome {
            room: self,
            effects: if self.players.len() == 0 {
                seq![RoomEffectView::Quit]
            } else {
                Seq::empty()
            },
        }
    }

    /// The room's answer to one message.
    pub open spec fn handle(self, msg: RoomMessageView) -> Outcome {
        match msg {
            RoomMessageView::JoinRequest(info) => self.join(info),
            RoomMessageView::PlayerLeft(id) => self.leave(id),
            RoomMessageView::PlayerVoted(id, vote) => self.vote(id, vote),
            RoomMessageView::UpdatePlayer { id, voter, name } => self.update(id, voter, name),
            RoomMessageView::ForceOpen => self.force_open(),
            RoomMessageView::Restart => self.restart(),
            RoomMessageView::Close => Outcome { room: self, effects: seq![RoomEffectView::Quit] },
            RoomMessageView::CloseWhenEmpty => self.close_when_empty(),
        }
    }

    /// The room after one message.
    pub open spec fn step(self, msg: RoomMessageView) -> RoomView {
        self.handle(msg).room
    }

    /// What one message has the room's owner do.
    pub open spec fn effects(self, msg: RoomMessageView) -> Seq<RoomEffectView> {
        self.handle(msg).effects
    }

    /// What the room tells its members when it starts.
    pub open spec fn greeting(self) -> Seq<RoomEffectView> {
        self.broadcast(GamePlayerMessageView::Welcome(self.id, self.game_state(), self.roster()))
    }
}

/// The deck that a creation event records; empty for any other event.
pub open spec fn created_deck(event: RoomEventView) -> Seq<char> {
    match event {
        RoomEventView::Created { deck } => deck,
        _ => Seq::empty(),
    }
}

/// How many creation events a log holds.
pub open spec fn created_count(events: Seq<RoomEventView>) -> nat
    decreases events.len(),
{
    if events.len() == 0 {
        0
    } else {
        created_count(events.drop_last()) + if events.last() is Created {
            1nat
        } else {
            0nat
        }
    }
}

/// A log from which a room can be restored: it starts with the room's
/// creation and holds no second one.
pub open spec fn restorable(events: Seq<RoomEventView>) -> bool {
    &&& events.len() > 0
    &&& events[0] is Created
    &&& forall|i: int| 1 <= i < events.len() ==> !(events[i] is Created)
}

/// A round's state gives no vote away: the votes are revealed, or each entry
/// is absent or `"?"`.
pub open spec fn masked(state: GameStateView) -> bool {
    state.open || forall|i: int|
        0 <= i < state.votes.len() ==> state.votes[i].1 is None || state.votes[i].1 == Some(
            hidden_vote(),
        )
}

/// The round's state that an effect shows to a player, if it shows one.
pub open spec fn shown_state(effect: RoomEffectView) -> Option<GameStateView> {
    match effect {
        RoomEffectView::Send(_, GamePlayerMessageView::GameStateChanged(state)) => Some(state),
        RoomEffectView::Send(_, GamePlayerMessageView::Welcome(_, state, _)) => Some(state),
        _ => None,
    }
}

/// Whether the effects stop the room.
pub open spec fn quits(effects: Seq<RoomEffectView>) -> bool {
    effects.contains(RoomEffectView::Quit)
}

impl RoomView {
    /// The room after a sequence of messages, each handled in turn.
    pub open spec fn run(self, msgs: Seq<RoomMessageView>) -> RoomView
        decreases msgs.len(),
    {
        if msgs.len() == 0 {
            self
        } else {
            self.run(msgs.drop_last()).step(msgs.last())
        }
    }

    /// The life of a room with this mailbox: the messages are handled in
    /// order until one stops the room; what comes after it is never handled.
    pub open spec fn life(self, mailbox: Seq<RoomMessageView>) -> Seq<Outcome>
        decreases mailbox.len(),
    {
        if mailbox.len() == 0 {
            Seq::empty()
        } else {
            let first = self.handle(mailbox[0]);
            if quits(first.effects) {
                seq![first]
            } else {
                seq![first] + first.room.life(mailbox.drop_first())
            }
        }
    }
}

/// Filtering a sequence that got one more element.
pub proof fn lemma_filter_push<A>(s: Seq<A>, x: A, pred: spec_fn(A) -> bool)
    ensures
        s.push(x).filter(pred) == if pred(x) {
            s.filter(pred).push(x)
        } else {
            s.filter(pred)
        },
{
    reveal(Seq::filter);
    assert(s.push(x).drop_last() =~= s);
}

/// A prefix of a sequence, one element longer.
pub proof fn lemma_take_next<A>(s: Seq<A>, i: int)
    requires
        0 <= i < s.len(),
    ensures
        s.take(i + 1) == s.take(i).push(s[i]),
{
}

/// The voters of a membership that got one more member.
pub proof fn lemma_voters_push(players: Seq<GamePlayerView>, p: GamePlayerView)
    ensures
        voters_of(players.push(p)) == if p.info.voter {
            voters_of(players).push(p)
        } else {
            voters_of(players)
        },
{
    lemma_filter_push(players, p, |p: GamePlayerView| p.info.voter);
}

/// The votes of a membership that got one more member.
pub proof fn lemma_ballots_push(players: Seq<GamePlayerView>, p: GamePlayerView, open: bool)
    ensures
        ballots(players.push(p), open) == if p.info.voter {
            ballots(players, open).push(p.ballot(open))
        } else {
            ballots(players, open)
        },
{
    lemma_voters_push(players, p);
}

/// The others of a membership that got one more member.
pub proof fn lemma_others_push(players: Seq<GamePlayerView>, p: GamePlayerView, skip: Seq<char>)
    ensures
        others(players.push(p), skip) == if p.info.id != skip {
            others(players, skip).push(p)
        } else {
            others(players, skip)
        },
{
    lemma_filter_push(players, p, |p: GamePlayerView| p.info.id != skip);
}

} // verus!
