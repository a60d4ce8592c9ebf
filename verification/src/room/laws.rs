//! What holds of every room, whatever it is told.

use vstd::prelude::*;

use crate::player::PlayerInformationView;
use crate::room::model::{
    created_count, lemma_voters_push, masked, others, quits, restorable, shown_state, voters_of,
    GamePlayerView, RoomView,
};
use crate::room::{GamePlayerMessageView, RoomEffectView, RoomEventView, RoomMessageView};

verus! {

/// Changing a member without touching its voter flag keeps the number of
/// voters.
pub proof fn lemma_voters_update(players: Seq<GamePlayerView>, at: int, p: GamePlayerView)
    requires
        0 <= at < players.len(),
        p.info.voter == players[at].info.voter,
    ensures
        voters_of(players.update(at, p)).len() == voters_of(players).len(),
    decreases players.len(),
{
    let last = players.last();
    let init = players.drop_last();
    assert(players =~= init.push(last));
    lemma_voters_push(init, last);
    if at == players.len() - 1 {
        assert(players.update(at, p) =~= init.push(p));
        lemma_voters_push(init, p);
    } else {
        assert(players.update(at, p) =~= init.update(at, p).push(last));
        lemma_voters_push(init.update(at, p), last);
        lemma_voters_update(init, at, p);
    }
}

/// Every message leaves the ids of the members distinct.
pub proof fn law_step_keeps_ids_distinct(room: RoomView, msg: RoomMessageView)
    requires
        room.wf(),
    ensures
        room.step(msg).wf(),
{
}

/// Whatever votes arrive, and in whatever order, a room with fewer than two
/// voters keeps its votes hidden.
pub proof fn law_votes_alone_never_reveal_below_two_voters(
    room: RoomView,
    msgs: Seq<RoomMessageView>,
)
    requires
        room.wf(),
        !room.open,
        room.voters().len() < 2,
        forall|i: int| 0 <= i < msgs.len() ==> msgs[i] is PlayerVoted,
    ensures
        !room.run(msgs).open,
        room.run(msgs).voters().len() == room.voters().len(),
        room.run(msgs).wf(),
    decreases msgs.len(),
{
    if msgs.len() > 0 {
        let before = room.run(msgs.drop_last());
        law_votes_alone_never_reveal_below_two_voters(room, msgs.drop_last());
        law_step_keeps_ids_distinct(before, msgs.last());
        match msgs.last() {
            RoomMessageView::PlayerVoted(id, vote) => {
                if before.accepts_vote(id) {
                    let at = before.slot(id);
                    lemma_voters_update(
                        before.players,
                        at,
                        GamePlayerView { vote, ..before.players[at] },
                    );
                }
            },
            _ => {},
        }
    }
}

/// When a vote counts, every member is sent the round's state, and in it the
/// votes are revealed exactly if at least two members vote and each of them
/// has a vote.
pub proof fn law_counted_vote_reveals_iff_complete(
    room: RoomView,
    id: Seq<char>,
    vote: Option<Seq<char>>,
)
    requires
        room.wf(),
        room.accepts_vote(id),
    ensures
        ({
            let after = room.vote(id, vote).room;
            let sent = room.vote(id, vote).effects;
            &&& after.open == after.complete()
            &&& after.game_state().open == (after.voters().len() >= 2 && after.all_voted())
            &&& sent.len() == after.players.len()
            &&& forall|i: int|
                0 <= i < sent.len() ==> sent[i] == RoomEffectView::Send(
                    after.players[i].info.id,
                    GamePlayerMessageView::GameStateChanged(after.game_state()),
                )
        }),
{
}

/// While the votes are hidden, the round's state holds, for each voter,
/// nothing or `"?"`: never a vote.
pub proof fn law_hidden_state_gives_no_vote_away(room: RoomView)
    ensures
        masked(room.game_state()),
        room.game_state().open == room.open,
{
}

/// Every round's state that a message has the room send is the state of the
/// room after that message, so it gives no vote away while the votes are
/// hidden.
pub proof fn law_sent_states_are_current_and_masked(room: RoomView, msg: RoomMessageView, i: int)
    requires
        room.wf(),
        0 <= i < room.effects(msg).len(),
        shown_state(room.effects(msg)[i]) is Some,
    ensures
        shown_state(room.effects(msg)[i]) == Some(room.step(msg).game_state()),
        masked(room.step(msg).game_state()),
{
    law_hidden_state_gives_no_vote_away(room.step(msg));
}

/// After a restart the votes are hidden and no member has a vote.
pub proof fn law_restart_clears_the_round(room: RoomView)
    ensures
        !room.restart().room.open,
        room.restart().room.players.len() == room.players.len(),
        forall|i: int|
            0 <= i < room.players.len() ==> room.restart().room.players[i].vote is None
                && room.restart().room.players[i].info == room.players[i].info,
        room.step(RoomMessageView::Restart) == room.restart().room,
{
}

/// The welcome that a joining player gets lists exactly the members of the
/// room after the join, the joiner among them.
pub proof fn law_welcome_lists_the_membership(room: RoomView, info: PlayerInformationView)
    requires
        room.wf(),
    ensures
        ({
            let after = room.join(info).room;
            &&& room.join(info).effects[1] == RoomEffectView::Send(
                info.id,
                GamePlayerMessageView::Welcome(after.id, after.game_state(), after.roster()),
            )
            &&& after.roster().len() == after.players.len()
            &&& forall|i: int|
                0 <= i < after.players.len() ==> after.roster()[i] == after.players[i].state()
            &&& after.has_player(info.id)
            &&& after.roster()[after.slot(info.id)] == GamePlayerView::fresh(info).state()
        }),
{
    let after = room.join(info).room;
    if room.has_player(info.id) {
        assert(after.players[room.slot(info.id)].info.id == info.id);
    } else {
        assert(after.players[room.players.len() as int].info.id == info.id);
    }
    law_step_keeps_ids_distinct(room, RoomMessageView::JoinRequest(info));
}

/// A vote in the name of somebody who is not in the room changes nothing and
/// is answered with nothing.
pub proof fn law_vote_of_a_stranger_is_ignored(
    room: RoomView,
    id: Seq<char>,
    vote: Option<Seq<char>>,
)
    requires
        !room.has_player(id),
    ensures
        room.step(RoomMessageView::PlayerVoted(id, vote)) == room,
        room.effects(RoomMessageView::PlayerVoted(id, vote)) == Seq::<RoomEffectView>::empty(),
{
}

/// The idle timer stops the room exactly if the room is empty when the timer
/// fires; so it does not while a player who joined in the meantime is still
/// there.
pub proof fn law_idle_timer_stops_only_an_empty_room(room: RoomView, info: PlayerInformationView)
    ensures
        quits(room.effects(RoomMessageView::CloseWhenEmpty)) <==> room.players.len() == 0,
        room.step(RoomMessageView::CloseWhenEmpty) == room,
        !quits(room.join(info).room.effects(RoomMessageView::CloseWhenEmpty)),
{
    if room.players.len() == 0 {
        assert(seq![RoomEffectView::Quit][0] == RoomEffectView::Quit);
    }
}

/// In the life of a room at most one message stops it, and that is the last
/// one it handles.
pub proof fn law_a_room_stops_at_most_once(room: RoomView, mailbox: Seq<RoomMessageView>, i: int)
    requires
        0 <= i < room.life(mailbox).len(),
        quits(room.life(mailbox)[i].effects),
    ensures
        i == room.life(mailbox).len() - 1,
    decreases mailbox.len(),
{
    if mailbox.len() > 0 {
        let first = room.handle(mailbox[0]);
        if !quits(first.effects) && i > 0 {
            law_a_room_stops_at_most_once(first.room, mailbox.drop_first(), i - 1);
        }
    }
}

/// How the number of creation events relates to where they stand.
pub proof fn lemma_created_count(events: Seq<RoomEventView>)
    ensures
        created_count(events) == 0 <==> forall|i: int|
            0 <= i < events.len() ==> !(events[i] is Created),
        events.len() > 0 && events[0] is Created ==> created_count(events) >= 1 && (
        created_count(events) == 1 <==> forall|i: int|
            1 <= i < events.len() ==> !(events[i] is Created)),
    decreases events.len(),
{
    if events.len() > 0 {
        let init = events.drop_last();
        lemma_created_count(init);
        assert forall|i: int| 0 <= i < init.len() implies init[i] == events[i] by {}
        if created_count(events) == 0 {
            assert forall|i: int| 0 <= i < events.len() implies !(events[i] is Created) by {}
        }
        if events[0] is Created && events.len() > 1 {
            if created_count(events) == 1 {
                assert forall|i: int| 1 <= i < events.len() implies !(events[i] is Created) by {}
            }
        }
    }
}

/// A room can be restored from its log exactly if the log starts with the
/// room's creation and holds no more than one creation.
pub proof fn law_restorable_iff_one_creation_first(events: Seq<RoomEventView>)
    ensures
        restorable(events) <==> events.len() > 0 && events[0] is Created && created_count(events)
            <= 1,
{
    lemma_created_count(events);
}

/// The votes of a closed room are revealed by a message only if the message
/// forces them open or leaves a complete round: at least two voters, each
/// with a vote.
pub proof fn law_reveal_only_by_force_or_completion(room: RoomView, msg: RoomMessageView)
    requires
        room.wf(),
        !room.open,
        room.step(msg).open,
    ensures
        msg is ForceOpen || room.step(msg).complete(),
{
}

/// Nothing but a restart hides votes that are revealed.
pub proof fn law_revealed_stays_revealed_until_restart(room: RoomView, msg: RoomMessageView)
    requires
        room.open,
        !(msg is Restart),
    ensures
        room.step(msg).open,
{
}

/// A vote is discarded, with no effect at all, while the votes are revealed
/// and when it comes from a member who is no voter.
pub proof fn law_votes_when_open_or_of_non_voters_are_discarded(
    room: RoomView,
    id: Seq<char>,
    vote: Option<Seq<char>>,
)
    requires
        room.open || (room.has_player(id) && !room.players[room.slot(id)].info.voter),
    ensures
        room.step(RoomMessageView::PlayerVoted(id, vote)) == room,
        room.effects(RoomMessageView::PlayerVoted(id, vote)) == Seq::<RoomEffectView>::empty(),
{
}

/// A room is created, and restored, empty and with hidden votes.
pub proof fn law_rooms_start_empty_and_closed(id: Seq<char>, deck: Seq<char>)
    ensures
        RoomView::empty(id, deck).wf(),
        !RoomView::empty(id, deck).open,
        RoomView::empty(id, deck).players.len() == 0,
        RoomView::empty(id, deck).game_state().votes.len() == 0,
{
}

/// The leave that empties a room arms the idle timer, as the last thing it
/// does; no other leave arms it.
pub proof fn law_emptied_room_arms_its_timer(room: RoomView, id: Seq<char>)
    requires
        room.wf(),
    ensures
        ({
            let out = room.leave(id);
            let armed = RoomEffectView::CloseLater(crate::room::IDLE_GRACE_SECS);
            &&& out.room.players.len() == 0 ==> out.effects.last() == armed
            &&& out.room.players.len() > 0 ==> !out.effects.contains(armed)
        }),
{
    let out = room.leave(id);
    let armed = RoomEffectView::CloseLater(crate::room::IDLE_GRACE_SECS);
}

/// A message to all members goes to each member once, in the room's order.
pub proof fn law_broadcast_reaches_each_member_once(room: RoomView, msg: GamePlayerMessageView)
    ensures
        room.broadcast(msg).len() == room.players.len(),
        forall|i: int|
            0 <= i < room.players.len() ==> room.broadcast(msg)[i] == RoomEffectView::Send(
                room.players[i].info.id,
                msg,
            ),
{
}

/// What goes to everybody but one member never goes to that member.
pub proof fn law_skipped_member_gets_nothing(
    room: RoomView,
    skip: Seq<char>,
    msg: GamePlayerMessageView,
    i: int,
)
    requires
        0 <= i < room.broadcast_except(skip, msg).len(),
    ensures
        room.broadcast_except(skip, msg)[i] matches RoomEffectView::Send(to, sent) && to != skip
            && sent == msg && room.has_player(to),
{
    let rest = others(room.players, skip);
    let pred = |p: GamePlayerView| p.info.id != skip;
    assert(room.players.contains(rest[i])) by {
        lemma_filter_subset(room.players, pred, rest[i]);
    }
    let k = choose|k: int| 0 <= k < room.players.len() && room.players[k] == rest[i];
}

/// What is in a filtered sequence is in the sequence.
pub proof fn lemma_filter_subset<A>(s: Seq<A>, pred: spec_fn(A) -> bool, x: A)
    requires
        s.filter(pred).contains(x),
    ensures
        s.contains(x),
    decreases s.len(),
{
    reveal(Seq::filter);
    if s.len() > 0 {
        let init = s.drop_last();
        if init.filter(pred).contains(x) {
            lemma_filter_subset(init, pred, x);
            let k = choose|k: int| 0 <= k < init.len() && init[k] == x;
        } else {
            let f = s.filter(pred);
            let k = choose|k: int| 0 <= k < f.len() && f[k] == x;
        }
    }
}

/// The voters of a room have distinct ids, and each of them is a member.
pub proof fn lemma_voters_are_distinct_members(players: Seq<GamePlayerView>)
    requires
        forall|i: int, j: int|
            0 <= i < j < players.len() ==> players[i].info.id != players[j].info.id,
    ensures
        forall|i: int, j: int|
            0 <= i < j < voters_of(players).len() ==> voters_of(players)[i].info.id
                != voters_of(players)[j].info.id,
        forall|i: int|
            0 <= i < voters_of(players).len() ==> players.contains(
                #[trigger] voters_of(players)[i],
            ) && voters_of(players)[i].info.voter,
    decreases players.len(),
{
    if players.len() == 0 {
    } else {
        let init = players.drop_last();
        let last = players.last();
        assert(players =~= init.push(last));
        lemma_voters_push(init, last);
        lemma_voters_are_distinct_members(init);
        let before = voters_of(init);
        let now = voters_of(players);
        assert forall|i: int| 0 <= i < before.len() implies before[i].info.id != last.info.id
            && players.contains(before[i]) by {
            let k = choose|k: int| 0 <= k < init.len() && init[k] == before[i];
        }
        assert forall|i: int| 0 <= i < now.len() implies players.contains(#[trigger] now[i])
            && now[i].info.voter by {}
        assert forall|i: int, j: int| 0 <= i < j < now.len() implies now[i].info.id
            != now[j].info.id by {}
    }
}

/// The round's state lists each voter of the room once, and nobody else: so
/// its votes are a mapping from the voters' ids.
pub proof fn law_votes_list_each_voter_once(room: RoomView)
    requires
        room.wf(),
    ensures
        forall|i: int, j: int|
            0 <= i < j < room.game_state().votes.len() ==> room.game_state().votes[i].0
                != room.game_state().votes[j].0,
        forall|id: Seq<char>|
            room.game_state().lists(id) <==> room.has_player(id) && room.players[room.slot(
                id,
            )].info.voter,
{
    lemma_voters_are_distinct_members(room.players);
    let voters = room.voters();
    let votes = room.game_state().votes;
    assert forall|id: Seq<char>| room.game_state().lists(id) implies room.has_player(id)
        && room.players[room.slot(id)].info.voter by {
        let i = choose|i: int| 0 <= i < votes.len() && votes[i].0 == id;
        let k = choose|k: int| 0 <= k < room.players.len() && room.players[k] == voters[i];
        if room.slot(id) != k {
            let a = if room.slot(id) < k { room.slot(id) } else { k };
            let b = if room.slot(id) < k { k } else { room.slot(id) };
        }
    }
    assert forall|id: Seq<char>|
        room.has_player(id) && room.players[room.slot(id)].info.voter implies room.game_state().lists(
        id,
    ) by {
        let p = room.players[room.slot(id)];
        room.players.lemma_filter_contains(|p: GamePlayerView| p.info.voter, room.slot(id));
        let i = choose|i: int| 0 <= i < voters.len() && voters[i] == p;
        assert(votes[i] == voters[i].ballot(room.open));
    }
}

} // verus!
