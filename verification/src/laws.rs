//! What holds of the sending and the receiving side together.

use vstd::prelude::*;
use crate::movement::direction_of;
use crate::network::{position_taken, AnyEvent, CustomNetEvent, InputEvent, NetMessage, NetParams, OwnedInput, Player};
use crate::receive::{
    acceptable, after_frame, after_message, after_messages, after_recent, after_take,
    connected_params, due_entries, due_frame, frame_entries, keep_newer, newest_of,
    own_update_applied, recent_acceptable, Buffers, DueFrame, INPUT_LAG,
};
use crate::send::{input_message, own_update, sends_update, update_message, UPDATE_FREQ};

verus! {

/// Every message the sending side makes is one the receiving side handles.
pub proof fn law_sent_messages_are_accepted<P>(is_server: bool, frame: u64, input: InputEvent, player_pos: P)
    ensures
        acceptable(input_message::<P>(is_server, frame, input)),
        acceptable(update_message(is_server, frame, player_pos)),
{
}

/// The input a peer sends for frame `frame` is handed out by the other peer,
/// owned by the sender's side, once `frame + INPUT_LAG` frames have passed
/// there; it is then the same input that the sender fed its own simulation.
/// (Frame numbers start at 1: nothing falls due for frame 0.)
pub proof fn law_input_arrives_after_lag<P>(
    b: Buffers<P>,
    is_server: bool,
    frame: u64,
    input: InputEvent,
    elapsed: u64,
)
    requires
        frame > 0,
        elapsed == frame + INPUT_LAG,
    ensures
        due_entries(after_message(b, input_message::<P>(is_server, frame, input)), elapsed).input
            == Some(OwnedInput { is_server, input }),
{
    let b2 = after_message(b, input_message::<P>(is_server, frame, input));
    assert(b2.inputs.contains_key(frame));
}

/// Before `INPUT_LAG` frames have passed nothing is handed out and nothing
/// leaves the buffers.
pub proof fn law_nothing_due_within_lag<P>(b: Buffers<P>, elapsed: u64)
    requires
        elapsed <= INPUT_LAG,
    ensures
        due_entries(b, elapsed) == (DueFrame::<P> { input: None, update: None }),
        after_take(b, elapsed) == b,
{
}

/// What falls due is handed out once: taking again at the same frame count
/// finds nothing.
pub proof fn law_due_entries_taken_once<P>(b: Buffers<P>, elapsed: u64)
    ensures
        due_entries(after_take(b, elapsed), elapsed) == (DueFrame::<P> { input: None, update: None }),
{
}

/// Of the unreliable messages handled during a frame the newest is kept: none
/// when there is none; else one of them, whose frame is at least that of
/// every other, and the first received among those of that frame.
pub proof fn law_newest_update_is_kept<P>(msgs: Seq<NetMessage<P>>)
    ensures
        newest_of(None, msgs) is None <==> (forall|i: int|
            0 <= i < msgs.len() ==> !(#[trigger] msgs[i] is Unreliable)),
        newest_of(None, msgs) matches Some(e) ==> exists|i: int|
            0 <= i < msgs.len() && msgs[i] == NetMessage::Unreliable(e) && (forall|j: int|
                0 <= j < i && #[trigger] msgs[j] is Unreliable ==> msgs[j]->Unreliable_0.frame
                    < e.frame),
        newest_of(None, msgs) matches Some(e) ==> forall|j: int|
            0 <= j < msgs.len() && #[trigger] msgs[j] is Unreliable ==> msgs[j]->Unreliable_0.frame
                <= e.frame,
    decreases msgs.len(),
{
    if msgs.len() > 0 {
        let pre = msgs.drop_last();
        law_newest_update_is_kept(pre);
        assert forall|i: int| 0 <= i < pre.len() implies pre[i] == msgs[i] by {}
        let r = newest_of(None, pre);
        let last = msgs.last();
        if last is Unreliable {
            let ev = last->Unreliable_0;
            match r {
                None => {
                    assert(msgs[msgs.len() - 1] == NetMessage::Unreliable(ev));
                },
                Some(old_e) => {
                    if ev.frame > old_e.frame {
                        assert(msgs[msgs.len() - 1] == NetMessage::Unreliable(ev));
                        assert forall|j: int|
                            0 <= j < msgs.len() - 1 && #[trigger] msgs[j] is Unreliable implies msgs[j]->Unreliable_0.frame
                                < ev.frame by {
                            assert(pre[j] == msgs[j]);
                        }
                    } else {
                        let i = choose|i: int|
                            0 <= i < pre.len() && pre[i] == NetMessage::Unreliable(old_e) && (forall|j: int|
                                0 <= j < i && #[trigger] pre[j] is Unreliable ==> pre[j]->Unreliable_0.frame
                                    < old_e.frame);
                        assert(msgs[i] == NetMessage::Unreliable(old_e));
                        assert forall|j: int|
                            0 <= j < i && #[trigger] msgs[j] is Unreliable implies msgs[j]->Unreliable_0.frame
                                < old_e.frame by {
                            assert(pre[j] == msgs[j]);
                        }
                    }
                },
            }
        } else {
            if let Some(old_e) = r {
                let i = choose|i: int|
                    0 <= i < pre.len() && pre[i] == NetMessage::Unreliable(old_e) && (forall|j: int|
                        0 <= j < i && #[trigger] pre[j] is Unreliable ==> pre[j]->Unreliable_0.frame
                            < old_e.frame);
                assert(msgs[i] == NetMessage::Unreliable(old_e));
                assert forall|j: int|
                    0 <= j < i && #[trigger] msgs[j] is Unreliable implies msgs[j]->Unreliable_0.frame
                        < old_e.frame by {
                    assert(pre[j] == msgs[j]);
                }
            } else {
                assert forall|i: int| 0 <= i < msgs.len() implies !(#[trigger] msgs[i] is Unreliable) by {
                    if i < msgs.len() - 1 {
                        assert(pre[i] == msgs[i]);
                    }
                }
            }
        }
    }
}

/// The update a peer sends for frame `frame`, when it is the newest of its
/// frame on the other peer, is handed out there once `frame + INPUT_LAG`
/// frames have passed, and gives the sender's player the sender's position;
/// the sender itself takes no position from its own update.
pub proof fn law_update_reaches_other_peer<P>(
    b: Buffers<P>,
    is_server: bool,
    frame: u64,
    player_pos: P,
    elapsed: u64,
)
    requires
        frame > 0,
        elapsed == frame + INPUT_LAG,
    ensures
        recent_acceptable(keep_newer(None, update_message(is_server, frame, player_pos))),
        due_entries(
            after_recent(b, keep_newer(None, update_message(is_server, frame, player_pos))),
            elapsed,
        ).update == Some(own_update(is_server, player_pos)),
        position_taken(own_update(is_server, player_pos), !is_server) == Some(player_pos),
        position_taken(own_update(is_server, player_pos), is_server) is None,
{
    let b2 = after_recent(b, keep_newer(None, update_message(is_server, frame, player_pos)));
    assert(b2.updates.contains_key(frame));
}

/// Updates go out periodically: every `UPDATE_FREQ` frames, and never in
/// between.
pub proof fn law_updates_are_periodic(frame: u64, k: u64)
    requires
        frame + UPDATE_FREQ <= u64::MAX,
        0 < k < UPDATE_FREQ,
    ensures
        sends_update(frame) == sends_update((frame + UPDATE_FREQ) as u64),
        sends_update(frame) ==> !sends_update((frame + k) as u64),
{
    assert(UPDATE_FREQ == 54);
    let f = frame as int;
    let kk = k as int;
    assert((f + 54) % 54 == f % 54) by (nonlinear_arith);
    assert(f % 54 == 0 ==> (f + kk) % 54 == kk) by (nonlinear_arith)
        requires
            0 < kk < 54,
            f >= 0,
    ;
}

/// Whether one of `msgs` is a reliable input for frame `f`.
pub open spec fn stores_input_at<P>(msgs: Seq<NetMessage<P>>, f: u64) -> bool {
    exists|i: int|
        0 <= i < msgs.len() && #[trigger] msgs[i] is Reliable && msgs[i]->Reliable_0.frame == f
            && msgs[i]->Reliable_0.event is Input
}

/// Whether the newest unreliable message among `msgs` belongs to frame `f`.
pub open spec fn stores_update_at<P>(msgs: Seq<NetMessage<P>>, f: u64) -> bool {
    newest_of(None, msgs) matches Some(e) && e.frame == f
}

/// The buffers after several whole frames, each given by its messages and
/// the number of frames passed when it is handled.
pub open spec fn after_frames<P>(b: Buffers<P>, frames: Seq<(Seq<NetMessage<P>>, u64)>) -> Buffers<P>
    decreases frames.len(),
{
    if frames.len() == 0 {
        b
    } else {
        let last = frames.last();
        after_frame(after_frames(b, frames.drop_last()), last.0, last.1)
    }
}

/// Taking the due entries leaves every other frame's entries as they were.
pub proof fn law_take_keeps_other_frames<P>(b: Buffers<P>, elapsed: u64, f: u64)
    requires
        due_frame(elapsed) != Some(f),
    ensures
        after_take(b, elapsed).inputs.get(f) == b.inputs.get(f),
        after_take(b, elapsed).updates.get(f) == b.updates.get(f),
{
}

/// Messages that carry no input for frame `f` leave frame `f`'s input as it
/// was; messages never touch the buffered updates.
pub proof fn law_messages_keep_other_frames<P>(b: Buffers<P>, msgs: Seq<NetMessage<P>>, f: u64)
    ensures
        !stores_input_at(msgs, f) ==> after_messages(b, msgs).inputs.get(f) == b.inputs.get(f),
        after_messages(b, msgs).updates == b.updates,
    decreases msgs.len(),
{
    if msgs.len() > 0 {
        let pre = msgs.drop_last();
        law_messages_keep_other_frames(b, pre, f);
        if !stores_input_at(msgs, f) {
            assert(!stores_input_at(pre, f)) by {
                if stores_input_at(pre, f) {
                    let i = choose|i: int|
                        0 <= i < pre.len() && #[trigger] pre[i] is Reliable && pre[i]->Reliable_0.frame
                            == f && pre[i]->Reliable_0.event is Input;
                    assert(msgs[i] == pre[i]);
                }
            }
            assert(msgs[msgs.len() - 1] == msgs.last());
        }
    }
}

/// A whole frame keeps frame `f`'s input when none of its messages is an
/// input for `f` and `f` is not due, and keeps `f`'s update when its newest
/// update is not for `f` and `f` is not due.
pub proof fn law_frame_keeps_other_frames<P>(
    b: Buffers<P>,
    msgs: Seq<NetMessage<P>>,
    elapsed: u64,
    f: u64,
)
    requires
        due_frame(elapsed) != Some(f),
    ensures
        !stores_input_at(msgs, f) ==> after_frame(b, msgs, elapsed).inputs.get(f) == b.inputs.get(f),
        !stores_update_at(msgs, f) ==> after_frame(b, msgs, elapsed).updates.get(f) == b.updates.get(f),
{
    law_messages_keep_other_frames(b, msgs, f);
    let b1 = after_messages(b, msgs);
    let b2 = after_recent(b1, newest_of(None, msgs));
    law_take_keeps_other_frames(b2, elapsed, f);
}

/// An input or update waiting for frame `f` is still there after any number
/// of frames that are not due for `f` and store nothing new for `f`; so it is
/// delivered, unchanged, when `f` falls due however many frames lie between.
pub proof fn law_entries_wait_until_due<P>(
    b: Buffers<P>,
    frames: Seq<(Seq<NetMessage<P>>, u64)>,
    f: u64,
)
    requires
        forall|k: int| 0 <= k < frames.len() ==> due_frame(#[trigger] frames[k].1) != Some(f),
    ensures
        (forall|k: int| 0 <= k < frames.len() ==> !stores_input_at(#[trigger] frames[k].0, f))
            ==> after_frames(b, frames).inputs.get(f) == b.inputs.get(f),
        (forall|k: int| 0 <= k < frames.len() ==> !stores_update_at(#[trigger] frames[k].0, f))
            ==> after_frames(b, frames).updates.get(f) == b.updates.get(f),
        0 < f && f + INPUT_LAG <= u64::MAX ==> due_entries(after_frames(b, frames), (f + INPUT_LAG) as u64) == (DueFrame {
            input: after_frames(b, frames).inputs.get(f),
            update: after_frames(b, frames).updates.get(f),
        }),
    decreases frames.len(),
{
    if frames.len() > 0 {
        let pre = frames.drop_last();
        assert forall|k: int| 0 <= k < pre.len() implies due_frame(#[trigger] pre[k].1) != Some(f) by {
            assert(pre[k] == frames[k]);
        }
        law_entries_wait_until_due(b, pre, f);
        let last = frames.last();
        assert(frames[frames.len() - 1] == last);
        law_frame_keeps_other_frames(after_frames(b, pre), last.0, last.1, f);
        if forall|k: int| 0 <= k < frames.len() ==> !stores_input_at(#[trigger] frames[k].0, f) {
            assert forall|k: int| 0 <= k < pre.len() implies !stores_input_at(#[trigger] pre[k].0, f) by {
                assert(pre[k] == frames[k]);
            }
        }
        if forall|k: int| 0 <= k < frames.len() ==> !stores_update_at(#[trigger] frames[k].0, f) {
            assert forall|k: int| 0 <= k < pre.len() implies !stores_update_at(#[trigger] pre[k].0, f) by {
                assert(pre[k] == frames[k]);
            }
        }
    }
}

/// A frame in which the first connection is seen counts frames from that
/// frame on, so nothing falls due in it; a frame with a reader already keeps
/// the frame count; neither changes the peer's side.
pub proof fn law_first_connection_starts_the_count<P>(
    had_reader: bool,
    params: NetParams,
    now: u64,
    b: Buffers<P>,
    msgs: Seq<NetMessage<P>>,
)
    ensures
        connected_params(had_reader, params, now).is_server == params.is_server,
        had_reader ==> connected_params(had_reader, params, now) == params,
        !had_reader ==> connected_params(had_reader, params, now).first_frame == now,
        !had_reader ==> frame_entries(
            b,
            msgs,
            (now - connected_params(had_reader, params, now).first_frame) as u64,
        ) == (DueFrame::<P> { input: None, update: None }),
        !had_reader && msgs.len() == 0 ==> after_frame(
            b,
            msgs,
            (now - connected_params(had_reader, params, now).first_frame) as u64,
        ) == b,
{
    if !had_reader && msgs.len() == 0 {
        assert(after_messages(b, msgs) == b);
        assert(newest_of(None, msgs) is None);
    }
}

/// Whether `m` is a reliable input for frame `f`.
pub open spec fn is_input_for<P>(m: NetMessage<P>, f: u64) -> bool {
    m is Reliable && m->Reliable_0.frame == f && m->Reliable_0.event is Input
}

/// After a frame's messages are handled, frame `f` holds the input of the
/// last reliable input for `f` among them, owned by its sender's side.
pub proof fn law_last_input_is_stored<P>(
    b: Buffers<P>,
    msgs: Seq<NetMessage<P>>,
    i: int,
    s: bool,
    f: u64,
    input: InputEvent,
)
    requires
        0 <= i < msgs.len(),
        msgs[i] == input_message::<P>(s, f, input),
        forall|j: int| i < j < msgs.len() ==> !is_input_for(#[trigger] msgs[j], f),
    ensures
        after_messages(b, msgs).inputs.contains_key(f),
        after_messages(b, msgs).inputs[f] == (OwnedInput { is_server: s, input }),
    decreases msgs.len(),
{
    let pre = msgs.drop_last();
    let last = msgs.last();
    assert(msgs[msgs.len() - 1] == last);
    if i < msgs.len() - 1 {
        assert forall|j: int| i < j < pre.len() implies !is_input_for(#[trigger] pre[j], f) by {
            assert(pre[j] == msgs[j]);
        }
        assert(pre[i] == msgs[i]);
        law_last_input_is_stored(b, pre, i, s, f, input);
        assert(!is_input_for(msgs[msgs.len() - 1], f));
    }
}

/// Whichever side sends it, an input for frame `f > 0` that is the last input
/// for `f` in a frame's messages is handed out, owned by the sender's side,
/// when `f + INPUT_LAG` frames have passed.
pub proof fn law_frame_replays_inputs<P>(
    b: Buffers<P>,
    msgs: Seq<NetMessage<P>>,
    i: int,
    s: bool,
    f: u64,
    input: InputEvent,
)
    requires
        0 <= i < msgs.len(),
        msgs[i] == input_message::<P>(s, f, input),
        forall|j: int| i < j < msgs.len() ==> !is_input_for(#[trigger] msgs[j], f),
        0 < f,
        f + INPUT_LAG <= u64::MAX,
    ensures
        frame_entries(b, msgs, (f + INPUT_LAG) as u64).input == Some(OwnedInput { is_server: s, input }),
{
    law_last_input_is_stored(b, msgs, i, s, f, input);
}

/// Whichever side sends it, the newest update of a frame's messages is
/// handed out, as the sender's own update, when its frame `f > 0` plus
/// `INPUT_LAG` frames have passed.
pub proof fn law_frame_replays_newest_update<P>(
    b: Buffers<P>,
    msgs: Seq<NetMessage<P>>,
    s: bool,
    f: u64,
    player_pos: P,
)
    requires
        newest_of(None, msgs) == Some(
            CustomNetEvent { frame: f, from_server: s, event: AnyEvent::Update(own_update(s, player_pos)) },
        ),
        0 < f,
        f + INPUT_LAG <= u64::MAX,
    ensures
        frame_entries(b, msgs, (f + INPUT_LAG) as u64).update == Some(own_update(s, player_pos)),
{
    law_messages_keep_other_frames(b, msgs, f);
}

/// A frame holding just one update from either side hands that update out
/// once its frame `f > 0` plus `INPUT_LAG` frames have passed.
pub proof fn law_single_update_is_replayed<P>(b: Buffers<P>, s: bool, f: u64, player_pos: P)
    requires
        0 < f,
        f + INPUT_LAG <= u64::MAX,
    ensures
        frame_entries(b, seq![update_message(s, f, player_pos)], (f + INPUT_LAG) as u64).update
            == Some(own_update(s, player_pos)),
{
    let msgs = seq![update_message(s, f, player_pos)];
    assert(msgs.drop_last() =~= Seq::<NetMessage<P>>::empty());
    assert(newest_of(None, msgs.drop_last()) is None);
    assert(msgs.last() == update_message(s, f, player_pos));
    assert(newest_of(None, msgs) == Some(
        CustomNetEvent { frame: f, from_server: s, event: AnyEvent::Update(own_update(s, player_pos)) },
    ));
    law_frame_replays_newest_update(b, msgs, s, f, player_pos);
}

/// Single keys move one step: right `(1, 0)`, left `(-1, 0)`, up `(0, 1)`,
/// down `(0, -1)`; no key does not move.
pub proof fn law_single_keys_move_one_step()
    ensures
        direction_of(InputEvent { left: false, right: false, up: false, down: false }) == (0int, 0int),
        direction_of(InputEvent { left: false, right: true, up: false, down: false }) == (1int, 0int),
        direction_of(InputEvent { left: true, right: false, up: false, down: false }) == (-1int, 0int),
        direction_of(InputEvent { left: false, right: false, up: true, down: false }) == (0int, 1int),
        direction_of(InputEvent { left: false, right: false, up: false, down: true }) == (0int, -1int),
{
}

/// The axes are independent: the horizontal step depends only on left and
/// right, the vertical step only on up and down.
pub proof fn law_axes_are_independent(a: InputEvent, c: InputEvent)
    ensures
        (a.left == c.left && a.right == c.right) ==> direction_of(a).0 == direction_of(c).0,
        (a.up == c.up && a.down == c.down) ==> direction_of(a).1 == direction_of(c).1,
{
}

/// Opposite keys mirror each other: swapping left and right negates the
/// horizontal step, swapping up and down negates the vertical one; holding
/// both keys of an axis cancels it.
pub proof fn law_opposite_keys_mirror(a: InputEvent)
    ensures
        direction_of(InputEvent { left: a.right, right: a.left, up: a.up, down: a.down }).0
            == -direction_of(a).0,
        direction_of(InputEvent { left: a.left, right: a.right, up: a.down, down: a.up }).1
            == -direction_of(a).1,
        (a.left && a.right) ==> direction_of(a).0 == 0,
        (a.up && a.down) ==> direction_of(a).1 == 0,
{
}

/// An update from the other side is never refused, whatever players there
/// are; this side's own update is refused exactly when a player of the other
/// side is present.
pub proof fn law_only_own_updates_are_refused<P>(s: bool, player_pos: P, players: Seq<Player>)
    ensures
        !own_update_applied(Some(own_update(!s, player_pos)), s, players),
        own_update_applied(Some(own_update(s, player_pos)), s, players) <==> exists|i: int|
            0 <= i < players.len() && #[trigger] players[i].is_server != s,
        !own_update_applied(None::<crate::network::AnyUpdate<P>>, s, players),
{
}

} // verus!
