//! The receiving side of the lockstep protocol.
//!
//! Inputs arrive reliably, tagged with the frame at which the sender pressed
//! them, and wait in a buffer until this peer reaches that frame plus
//! `INPUT_LAG`; then they are handed out, once. Of the updates that arrive
//! unreliably during one frame only the newest is kept, and it waits in a
//! second buffer on the same schedule.
//!
//! A frame is processed in this order: `connect` for each connection (the
//! first one registers the reader and starts the frame count), then
//! `receive_frame` with every message read, which runs `on_message` for each,
//! `buffer_recent` with the newest update, then `take_due`; a due update is
//! then checked with `check_due_update` and applied with
//! `NetParams::correction_for`.

use std::collections::HashMap;
use vstd::prelude::*;
use crate::network::{
    position_taken, AnyEvent, AnyUpdate, CustomNetEvent, NetMessage, NetParams, OwnedInput, Player,
};

verus! {

/// How many frames an input waits before it is applied (about 100 ms).
pub const INPUT_LAG: u64 = 6;

/// The abstract state of the receiving side: inputs and updates by frame.
pub struct Buffers<P> {
    pub inputs: Map<u64, OwnedInput>,
    pub updates: Map<u64, AnyUpdate<P>>,
}

/// What falls due in one frame: the input and the update stored for it.
#[derive(PartialEq, Eq, Clone, Copy, Debug)]
pub struct DueFrame<P> {
    pub input: Option<OwnedInput>,
    pub update: Option<AnyUpdate<P>>,
}

/// The messages the receiving side handles: inputs sent reliably, and
/// anything sent unreliably (only the newest of which is looked at).
pub open spec fn acceptable<P>(msg: NetMessage<P>) -> bool {
    match msg {
        NetMessage::Reliable(ev) => ev.event is Input,
        NetMessage::Unreliable(_) => true,
        NetMessage::Other => false,
    }
}

/// The newest unreliable message of a frame must be an update.
pub open spec fn recent_acceptable<P>(recent: Option<CustomNetEvent<P>>) -> bool {
    match recent {
        Some(ev) => ev.event is Update,
        None => true,
    }
}

/// The input that a reliable input message stands for: owned by the sender.
pub open spec fn owned_input_of<P>(ev: CustomNetEvent<P>) -> OwnedInput
    recommends
        ev.event is Input,
{
    OwnedInput { is_server: ev.from_server, input: ev.event->Input_0 }
}

/// The buffers after one message: a reliable input is stored under its
/// frame, replacing what was there; nothing else touches the buffers.
pub open spec fn after_message<P>(b: Buffers<P>, msg: NetMessage<P>) -> Buffers<P> {
    match msg {
        NetMessage::Reliable(ev) => match ev.event {
            AnyEvent::Input(_) => Buffers {
                inputs: b.inputs.insert(ev.frame, owned_input_of(ev)),
                updates: b.updates,
            },
            AnyEvent::Update(_) => b,
        },
        _ => b,
    }
}

/// The newest unreliable message so far: a message replaces the one kept
/// only when its frame is strictly later, so among equal frames the first
/// one received stays.
pub open spec fn keep_newer<P>(
    recent: Option<CustomNetEvent<P>>,
    msg: NetMessage<P>,
) -> Option<CustomNetEvent<P>> {
    match msg {
        NetMessage::Unreliable(ev) => match recent {
            None => Some(ev),
            Some(r) => if ev.frame > r.frame { Some(ev) } else { recent },
        },
        _ => recent,
    }
}

/// The newest unreliable message kept after the messages `msgs` are handled
/// in order, starting from `recent`.
pub open spec fn newest_of<P>(
    recent: Option<CustomNetEvent<P>>,
    msgs: Seq<NetMessage<P>>,
) -> Option<CustomNetEvent<P>>
    decreases msgs.len(),
{
    if msgs.len() == 0 {
        recent
    } else {
        keep_newer(newest_of(recent, msgs.drop_last()), msgs.last())
    }
}

/// The buffers after the messages `msgs` are handled in order.
pub open spec fn after_messages<P>(b: Buffers<P>, msgs: Seq<NetMessage<P>>) -> Buffers<P>
    decreases msgs.len(),
{
    if msgs.len() == 0 {
        b
    } else {
        after_message(after_messages(b, msgs.drop_last()), msgs.last())
    }
}

/// The buffers after the newest update of a frame is stored under its frame.
pub open spec fn after_recent<P>(b: Buffers<P>, recent: Option<CustomNetEvent<P>>) -> Buffers<P> {
    match recent {
        Some(ev) => match ev.event {
            AnyEvent::Update(u) => Buffers { inputs: b.inputs, updates: b.updates.insert(ev.frame, u) },
            AnyEvent::Input(_) => b,
        },
        None => b,
    }
}

/// The frame whose input and update fall due when `elapsed` frames have
/// passed since the first connection: none before `INPUT_LAG` has passed.
pub open spec fn due_frame(elapsed: u64) -> Option<u64> {
    if elapsed > INPUT_LAG {
        Some((elapsed - INPUT_LAG) as u64)
    } else {
        None
    }
}

/// What is handed out when `elapsed` frames have passed.
pub open spec fn due_entries<P>(b: Buffers<P>, elapsed: u64) -> DueFrame<P> {
    match due_frame(elapsed) {
        Some(f) => DueFrame { input: b.inputs.get(f), update: b.updates.get(f) },
        None => DueFrame { input: None, update: None },
    }
}

/// The buffers after the due entries are handed out: they are gone.
pub open spec fn after_take<P>(b: Buffers<P>, elapsed: u64) -> Buffers<P> {
    match due_frame(elapsed) {
        Some(f) => Buffers { inputs: b.inputs.remove(f), updates: b.updates.remove(f) },
        None => b,
    }
}

/// What handling a whole frame's messages hands out, when `elapsed` frames
/// have passed: the messages are handled in order, the newest update among
/// them is buffered, then the due entries are taken.
pub open spec fn frame_entries<P>(b: Buffers<P>, msgs: Seq<NetMessage<P>>, elapsed: u64) -> DueFrame<P> {
    due_entries(after_recent(after_messages(b, msgs), newest_of(None, msgs)), elapsed)
}

/// The buffers after a whole frame's messages are handled.
pub open spec fn after_frame<P>(b: Buffers<P>, msgs: Seq<NetMessage<P>>, elapsed: u64) -> Buffers<P> {
    after_take(after_recent(after_messages(b, msgs), newest_of(None, msgs)), elapsed)
}

/// The parameters after a connection is seen at frame `now`: frames are
/// counted from the first connection, so only a peer without a reader yet
/// moves its first frame; its side never changes.
pub open spec fn connected_params(had_reader: bool, params: NetParams, now: u64) -> NetParams {
    if had_reader {
        params
    } else {
        NetParams { is_server: params.is_server, first_frame: now }
    }
}

/// Why a message or the newest update of a frame cannot be handled.
#[derive(PartialEq, Eq, Structural, Clone, Copy, Debug)]
pub enum MessageFault {
    /// A transport event that is neither a reliable nor an unreliable message.
    UnexpectedEvent,
    /// A reliable message that is not an input.
    ReliableNonInput,
    /// The newest unreliable message of a frame is not an update.
    RecentNotUpdate,
    /// The update that falls due comes from this peer's own side while there
    /// is a player of the other side to correct with it.
    OwnUpdate,
}

impl MessageFault {
    /// The text with which a peer stops on this fault.
    pub fn message(&self) -> (s: &'static str)
        ensures
            s@ == match self {
                MessageFault::UnexpectedEvent => "unexpected NetEvent unhandled!"@,
                MessageFault::ReliableNonInput => "non-reliable InputEvent found"@,
                MessageFault::RecentNotUpdate => "expected update event in recent, but it wasn't"@,
                MessageFault::OwnUpdate => "received our own update"@,
            },
    {
        match self {
            MessageFault::UnexpectedEvent => "unexpected NetEvent unhandled!",
            MessageFault::ReliableNonInput => "non-reliable InputEvent found",
            MessageFault::RecentNotUpdate => "expected update event in recent, but it wasn't",
            MessageFault::OwnUpdate => "received our own update",
        }
    }
}

/// The verdict on one message.
pub open spec fn message_verdict<P>(msg: NetMessage<P>) -> Result<(), MessageFault> {
    match msg {
        NetMessage::Reliable(ev) => match ev.event {
            AnyEvent::Input(_) => Ok(()),
            AnyEvent::Update(_) => Err(MessageFault::ReliableNonInput),
        },
        NetMessage::Unreliable(_) => Ok(()),
        NetMessage::Other => Err(MessageFault::UnexpectedEvent),
    }
}

/// The verdict on the newest unreliable message of a frame.
pub open spec fn recent_verdict<P>(recent: Option<CustomNetEvent<P>>) -> Result<(), MessageFault> {
    match recent {
        Some(ev) => match ev.event {
            AnyEvent::Update(_) => Ok(()),
            AnyEvent::Input(_) => Err(MessageFault::RecentNotUpdate),
        },
        None => Ok(()),
    }
}

/// The verdict on the first message, in order, that cannot be handled.
pub open spec fn first_fault<P>(msgs: Seq<NetMessage<P>>) -> Result<(), MessageFault>
    decreases msgs.len(),
{
    if msgs.len() == 0 {
        Ok(())
    } else {
        match first_fault(msgs.drop_last()) {
            Ok(()) => message_verdict(msgs.last()),
            Err(f) => Err(f),
        }
    }
}

/// The verdict on a whole frame's messages: the first message that cannot be
/// handled, else the newest unreliable one when it is not an update.
pub open spec fn batch_verdict<P>(msgs: Seq<NetMessage<P>>) -> Result<(), MessageFault> {
    match first_fault(msgs) {
        Ok(()) => recent_verdict(newest_of(None, msgs)),
        Err(f) => Err(f),
    }
}

/// A frame's messages can all be handled when every one of them can be and
/// the newest unreliable one is an update.
pub open spec fn batch_acceptable<P>(msgs: Seq<NetMessage<P>>) -> bool {
    &&& forall|i: int| 0 <= i < msgs.len() ==> acceptable(#[trigger] msgs[i])
    &&& recent_acceptable(newest_of(None, msgs))
}

/// A message's verdict is `Ok` exactly when it can be handled.
pub proof fn lemma_message_verdict<P>(msg: NetMessage<P>)
    ensures
        message_verdict(msg) is Ok <==> acceptable(msg),
{
}

/// No message fails before the end exactly when every message can be handled.
pub proof fn lemma_first_fault<P>(msgs: Seq<NetMessage<P>>)
    ensures
        first_fault(msgs) is Ok <==> forall|i: int| 0 <= i < msgs.len() ==> acceptable(#[trigger] msgs[i]),
    decreases msgs.len(),
{
    if msgs.len() > 0 {
        let pre = msgs.drop_last();
        lemma_first_fault(pre);
        assert forall|i: int| 0 <= i < pre.len() implies pre[i] == msgs[i] by {}
        if first_fault(pre) is Ok && !acceptable(msgs.last()) {
            assert(!acceptable(msgs[msgs.len() - 1]));
        }
        if first_fault(pre) is Err {
            let i = choose|i: int| 0 <= i < pre.len() && !acceptable(#[trigger] pre[i]);
            assert(!acceptable(msgs[i]));
        }
    }
}

/// Checks that a message can be handled, and says why not.
pub fn check_message<P>(msg: &NetMessage<P>) -> (r: Result<(), MessageFault>)
    ensures
        r is Ok <==> acceptable(*msg),
        r == Err::<(), MessageFault>(MessageFault::UnexpectedEvent) <==> *msg is Other,
        r == Err::<(), MessageFault>(MessageFault::ReliableNonInput) <==> (*msg is Reliable
            && msg->Reliable_0.event is Update),
{
    match msg {
        NetMessage::Reliable(ev) => match &ev.event {
            AnyEvent::Input(_) => Ok(()),
            AnyEvent::Update(_) => Err(MessageFault::ReliableNonInput),
        },
        NetMessage::Unreliable(_) => Ok(()),
        NetMessage::Other => Err(MessageFault::UnexpectedEvent),
    }
}

/// Checks that the newest unreliable message of a frame is an update.
pub fn check_recent<P>(recent: &Option<CustomNetEvent<P>>) -> (r: Result<(), MessageFault>)
    ensures
        r is Ok <==> recent_acceptable(*recent),
        r is Err ==> r == Err::<(), MessageFault>(MessageFault::RecentNotUpdate),
{
    match recent {
        Some(ev) => match &ev.event {
            AnyEvent::Update(_) => Ok(()),
            AnyEvent::Input(_) => Err(MessageFault::RecentNotUpdate),
        },
        None => Ok(()),
    }
}

/// A fault in a prefix of the messages is the fault of all of them.
pub proof fn lemma_prefix_fault<P>(msgs: Seq<NetMessage<P>>, j: int)
    requires
        0 <= j <= msgs.len(),
        first_fault(msgs.take(j)) is Err,
    ensures
        first_fault(msgs) == first_fault(msgs.take(j)),
    decreases msgs.len() - j,
{
    if j == msgs.len() {
        assert(msgs.take(j) == msgs);
    } else {
        assert(msgs.take(j + 1).drop_last() == msgs.take(j));
        lemma_prefix_fault(msgs, j + 1);
    }
}

/// Checks a whole frame's messages: names the first one that cannot be
/// handled, else whether the newest unreliable one is not an update.
pub fn check_batch<P>(msgs: &Vec<NetMessage<P>>) -> (r: Result<(), MessageFault>)
    ensures
        r == batch_verdict(msgs@),
        r is Ok <==> batch_acceptable(msgs@),
{
    let n = msgs.len();
    let mut newest: Option<usize> = None;
    let mut i: usize = 0;
    while i < n
        invariant
            n == msgs@.len(),
            i <= n,
            first_fault(msgs@.take(i as int)) is Ok,
            match newest {
                None => newest_of(None, msgs@.take(i as int)) is None,
                Some(k) => k < i && msgs@[k as int] is Unreliable && newest_of(
                    None,
                    msgs@.take(i as int),
                ) == Some(msgs@[k as int]->Unreliable_0),
            },
        decreases n - i,
    {
        let ghost pre = msgs@.take(i as int);
        assert(msgs@.take(i + 1).drop_last() == pre);
        assert(msgs@.take(i + 1).last() == msgs@[i as int]);
        let v = check_message(&msgs[i]);
        if v.is_err() {
            assert(first_fault(msgs@.take(i + 1)) == message_verdict(msgs@[i as int]));
            proof {
                lemma_prefix_fault(msgs@, (i + 1) as int);
                lemma_first_fault(msgs@);
            }
            return v;
        }
        if let NetMessage::Unreliable(ev) = &msgs[i] {
            let newer = match newest {
                None => true,
                Some(k) => match &msgs[k] {
                    NetMessage::Unreliable(old_ev) => ev.frame > old_ev.frame,
                    _ => false,
                },
            };
            if newer {
                newest = Some(i);
            }
        }
        i = i + 1;
    }
    assert(msgs@.take(n as int) == msgs@);
    proof {
        lemma_first_fault(msgs@);
    }
    match newest {
        None => Ok(()),
        Some(k) => match &msgs[k] {
            NetMessage::Unreliable(ev) => match &ev.event {
                AnyEvent::Update(_) => Ok(()),
                AnyEvent::Input(_) => Err(MessageFault::RecentNotUpdate),
            },
            _ => Ok(()),
        },
    }
}

/// Whether a due update would be applied by its own side: it comes from the
/// side `local_is_server` plays, and one of `players` belongs to the other
/// side, whose position it would have to give.
pub open spec fn own_update_applied<P>(
    update: Option<AnyUpdate<P>>,
    local_is_server: bool,
    players: Seq<Player>,
) -> bool {
    &&& update matches Some(u) && position_taken(u, local_is_server) is None
    &&& exists|i: int| 0 <= i < players.len() && #[trigger] players[i].is_server != local_is_server
}

/// Checks that the update falling due can correct every player of the other
/// side among `players`: it must not be this peer's own update when there is
/// such a player.
pub fn check_due_update<P>(
    update: &Option<AnyUpdate<P>>,
    params: &NetParams,
    players: &Vec<Player>,
) -> (r: Result<(), MessageFault>)
    ensures
        r is Ok <==> !own_update_applied(*update, params.is_server, players@),
        r is Err ==> r == Err::<(), MessageFault>(MessageFault::OwnUpdate),
{
    let own = match update {
        Some(u) => u.position_for(params.is_server).is_none(),
        None => false,
    };
    if !own {
        return Ok(());
    }
    let n = players.len();
    let mut i: usize = 0;
    while i < n
        invariant
            n == players@.len(),
            i <= n,
            forall|j: int| 0 <= j < i ==> #[trigger] players@[j].is_server == params.is_server,
            *update matches Some(u) && position_taken(u, params.is_server) is None,
        decreases n - i,
    {
        if players[i].is_server != params.is_server {
            assert(players@[i as int].is_server != params.is_server);
            return Err(MessageFault::OwnUpdate);
        }
        i = i + 1;
    }
    Ok(())
}

impl NetParams {
    /// The position that a due update gives `player`: the other side's player
    /// takes the position the update carries; this side's players are not
    /// corrected. The update must not be this peer's own when the player
    /// belongs to the other side.
    pub fn correction_for<'a, P>(&self, update: &'a AnyUpdate<P>, player: &Player) -> (r: Option<&'a P>)
        requires
            player.is_server != self.is_server ==> position_taken(*update, self.is_server) is Some,
        ensures
            r is Some <==> player.is_server != self.is_server,
            r matches Some(p) ==> *p == position_taken(*update, self.is_server)->0,
    {
        if self.is_remote(player) {
            update.position_for(self.is_server)
        } else {
            None
        }
    }
}

/// The receiving side: the transport's reader, once there is one, and the
/// inputs and updates waiting for their frame.
pub struct NetReceive<R, P> {
    reader: Option<R>,
    input_buffer: HashMap<u64, OwnedInput>,
    update_buffer: HashMap<u64, AnyUpdate<P>>,
}

impl<R, P> View for NetReceive<R, P> {
    type V = Buffers<P>;

    closed spec fn view(&self) -> Buffers<P> {
        Buffers { inputs: self.input_buffer@, updates: self.update_buffer@ }
    }
}

impl<R, P> NetReceive<R, P> {
    /// The transport's reader, once one is registered.
    pub closed spec fn current_reader(&self) -> Option<R> {
        self.reader
    }

    /// A receiving side with no reader and nothing buffered.
    pub fn new() -> (r: Self)
        ensures
            r.current_reader() is None,
            r@.inputs == Map::<u64, OwnedInput>::empty(),
            r@.updates == Map::<u64, AnyUpdate<P>>::empty(),
    {
        NetReceive { reader: None, input_buffer: HashMap::new(), update_buffer: HashMap::new() }
    }

    /// Whether the transport still needs a reader registered.
    pub fn needs_reader(&self) -> (b: bool)
        ensures
            b == self.current_reader() is None,
    {
        self.reader.is_none()
    }

    /// The reader, to read the transport's messages with.
    pub fn reader_mut(&mut self) -> (r: &mut R)
        requires
            old(self).current_reader() is Some,
        ensures
            *r == old(self).current_reader()->0,
            final(self).current_reader() == Some(*final(r)),
            final(self)@ == old(self)@,
    {
        self.reader.as_mut().unwrap()
    }

    /// Handles a connection seen at frame `now`: on the first one, registers
    /// a reader with `register` and counts frames from `now`; afterwards the
    /// reader and the frame count stay as they are.
    pub fn connect<F: FnOnce() -> R>(&mut self, params: &mut NetParams, now: u64, register: F)
        requires
            old(self).current_reader() is None ==> call_requires(register, ()),
        ensures
            old(self).current_reader() is Some ==> final(self).current_reader() == old(
                self,
            ).current_reader(),
            old(self).current_reader() is None ==> exists|r: R|
                call_ensures(register, (), r) && final(self).current_reader() == Some(r),
            final(self).current_reader() is Some,
            *final(params) == connected_params(old(self).current_reader() is Some, *old(params), now),
            final(self)@ == old(self)@,
    {
        if self.reader.is_none() {
            let reader = register();
            self.reader = Some(reader);
            params.first_frame = now;
        }
    }

    /// Handles one message: a reliable input is buffered under its frame for
    /// the side that sent it; an unreliable message replaces `recent` when it
    /// is strictly newer.
    pub fn on_message(&mut self, msg: NetMessage<P>, recent: &mut Option<CustomNetEvent<P>>)
        requires
            acceptable(msg),
        ensures
            final(self)@ == after_message(old(self)@, msg),
            *final(recent) == keep_newer(*old(recent), msg),
            final(self).current_reader() == old(self).current_reader(),
    {
        match msg {
            NetMessage::Unreliable(ev) => {
                let newer = match recent {
                    None => true,
                    Some(r) => ev.frame > r.frame,
                };
                if newer {
                    *recent = Some(ev);
                }
            },
            NetMessage::Reliable(ev) => match ev.event {
                AnyEvent::Input(e) => {
                    let owned = OwnedInput { is_server: ev.from_server, input: e };
                    self.input_buffer.insert(ev.frame, owned);
                },
                AnyEvent::Update(_) => {},
            },
            NetMessage::Other => {},
        }
    }

    /// Buffers the newest update of a frame under its frame.
    pub fn buffer_recent(&mut self, recent: Option<CustomNetEvent<P>>)
        requires
            recent_acceptable(recent),
        ensures
            final(self)@ == after_recent(old(self)@, recent),
            final(self).current_reader() == old(self).current_reader(),
    {
        if let Some(ev) = recent {
            match ev.event {
                AnyEvent::Update(u) => {
                    self.update_buffer.insert(ev.frame, u);
                },
                AnyEvent::Input(_) => {},
            }
        }
    }

    /// Handles a whole frame's messages, read from every connection in order:
    /// inputs are buffered, the newest update is buffered, and the entries
    /// due at frame `now` are handed out.
    pub fn receive_frame(&mut self, params: &NetParams, now: u64, msgs: Vec<NetMessage<P>>) -> (d:
        DueFrame<P>)
        requires
            batch_acceptable(msgs@),
            params.first_frame <= now,
        ensures
            d == frame_entries(old(self)@, msgs@, (now - params.first_frame) as u64),
            final(self)@ == after_frame(old(self)@, msgs@, (now - params.first_frame) as u64),
            final(self).current_reader() == old(self).current_reader(),
    {
        let ghost b0 = self@;
        let ghost all = msgs@;
        let mut recent: Option<CustomNetEvent<P>> = None;
        let mut msgs = msgs;
        let mut rest: Vec<NetMessage<P>> = Vec::new();
        // Handle the messages front to back: reverse them onto `rest` first.
        while msgs.len() > 0
            invariant
                rest@ + msgs@.reverse() == all.reverse(),
            decreases msgs.len(),
        {
            let m = msgs.pop().unwrap();
            proof {
                assert(msgs@.push(m).reverse() == seq![m] + msgs@.reverse());
            }
            rest.push(m);
            assert(rest@ + msgs@.reverse() =~= all.reverse());
        }
        assert(rest@ =~= all.reverse());
        let n = rest.len();
        while rest.len() > 0
            invariant
                n == all.len(),
                rest@.len() <= n,
                rest@ =~= all.subrange(n - rest@.len(), n as int).reverse(),
                self@ == after_messages(b0, all.take(n - rest@.len())),
                recent == newest_of(None, all.take(n - rest@.len())),
                self.current_reader() == old(self).current_reader(),
                forall|i: int| 0 <= i < all.len() ==> acceptable(#[trigger] all[i]),
            decreases rest.len(),
        {
            let ghost k = n - rest@.len();
            let m = rest.pop().unwrap();
            proof {
                assert(m == all[k]);
                assert(all.take(k + 1).drop_last() =~= all.take(k));
                assert(all.take(k + 1).last() == all[k]);
            }
            self.on_message(m, &mut recent);
        }
        assert(all.take(n as int) =~= all);
        self.buffer_recent(recent);
        self.take_due(params, now)
    }

    /// Hands out, and removes, the input and the update of the frame that is
    /// due at frame `now`: the frame `INPUT_LAG` frames before the number of
    /// frames since the first connection.
    pub fn take_due(&mut self, params: &NetParams, now: u64) -> (d: DueFrame<P>)
        requires
            params.first_frame <= now,
        ensures
            d == due_entries(old(self)@, (now - params.first_frame) as u64),
            final(self)@ == after_take(old(self)@, (now - params.first_frame) as u64),
            final(self).current_reader() == old(self).current_reader(),
    {
        let frame = now - params.first_frame;
        if frame > INPUT_LAG {
            let next_frame_number = frame - INPUT_LAG;
            let input = self.input_buffer.remove(&next_frame_number);
            let update = self.update_buffer.remove(&next_frame_number);
            DueFrame { input, update }
        } else {
            DueFrame { input: None, update: None }
        }
    }
}

impl<R, P> Default for NetReceive<R, P> {
    fn default() -> (r: Self)
        ensures
            r.current_reader() is None,
            r@.inputs == Map::<u64, OwnedInput>::empty(),
            r@.updates == Map::<u64, AnyUpdate<P>>::empty(),
    {
        NetReceive::new()
    }
}

} // verus!
