//! The sending side: every frame a peer sends the keys it holds, reliably;
//! every `UPDATE_FREQ` frames it also sends its own player's position,
//! unreliably, to correct drift.

use vstd::prelude::*;
use crate::network::{
    AnyEvent, AnyUpdate, ClientUpdate, CustomNetEvent, InputEvent, NetMessage, NetParams,
    OwnedInput, Player, ServerUpdate,
};

verus! {

/// Frames after which the peers' simulations drift apart noticeably.
pub const DRIFT_FRAMES: u64 = 60;

/// The share, in percent, of the drift window after which an update is due,
/// leaving room for lost packets.
pub const PACKET_LOSS_PERCENT: u64 = 90;

/// Frames between two updates: 90 percent of the drift window.
pub const UPDATE_FREQ: u64 = DRIFT_FRAMES * PACKET_LOSS_PERCENT / 100;

/// Whether an update is sent at `frame`.
pub open spec fn sends_update(frame: u64) -> bool {
    frame % UPDATE_FREQ == 0
}

/// The message with which a peer sends the keys it holds at `frame`.
pub open spec fn input_message<P>(is_server: bool, frame: u64, input: InputEvent) -> NetMessage<P> {
    NetMessage::Reliable(
        CustomNetEvent { frame, from_server: is_server, event: AnyEvent::Input(input) },
    )
}

/// The update with which a peer reports the position of its own player.
pub open spec fn own_update<P>(is_server: bool, player_pos: P) -> AnyUpdate<P> {
    if is_server {
        AnyUpdate::Server(ServerUpdate { player_pos })
    } else {
        AnyUpdate::Client(ClientUpdate { player_pos })
    }
}

/// The message with which a peer reports the position of its own player.
pub open spec fn update_message<P>(is_server: bool, frame: u64, player_pos: P) -> NetMessage<P> {
    NetMessage::Unreliable(
        CustomNetEvent {
            frame,
            from_server: is_server,
            event: AnyEvent::Update(own_update(is_server, player_pos)),
        },
    )
}

/// Sends the local keys to the other peer and to the local simulation.
pub struct InputSystem;

impl InputSystem {
    /// The message for the other peer, and the input for the local
    /// simulation, made of the keys held at `frame`.
    pub fn messages<P>(params: &NetParams, frame: u64, input: InputEvent) -> (r: (
        NetMessage<P>,
        OwnedInput,
    ))
        ensures
            r.0 == input_message::<P>(params.is_server, frame, input),
            r.1 == (OwnedInput { is_server: params.is_server, input }),
    {
        let net_event = NetMessage::Reliable(
            CustomNetEvent { event: AnyEvent::Input(input), frame, from_server: params.is_server },
        );
        let owned = OwnedInput { is_server: params.is_server, input };
        (net_event, owned)
    }
}

/// Sends drift-correcting updates.
pub struct NetUpdate;

impl NetUpdate {
    /// Whether an update goes out at `frame`.
    pub fn is_update_frame(frame: u64) -> (b: bool)
        ensures
            b == sends_update(frame),
    {
        frame % UPDATE_FREQ == 0
    }

    /// Whether `player`'s position is reported: a peer reports its own player.
    pub fn reports(params: &NetParams, player: &Player) -> (b: bool)
        ensures
            b == (player.is_server == params.is_server),
    {
        params.is_local(player)
    }

    /// The update message reporting the local player at `player_pos`.
    pub fn message<P>(params: &NetParams, frame: u64, player_pos: P) -> (m: NetMessage<P>)
        ensures
            m == update_message(params.is_server, frame, player_pos),
    {
        let any_update = if params.is_server {
            AnyUpdate::Server(ServerUpdate { player_pos })
        } else {
            AnyUpdate::Client(ClientUpdate { player_pos })
        };
        NetMessage::Unreliable(
            CustomNetEvent { frame, from_server: params.is_server, event: AnyEvent::Update(any_update) },
        )
    }
}

} // verus!
