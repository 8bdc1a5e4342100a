//! The messages that the two peers of a game exchange.
//!
//! Every message is a `CustomNetEvent`: the frame it belongs to, whether the
//! server sent it, and its payload. Inputs ("which keys are held down") travel
//! reliably; updates (a peer's own player position) travel unreliably and only
//! correct drift. Positions are carried as an opaque payload `P`: the logic
//! never looks inside one.

use vstd::prelude::*;

verus! {

/// The keys a player holds down during one frame.
#[derive(PartialEq, Eq, Structural, Clone, Copy, Debug)]
pub struct InputEvent {
    pub left: bool,
    pub right: bool,
    pub up: bool,
    pub down: bool,
}

/// An input together with the side (server or client) whose player it moves.
#[derive(PartialEq, Eq, Structural, Clone, Copy, Debug)]
pub struct OwnedInput {
    pub is_server: bool,
    pub input: InputEvent,
}

/// A correction sent by the client: the position of the client's player.
#[derive(PartialEq, Eq, Clone, Copy, Debug)]
pub struct ClientUpdate<P> {
    pub player_pos: P,
}

/// A correction sent by the server: the position of the server's player.
#[derive(PartialEq, Eq, Clone, Copy, Debug)]
pub struct ServerUpdate<P> {
    pub player_pos: P,
}

/// An update, by the side that sent it.
#[derive(PartialEq, Eq, Clone, Copy, Debug)]
pub enum AnyUpdate<P> {
    Client(ClientUpdate<P>),
    Server(ServerUpdate<P>),
}

/// The variable part of a message.
#[derive(PartialEq, Eq, Clone, Copy, Debug)]
pub enum AnyEvent<P> {
    Input(InputEvent),
    Update(AnyUpdate<P>),
}

/// A message between the peers, with the fields common to all of them.
#[derive(PartialEq, Eq, Clone, Copy, Debug)]
pub struct CustomNetEvent<P> {
    pub frame: u64,
    pub from_server: bool,
    pub event: AnyEvent<P>,
}

/// A message as the transport hands it over: sent reliably, sent
/// unreliably, or any other transport event (connect, disconnect, ...).
#[derive(PartialEq, Eq, Clone, Copy, Debug)]
pub enum NetMessage<P> {
    Reliable(CustomNetEvent<P>),
    Unreliable(CustomNetEvent<P>),
    Other,
}

/// Which side this peer plays, and the frame at which it first saw a
/// connection (frames are counted from there).
#[derive(PartialEq, Eq, Structural, Clone, Copy, Debug)]
pub struct NetParams {
    pub is_server: bool,
    pub first_frame: u64,
}

/// A player entity: the side that controls it.
#[derive(PartialEq, Eq, Structural, Clone, Copy, Debug)]
pub struct Player {
    pub is_server: bool,
}

impl Player {
    pub fn new(is_server: bool) -> (p: Player)
        ensures
            p.is_server == is_server,
    {
        Player { is_server }
    }
}

impl NetParams {
    /// A player is local when this peer controls it.
    pub fn is_local(&self, player: &Player) -> (b: bool)
        ensures
            b == (player.is_server == self.is_server),
    {
        player.is_server == self.is_server
    }

    /// A player is remote when the other peer controls it.
    pub fn is_remote(&self, player: &Player) -> (b: bool)
        ensures
            b == (player.is_server != self.is_server),
    {
        player.is_server != self.is_server
    }
}

/// The integer direction that an input asks for: `x` is `+1` for right and
/// `-1` for left, `y` is `+1` for up and `-1` for down; opposite keys cancel.
pub open spec fn axis(positive: bool, negative: bool) -> int {
    (if positive { 1int } else { 0int }) - (if negative { 1int } else { 0int })
}

impl InputEvent {
    /// The direction of movement this input asks for, one step per axis.
    pub fn direction(&self) -> (d: (i8, i8))
        ensures
            d.0 == axis(self.right, self.left),
            d.1 == axis(self.up, self.down),
    {
        let mut x: i8 = 0;
        let mut y: i8 = 0;
        if self.right {
            x = x + 1;
        }
        if self.left {
            x = x - 1;
        }
        if self.up {
            y = y + 1;
        }
        if self.down {
            y = y - 1;
        }
        (x, y)
    }

    /// Whether the input moves the player at all.
    pub fn is_moving(&self) -> (b: bool)
        ensures
            b == (axis(self.right, self.left) != 0 || axis(self.up, self.down) != 0),
    {
        let (x, y) = self.direction();
        x != 0 || y != 0
    }
}

impl OwnedInput {
    /// Whether this input moves the given player: inputs move the player of
    /// the side they belong to.
    pub fn moves(&self, player: &Player) -> (b: bool)
        ensures
            b == (self.is_server == player.is_server),
    {
        self.is_server == player.is_server
    }
}

/// The position that a peer playing `local_is_server` takes from `update`
/// for the other side's player: only an update from the other side has one
/// (a peer never applies its own update).
pub open spec fn position_taken<P>(update: AnyUpdate<P>, local_is_server: bool) -> Option<P> {
    match update {
        AnyUpdate::Server(e) => if !local_is_server { Some(e.player_pos) } else { None },
        AnyUpdate::Client(e) => if local_is_server { Some(e.player_pos) } else { None },
    }
}

impl<P> AnyUpdate<P> {
    /// The position this update gives the other side's player, on the peer
    /// playing `local_is_server`.
    pub fn position_for(&self, local_is_server: bool) -> (r: Option<&P>)
        ensures
            r is Some <==> position_taken(*self, local_is_server) is Some,
            r matches Some(p) ==> *p == position_taken(*self, local_is_server)->0,
    {
        match self {
            AnyUpdate::Server(e) => if !local_is_server { Some(&e.player_pos) } else { None },
            AnyUpdate::Client(e) => if local_is_server { Some(&e.player_pos) } else { None },
        }
    }
}

} // verus!
