//! Participants: the occupants that a membership snapshot lists, and the
//! players that a game tracks.

use crate::clock::Timestamp;
use vstd::prelude::*;

verus! {

/// One entry of a membership snapshot: somebody who is in the voice channel
/// right now.
#[derive(Debug)]
pub struct Occupant {
    /// The participant's unique handle.
    pub identity: u64,
    /// The participant's label at the time of the snapshot.
    pub display_name: String,
}

/// What an [`Occupant`] stands for in contracts.
pub struct OccupantView {
    pub identity: u64,
    pub display_name: Seq<char>,
}

impl View for Occupant {
    type V = OccupantView;

    open spec fn view(&self) -> OccupantView {
        OccupantView { identity: self.identity, display_name: self.display_name@ }
    }
}

impl Occupant {
    /// An occupant with the given handle and label.
    pub fn new(identity: u64, display_name: String) -> (r: Occupant)
        ensures
            r@ == (OccupantView { identity, display_name: display_name@ }),
    {
        Occupant { identity, display_name }
    }
}

/// A participant of a game. The label is the one captured with the roster;
/// `eliminated_at` is empty while the player is alive.
#[derive(Debug)]
pub struct Player {
    /// The participant's unique handle.
    pub identity: u64,
    /// The participant's label, fixed when the roster was captured.
    pub display_name: String,
    /// When the player left the game, if they did.
    pub eliminated_at: Option<Timestamp>,
}

/// What a [`Player`] stands for in contracts.
pub struct PlayerView {
    pub identity: u64,
    pub display_name: Seq<char>,
    pub eliminated_at: Option<Timestamp>,
}

impl View for Player {
    type V = PlayerView;

    open spec fn view(&self) -> PlayerView {
        PlayerView {
            identity: self.identity,
            display_name: self.display_name@,
            eliminated_at: self.eliminated_at,
        }
    }
}

impl PlayerView {
    /// Whether the player is still in the game.
    pub open spec fn is_alive(self) -> bool {
        self.eliminated_at is None
    }

    /// The same player, out of the game since `at`.
    pub open spec fn eliminated(self, at: Timestamp) -> PlayerView {
        PlayerView { eliminated_at: Some(at), ..self }
    }
}

/// The views of a sequence of players, in order.
pub open spec fn views(players: Seq<Player>) -> Seq<PlayerView> {
    players.map_values(|p: Player| p@)
}

/// The views of a sequence of borrowed players, in order.
pub open spec fn views_of_refs(players: Seq<&Player>) -> Seq<PlayerView> {
    players.map_values(|p: &Player| p@)
}

/// The views of a membership snapshot, in order.
pub open spec fn occupant_views(snapshot: Seq<Occupant>) -> Seq<OccupantView> {
    snapshot.map_values(|o: Occupant| o@)
}

impl Player {
    /// A player who is alive.
    pub fn new(identity: u64, display_name: String) -> (r: Player)
        ensures
            r@ == (PlayerView { identity, display_name: display_name@, eliminated_at: None }),
    {
        Player { identity, display_name, eliminated_at: None }
    }

    /// Whether the player is still in the game.
    pub fn is_alive(&self) -> (r: bool)
        ensures
            r == self@.is_alive(),
    {
        self.eliminated_at.is_none()
    }
}

impl Clone for Player {
    fn clone(&self) -> (r: Player)
        ensures
            r@ == self@,
    {
        Player {
            identity: self.identity,
            display_name: self.display_name.clone(),
            eliminated_at: self.eliminated_at,
        }
    }
}

/// Two player records are equal when they refer to the same participant,
/// whatever their labels and elimination times.
impl PartialEq for Player {
    fn eq(&self, other: &Player) -> (r: bool) {
        self.identity == other.identity
    }
}

impl vstd::std_specs::cmp::PartialEqSpecImpl for Player {
    open spec fn obeys_eq_spec() -> bool {
        true
    }

    open spec fn eq_spec(&self, other: &Player) -> bool {
        self.identity == other.identity
    }
}

} // verus!
