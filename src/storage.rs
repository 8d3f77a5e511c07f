//! The player records that the game keeps, and the errors of the store.

use vstd::prelude::*;

verus! {

/// The port town of Bastow.
pub const BASTOW: i32 = 0;
/// The woodlands outside Bastow.
pub const BASTOW_WOODLANDS: i32 = 1;

/// The health, and the largest health, of a new player.
pub const STARTING_HEALTH: i32 = 10;

/// A player, as stored.
pub struct User {
    pub id: i32,
    pub name: String,
    pub max_health: i32,
    pub health: i32,
    pub location_id: i32,
}

/// Why the store could not answer.
pub enum Error {
    /// The database failed; the message is its own.
    Db(String),
    /// An insert returned no key.
    MissingPrimaryKeyRow,
    /// No player has the given fingerprint.
    NotFound,
}

impl User {
    /// A new player, stored under `id`: in Bastow, with full starting health.
    pub fn new_player(id: i32, name: String) -> (r: User)
        ensures
            r.id == id,
            r.name == name,
            r.max_health == STARTING_HEALTH,
            r.health == STARTING_HEALTH,
            r.location_id == BASTOW,
    {
        User { id, name, max_health: STARTING_HEALTH, health: STARTING_HEALTH, location_id: BASTOW }
    }

    /// The same player with another health.
    pub fn with_health(self, health: i32) -> (r: User)
        ensures
            r.health == health,
            r.id == self.id,
            r.name == self.name,
            r.max_health == self.max_health,
            r.location_id == self.location_id,
    {
        User { health, ..self }
    }

    /// The same player at another location.
    pub fn with_location_id(self, location_id: i32) -> (r: User)
        ensures
            r.location_id == location_id,
            r.id == self.id,
            r.name == self.name,
            r.max_health == self.max_health,
            r.health == self.health,
    {
        User { location_id, ..self }
    }
}

} // verus!
