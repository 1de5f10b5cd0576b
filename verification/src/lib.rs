//! Game rules for a small board arcade: a pawn collects timed pickups on a
//! rectangular board while a score decides when the game is over.
//!
//! The engine that draws, polls input and loads assets lives outside this
//! crate. Everything here works on plain values: board cells, entity
//! references, load states and queued commands.

pub mod board;
pub mod pawn;
pub mod pickup;
pub mod states;
pub mod ui;

use vstd::prelude::*;

verus! {

/// Reference to an asset that the engine loads in the background.
#[derive(Clone, Copy, Debug, PartialEq, Eq, Structural)]
pub struct AssetRef {
    pub id: u64,
}

/// Process-wide game record: the four loadable assets and the counters.
#[derive(Clone, Copy, Debug, PartialEq, Eq, Structural)]
pub struct Game {
    pub player_handle: AssetRef,
    pub pickup_handle: AssetRef,
    pub tile_handle: AssetRef,
    pub world_handle: AssetRef,
    pub score: i32,
    pub cake_eaten: u32,
}

impl Game {
    /// A record for the given assets with both counters at zero.
    pub fn new(
        player_handle: AssetRef,
        pickup_handle: AssetRef,
        tile_handle: AssetRef,
        world_handle: AssetRef,
    ) -> (game: Game)
        ensures
            game == (Game {
                player_handle,
                pickup_handle,
                tile_handle,
                world_handle,
                score: 0,
                cake_eaten: 0,
            }),
    {
        Game { player_handle, pickup_handle, tile_handle, world_handle, score: 0, cake_eaten: 0 }
    }

    /// Puts both counters back to zero and keeps the asset handles.
    pub fn reset(&mut self)
        ensures
            *final(self) == (Game { score: 0, cake_eaten: 0, ..*old(self) }),
    {
        self.score = 0;
        self.cake_eaten = 0;
    }

    /// The three scene assets that must be loaded before play can start, in
    /// the order tile, player, pickup.
    pub fn scene_handles(&self) -> (handles: Vec<AssetRef>)
        ensures
            handles@ == seq![self.tile_handle, self.player_handle, self.pickup_handle],
    {
        let mut handles: Vec<AssetRef> = Vec::new();
        handles.push(self.tile_handle);
        handles.push(self.player_handle);
        handles.push(self.pickup_handle);
        handles
    }
}

} // verus!
