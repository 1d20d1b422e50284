//! The game registry: the closed record of which game kinds have been
//! registered on the platform, validated at registration time. Holding the
//! record here keeps dispatch a closed match over known kinds rather than
//! open-ended loading of game code.

use vstd::prelude::*;
use crate::engine::{GameType, UniversalGameError};

verus! {

/// The most games one registry holds.
pub const MAX_GAMES: u32 = 100;

/// One registered game.
#[derive(Debug)]
pub struct GameDefinition {
    pub game_id: u32,
    pub game_type: GameType,
    pub name: Vec<u8>,
    pub creator: u64,
    pub created_at: i64,
    pub total_matches: u64,
    pub is_active: bool,
    pub game_token: Option<u64>,
}

impl GameDefinition {
    /// Whether the game may currently host matches.
    pub fn is_active(&self) -> (r: bool)
        ensures
            r == self.is_active,
    {
        self.is_active
    }
}

/// The registry of games available on the platform.
#[derive(Debug)]
pub struct GameRegistry {
    pub authority: u64,
    pub total_games: u32,
    pub active_games: Vec<GameDefinition>,
    pub paused: bool,
}

impl GameRegistry {
    /// The game count matches the record list and stays within the cap;
    /// games are numbered in registration order.
    pub open spec fn wf(self) -> bool {
        &&& self.total_games == self.active_games.len()
        &&& self.total_games <= MAX_GAMES
        &&& forall|i: int|
            0 <= i < self.active_games.len() ==> (#[trigger] self.active_games[i]).game_id == i
    }

    /// Whether registrations and matches are suspended.
    pub fn is_paused(&self) -> (r: bool)
        ensures
            r == self.paused,
    {
        self.paused
    }

    /// Suspends or resumes the platform.
    pub fn set_paused(&mut self, paused: bool)
        ensures
            *final(self) == (GameRegistry { paused, ..*old(self) }),
    {
        self.paused = paused;
    }
}

/// An empty registry owned by `authority`.
pub fn initialize_registry(authority: u64) -> (r: GameRegistry)
    ensures
        r.authority == authority,
        r.total_games == 0,
        r.active_games@ == Seq::<GameDefinition>::empty(),
        !r.paused,
        r.wf(),
{
    GameRegistry { authority, total_games: 0, active_games: Vec::new(), paused: false }
}

/// Registers a new game kind: the registry must have room, and the new game
/// takes the next id and starts active with no matches played.
pub fn register_game(
    registry: &mut GameRegistry,
    game_type: GameType,
    name: Vec<u8>,
    creator: u64,
    now: i64,
) -> (r: Result<u32, UniversalGameError>)
    requires
        old(registry).wf(),
    ensures
        final(registry).wf(),
        (r matches Ok(id)) <==> old(registry).total_games < MAX_GAMES,
        r matches Err(e) ==> *final(registry) == *old(registry) && e
            == UniversalGameError::RegistryFull,
        r matches Ok(id) ==> id == old(registry).total_games && final(registry).total_games == old(
            registry,
        ).total_games + 1 && final(registry).active_games@ == old(registry).active_games@.push(
            (GameDefinition {
                game_id: old(registry).total_games,
                game_type,
                name: final(registry).active_games@.last().name,
                creator,
                created_at: now,
                total_matches: 0,
                is_active: true,
                game_token: None,
            }),
        ) && final(registry).active_games@.last().name@ == name@ && final(registry).authority
            == old(registry).authority && final(registry).paused == old(registry).paused,
{
    if registry.total_games >= MAX_GAMES {
        return Err(UniversalGameError::RegistryFull);
    }
    let game_id = registry.total_games;
    let def = GameDefinition {
        game_id,
        game_type,
        name,
        creator,
        created_at: now,
        total_matches: 0,
        is_active: true,
        game_token: None,
    };
    registry.active_games.push(def);
    registry.total_games = registry.total_games + 1;
    Ok(game_id)
}

} // verus!
