use vstd::prelude::*;
use std::collections::HashMap;
use crate::jwt::jwt_data::JWTPlayerData;
use crate::protocol::actions::PlayerAction;
use crate::protocol::game::{GameState, GameStateUpdate};
use crate::protocol::registration::RegistrationUpdateEnum;
use crate::PlayerId;

verus! {

/// The engine has failed for good: every session is to close.
#[derive(Debug, Clone, Copy)]
pub struct GameEngineCrash;

/// News from the lobby, for every session.
#[derive(Debug)]
pub struct RegistrationUpdate(pub RegistrationUpdateEnum);

impl RegistrationUpdate {
    pub fn waiting_on_players(
        players: HashMap<PlayerId, JWTPlayerData>,
        min_players_needed: usize,
        max_players_allowed: usize,
    ) -> (update: Self)
        ensures
            update.0 == (RegistrationUpdateEnum::WaitingOnPlayers {
                players,
                min_players_needed,
                max_players_allowed,
            }),
    {
        RegistrationUpdate(
            RegistrationUpdateEnum::WaitingOnPlayers {
                players,
                min_players_needed,
                max_players_allowed,
            },
        )
    }

    pub fn game_starting_soon(
        players: HashMap<PlayerId, JWTPlayerData>,
        min_players_needed: usize,
        max_players_allowed: usize,
        seconds_left: u32,
    ) -> (update: Self)
        ensures
            update.0 == (RegistrationUpdateEnum::GameStartingSoon {
                players,
                min_players_needed,
                max_players_allowed,
                seconds_left,
            }),
    {
        RegistrationUpdate(
            RegistrationUpdateEnum::GameStartingSoon {
                players,
                min_players_needed,
                max_players_allowed,
                seconds_left,
            },
        )
    }

    pub fn game_starting(players: HashMap<PlayerId, JWTPlayerData>, player_order: Vec<PlayerId>) -> (update: Self)
        ensures
            update.0 == (RegistrationUpdateEnum::GameStarting { players, player_order }),
    {
        RegistrationUpdate(RegistrationUpdateEnum::GameStarting { players, player_order })
    }
}

/// The match is being set up: registration is closed.
#[derive(Debug)]
pub struct GameStarting(pub RegistrationUpdateEnum);

impl GameStarting {
    pub fn new(players: HashMap<PlayerId, JWTPlayerData>, player_order: Vec<PlayerId>) -> (starting: Self)
        ensures
            starting.0 == (RegistrationUpdateEnum::GameStarting { players, player_order }),
    {
        GameStarting(RegistrationUpdateEnum::GameStarting { players, player_order })
    }
}

/// The first state of a match.
#[derive(Debug)]
pub struct Init(pub GameStateUpdate);

impl Init {
    pub fn new(game_state: GameState, ticks_left: u32, seconds_per_tick: u32) -> (init: Self)
        ensures
            init.0 == (GameStateUpdate::Init { game_state, ticks_left, seconds_per_tick }),
    {
        Init(GameStateUpdate::Init { game_state, ticks_left, seconds_per_tick })
    }
}

/// The state of a match after one more tick.
#[derive(Debug)]
pub struct NextState(pub GameStateUpdate);

impl NextState {
    pub fn new(
        game_state: GameState,
        actions_taken: HashMap<PlayerId, PlayerAction>,
        ticks_left: u32,
        seconds_per_tick: u32,
    ) -> (next: Self)
        ensures
            next.0 == (GameStateUpdate::NextState {
                game_state,
                actions_taken,
                ticks_left,
                seconds_per_tick,
            }),
    {
        NextState(
            GameStateUpdate::NextState { game_state, actions_taken, ticks_left, seconds_per_tick },
        )
    }
}

/// A player was killed.
#[derive(Debug)]
pub struct PlayerKilled {
    player_id: PlayerId,
    data: GameStateUpdate,
}

impl PlayerKilled {
    /// Who was killed.
    pub closed spec fn id(&self) -> PlayerId {
        self.player_id
    }

    /// What every session is told.
    pub closed spec fn payload(&self) -> GameStateUpdate {
        self.data
    }

    pub fn new(player_id: PlayerId) -> (killed: Self)
        ensures
            killed.id() == player_id,
            killed.payload() == (GameStateUpdate::PlayerKilled { id: player_id }),
    {
        PlayerKilled { player_id, data: GameStateUpdate::PlayerKilled { id: player_id } }
    }

    pub fn get_player_id(&self) -> (id: PlayerId)
        ensures
            id == self.id(),
    {
        self.player_id
    }

    /// Hands out what every session is told.
    pub fn into_update(self) -> (update: GameStateUpdate)
        ensures
            update == self.payload(),
    {
        self.data
    }
}

/// The match is over.
#[derive(Debug)]
pub struct GameEnded(pub GameStateUpdate);

impl GameEnded {
    pub fn new(
        winners: Vec<PlayerId>,
        game_state: GameState,
        actions_taken: HashMap<PlayerId, PlayerAction>,
    ) -> (ended: Self)
        ensures
            ended.0 == (GameStateUpdate::GameEnded { winners, game_state, actions_taken }),
    {
        GameEnded(GameStateUpdate::GameEnded { winners, game_state, actions_taken })
    }
}

} // verus!
