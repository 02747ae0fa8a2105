//! The screens of the game and the table of legal moves between them.

use vstd::prelude::*;

verus! {

/// The screen that is active: the menu, play, the pause screen or the
/// screen shown when a round is lost.
#[derive(Clone, Copy, Debug, PartialEq, Eq, Structural)]
pub enum GameState {
    Starting,
    Playing,
    Paused,
    GameOver,
}

/// The two entries of the menu.
#[derive(Clone, Copy, Debug, PartialEq, Eq, Structural)]
pub enum MenuOption {
    NewGame,
    Exit,
}

/// What a screen asks the driver for when it is done.
#[derive(Clone, Copy, Debug, PartialEq, Eq, Structural)]
pub enum GameTransition {
    Play,
    Pause,
    Lose,
    Exit,
}

/// Where a legal transition leads: to another screen, or out of the game.
#[derive(Clone, Copy, Debug, PartialEq, Eq, Structural)]
pub enum Flow {
    Enter(GameState),
    Quit,
}

/// A transition that the active screen has no move for. It names both.
#[derive(Clone, Copy, Debug, PartialEq, Eq, Structural)]
pub struct InvalidTransition {
    pub state: GameState,
    pub transition: GameTransition,
}

/// The table of moves. `Exit` leaves the game from every screen; quitting
/// from play or from the pause screen is asked for as `Lose`, which leads to
/// the screen of the lost round. `None` marks a move that is not in the
/// table.
pub open spec fn table(s: GameState, t: GameTransition) -> Option<Flow> {
    match (s, t) {
        (_, GameTransition::Exit) => Some(Flow::Quit),
        (GameState::Starting, GameTransition::Play) => Some(Flow::Enter(GameState::Playing)),
        (GameState::Playing, GameTransition::Pause) => Some(Flow::Enter(GameState::Paused)),
        (GameState::Playing, GameTransition::Lose) => Some(Flow::Enter(GameState::GameOver)),
        (GameState::Paused, GameTransition::Play) => Some(Flow::Enter(GameState::Playing)),
        (GameState::Paused, GameTransition::Lose) => Some(Flow::Enter(GameState::GameOver)),
        (GameState::GameOver, GameTransition::Play) => Some(Flow::Enter(GameState::Starting)),
        _ => None,
    }
}

/// Looks `t` up for the screen `s`: where it leads, or the pair itself when
/// the table has no such move.
pub fn next_flow(s: GameState, t: GameTransition) -> (r: Result<Flow, InvalidTransition>)
    ensures
        r == (match table(s, t) {
            Some(f) => Ok(f),
            None => Err(InvalidTransition { state: s, transition: t }),
        }),
{
    match (s, t) {
        (_, GameTransition::Exit) => Ok(Flow::Quit),
        (GameState::Starting, GameTransition::Play) => Ok(Flow::Enter(GameState::Playing)),
        (GameState::Playing, GameTransition::Pause) => Ok(Flow::Enter(GameState::Paused)),
        (GameState::Playing, GameTransition::Lose) => Ok(Flow::Enter(GameState::GameOver)),
        (GameState::Paused, GameTransition::Play) => Ok(Flow::Enter(GameState::Playing)),
        (GameState::Paused, GameTransition::Lose) => Ok(Flow::Enter(GameState::GameOver)),
        (GameState::GameOver, GameTransition::Play) => Ok(Flow::Enter(GameState::Starting)),
        _ => Err(InvalidTransition { state: s, transition: t }),
    }
}

} // verus!
