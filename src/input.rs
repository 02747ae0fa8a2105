//! Routing of input events: what each screen does with a key press, a key
//! release, a tick of the timer or a request to close the window.

use vstd::prelude::*;
use crate::snake::{Direction, Snake, opposite, turned};
use crate::screen::{GameState, GameTransition, Flow, InvalidTransition, MenuOption};
use crate::game::{Game, Speed, TickOutcome};

verus! {

/// The keys the game tells apart; every other key is `Other`.
#[derive(Clone, Copy, Debug, PartialEq, Eq, Structural)]
pub enum Key {
    Up,
    Down,
    Left,
    Right,
    H,
    J,
    K,
    L,
    Q,
    G,
    Space,
    Return,
    Escape,
    Other,
}

/// An input event: a key pressed or released, a request to close the
/// window, a tick of the timer, or anything else.
#[derive(Clone, Copy, Debug, PartialEq, Eq, Structural)]
pub enum Event {
    KeyDown(Key),
    KeyUp(Key),
    Quit,
    Tick,
    Other,
}

/// What a screen makes of an event: nothing to show, a new frame to draw,
/// or a transition for the driver.
#[derive(Clone, Copy, Debug, PartialEq, Eq, Structural)]
pub enum Response {
    Ignore,
    Redraw,
    Leave(GameTransition),
}

/// What the session loop does after an event: wait for the next one, draw
/// the active screen, or end the session.
#[derive(Clone, Copy, Debug, PartialEq, Eq, Structural)]
pub enum Step {
    Wait,
    Redraw,
    Exit,
}

/// The other entry of the menu.
pub open spec fn other_option(o: MenuOption) -> MenuOption {
    match o {
        MenuOption::NewGame => MenuOption::Exit,
        MenuOption::Exit => MenuOption::NewGame,
    }
}

/// The menu screen: escape or closing the window leaves the game, the up and
/// down keys (also `k` and `j`) move the highlight, return chooses the
/// highlighted entry.
pub open spec fn menu_spec(o: MenuOption, ev: Event) -> (MenuOption, Response) {
    match ev {
        Event::Quit | Event::KeyDown(Key::Escape) => (o, Response::Leave(GameTransition::Exit)),
        Event::KeyDown(Key::Up) | Event::KeyDown(Key::Down) | Event::KeyDown(Key::J)
        | Event::KeyDown(Key::K) => (other_option(o), Response::Redraw),
        Event::KeyDown(Key::Return) => (
            o,
            Response::Leave(
                if o == MenuOption::Exit {
                    GameTransition::Exit
                } else {
                    GameTransition::Play
                },
            ),
        ),
        _ => (o, Response::Ignore),
    }
}

/// The pause screen: escape, `q` or closing the window loses the round, the
/// space bar resumes it.
pub open spec fn paused_spec(ev: Event) -> Response {
    match ev {
        Event::Quit | Event::KeyDown(Key::Escape) | Event::KeyDown(Key::Q) => Response::Leave(
            GameTransition::Lose,
        ),
        Event::KeyDown(Key::Space) => Response::Leave(GameTransition::Play),
        _ => Response::Ignore,
    }
}

/// The screen of a lost round: escape or closing the window leaves the game,
/// any other key goes back to the menu.
pub open spec fn game_over_spec(ev: Event) -> Response {
    match ev {
        Event::Quit | Event::KeyDown(Key::Escape) => Response::Leave(GameTransition::Exit),
        Event::KeyDown(_) => Response::Leave(GameTransition::Play),
        _ => Response::Ignore,
    }
}

/// The heading that a key asks for in play: the arrows, or `h`, `l`, `k`
/// and `j`.
pub open spec fn key_direction(k: Key) -> Option<Direction> {
    match k {
        Key::Left | Key::H => Some(Direction::Left),
        Key::Right | Key::L => Some(Direction::Right),
        Key::Up | Key::K => Some(Direction::Up),
        Key::Down | Key::J => Some(Direction::Down),
        _ => None,
    }
}

/// Handles an event on the menu screen, where `option` is highlighted.
pub fn starting_event(option: &mut MenuOption, ev: Event) -> (r: Response)
    ensures
        (*final(option), r) == menu_spec(*old(option), ev),
{
    match ev {
        Event::Quit | Event::KeyDown(Key::Escape) => Response::Leave(GameTransition::Exit),
        Event::KeyDown(Key::Up) | Event::KeyDown(Key::Down) | Event::KeyDown(Key::J)
        | Event::KeyDown(Key::K) => {
            *option = match *option {
                MenuOption::NewGame => MenuOption::Exit,
                MenuOption::Exit => MenuOption::NewGame,
            };
            Response::Redraw
        },
        Event::KeyDown(Key::Return) => {
            if *option == MenuOption::Exit {
                Response::Leave(GameTransition::Exit)
            } else {
                Response::Leave(GameTransition::Play)
            }
        },
        _ => Response::Ignore,
    }
}

/// Handles an event on the pause screen.
pub fn paused_event(ev: Event) -> (r: Response)
    ensures
        r == paused_spec(ev),
{
    match ev {
        Event::Quit | Event::KeyDown(Key::Escape) | Event::KeyDown(Key::Q) => Response::Leave(
            GameTransition::Lose,
        ),
        Event::KeyDown(Key::Space) => Response::Leave(GameTransition::Play),
        _ => Response::Ignore,
    }
}

/// Handles an event on the screen of a lost round.
pub fn game_over_event(ev: Event) -> (r: Response)
    ensures
        r == game_over_spec(ev),
{
    match ev {
        Event::Quit | Event::KeyDown(Key::Escape) => Response::Leave(GameTransition::Exit),
        Event::KeyDown(_) => Response::Leave(GameTransition::Play),
        _ => Response::Ignore,
    }
}

/// The two menu entries as they are shown, the highlighted one marked: the
/// "New Game" line first, then the "Exit" line.
pub fn menu_labels(option: MenuOption) -> (r: (&'static str, &'static str))
    ensures
        r.0@ == (if option == MenuOption::NewGame {
            "> New Game"@
        } else {
            "  New Game"@
        }),
        r.1@ == (if option == MenuOption::Exit {
            "> Exit"@
        } else {
            "  Exit"@
        }),
{
    match option {
        MenuOption::NewGame => ("> New Game", "  Exit"),
        MenuOption::Exit => ("  New Game", "> Exit"),
    }
}

impl Game {
    /// `after` and `r` are what an event `ev` in play makes of `self`. A tick
    /// moves the snake and loses the round on a collision; escape, `q` or
    /// closing the window loses it; the space bar pauses; a heading key turns
    /// the snake unless it would go back; return held down speeds the snake
    /// up and released slows it down; `g` shows or hides the grid lines.
    pub open spec fn playing_spec(&self, after: &Game, ev: Event, r: Response) -> bool {
        match ev {
            Event::Tick => {
                &&& self.ticked(after, after.food)
                &&& r == (if self.outcome(after) == TickOutcome::Moved {
                    Response::Redraw
                } else {
                    Response::Leave(GameTransition::Lose)
                })
            },
            Event::Quit | Event::KeyDown(Key::Escape) | Event::KeyDown(Key::Q) => {
                &&& *after == *self
                &&& r == Response::Leave(GameTransition::Lose)
            },
            Event::KeyDown(Key::Space) => {
                &&& *after == *self
                &&& r == Response::Leave(GameTransition::Pause)
            },
            Event::KeyDown(Key::Return) => {
                &&& *after == (Game { speed: Speed::Fast, ..*self })
                &&& r == Response::Ignore
            },
            Event::KeyUp(Key::Return) => {
                &&& *after == (Game { speed: Speed::Normal, ..*self })
                &&& r == Response::Ignore
            },
            Event::KeyDown(Key::G) => {
                &&& *after == (Game { show_grid: !self.show_grid, ..*self })
                &&& r == Response::Ignore
            },
            Event::KeyDown(k) => {
                &&& *after == (match key_direction(k) {
                    Some(d) => Game {
                        snake: Snake {
                            direction: turned(self.snake.direction, self.snake.last_move, d),
                            last_move: self.snake.last_move,
                            body: self.snake.body,
                        },
                        ..*self
                    },
                    None => *self,
                })
                &&& r == Response::Ignore
            },
            _ => {
                &&& *after == *self
                &&& r == Response::Ignore
            },
        }
    }

    /// Handles an event on the play screen.
    pub fn playing_event(&mut self, ev: Event) -> (r: Response)
        requires
            old(self).wf(),
            old(self).score < u32::MAX,
        ensures
            final(self).wf(),
            old(self).playing_spec(final(self), ev, r),
    {
        match ev {
            Event::Tick => {
                let outcome = self.advance();
                if outcome == TickOutcome::Moved {
                    Response::Redraw
                } else {
                    Response::Leave(GameTransition::Lose)
                }
            },
            Event::Quit | Event::KeyDown(Key::Escape) | Event::KeyDown(Key::Q) => Response::Leave(
                GameTransition::Lose,
            ),
            Event::KeyDown(Key::Space) => Response::Leave(GameTransition::Pause),
            Event::KeyDown(Key::Return) => {
                self.speed = Speed::Fast;
                Response::Ignore
            },
            Event::KeyUp(Key::Return) => {
                self.speed = Speed::Normal;
                Response::Ignore
            },
            Event::KeyDown(Key::G) => {
                self.show_grid = !self.show_grid;
                Response::Ignore
            },
            Event::KeyDown(Key::Left) | Event::KeyDown(Key::H) => {
                self.snake.turn(Direction::Left);
                Response::Ignore
            },
            Event::KeyDown(Key::Right) | Event::KeyDown(Key::L) => {
                self.snake.turn(Direction::Right);
                Response::Ignore
            },
            Event::KeyDown(Key::Up) | Event::KeyDown(Key::K) => {
                self.snake.turn(Direction::Up);
                Response::Ignore
            },
            Event::KeyDown(Key::Down) | Event::KeyDown(Key::J) => {
                self.snake.turn(Direction::Down);
                Response::Ignore
            },
            _ => Response::Ignore,
        }
    }

    /// `mid` and `r` are what the active screen makes of `ev` in `self`.
    pub open spec fn screen_spec(&self, mid: &Game, ev: Event, r: Response) -> bool {
        match self.state {
            GameState::Starting => {
                &&& *mid == (Game { menu: menu_spec(self.menu, ev).0, ..*self })
                &&& r == menu_spec(self.menu, ev).1
            },
            GameState::Playing => self.playing_spec(mid, ev, r),
            GameState::Paused => *mid == *self && r == paused_spec(ev),
            GameState::GameOver => *mid == *self && r == game_over_spec(ev),
        }
    }

    /// Handles one event: the active screen answers it, and a transition it
    /// asks for is carried out. Draw again where the answer or the screen
    /// changed; stop where the game is left. A transition that the table has
    /// not is handed back.
    pub fn handle_event(&mut self, ev: Event) -> (r: Result<Step, InvalidTransition>)
        requires
            old(self).wf(),
            old(self).score < u32::MAX,
        ensures
            final(self).wf(),
            exists|mid: Game, resp: Response|
                {
                    &&& #[trigger] old(self).screen_spec(&mid, ev, resp)
                    &&& mid.wf()
                    &&& match resp {
                        Response::Ignore => *final(self) == mid && r == Ok::<Step, InvalidTransition>(Step::Wait),
                        Response::Redraw => *final(self) == mid && r == Ok::<Step, InvalidTransition>(Step::Redraw),
                        Response::Leave(t) => exists|a: Result<Flow, InvalidTransition>|
                            {
                                &&& #[trigger] mid.applied(final(self), t, a)
                                &&& r == match a {
                                    Ok(Flow::Enter(_)) => Ok(Step::Redraw),
                                    Ok(Flow::Quit) => Ok(Step::Exit),
                                    Err(e) => Err(e),
                                }
                            },
                    }
                },
    {
        let resp = match self.state {
            GameState::Starting => starting_event(&mut self.menu, ev),
            GameState::Playing => self.playing_event(ev),
            GameState::Paused => paused_event(ev),
            GameState::GameOver => game_over_event(ev),
        };
        let ghost mid = *self;
        assert(old(self).screen_spec(&mid, ev, resp));
        match resp {
            Response::Ignore => Ok(Step::Wait),
            Response::Redraw => Ok(Step::Redraw),
            Response::Leave(t) => {
                let a = self.apply(t);
                match a {
                    Ok(Flow::Enter(_)) => Ok(Step::Redraw),
                    Ok(Flow::Quit) => Ok(Step::Exit),
                    Err(e) => Err(e),
                }
            },
        }
    }
}

/// In play, a key that asks for the heading opposite to the snake's heading,
/// or opposite to the direction of its last move, never changes the heading.
pub proof fn lemma_reversal_ignored(before: &Game, after: &Game, k: Key, r: Response)
    requires
        key_direction(k) == Some(opposite(before.snake.direction)) || key_direction(k) == Some(
            opposite(before.snake.last_move),
        ),
        before.playing_spec(after, Event::KeyDown(k), r),
    ensures
        after.snake.direction == before.snake.direction,
{
}

} // verus!
