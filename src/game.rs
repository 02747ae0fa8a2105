//! A game session: the area, the snake, the food, the score, the speed and
//! the active screen, with the tick that moves the snake and the driver that
//! moves between screens.

use vstd::prelude::*;
use crate::grid::{Coordinate, GameArea, Rect, create_grid, WIDTH, HEIGHT, SPACING, CELL_SPACE};
use crate::snake::{Direction, Snake, opposite, step_from, initial_body, create_snake, next_cell};
use crate::food::respawn;
use crate::screen::{GameState, GameTransition, Flow, InvalidTransition, MenuOption, table, next_flow};

verus! {

/// Milliseconds between two ticks at normal speed.
pub const NORMAL_SPEED_MS: u32 = 200;
/// Milliseconds between two ticks while the speed key is held.
pub const FAST_SPEED_MS: u32 = 50;

/// How fast the snake goes.
#[derive(Clone, Copy, Debug, PartialEq, Eq, Structural)]
pub enum Speed {
    Normal,
    Fast,
}

impl Speed {
    /// Milliseconds between two ticks at this speed.
    pub fn interval_ms(&self) -> (r: u32)
        ensures
            r == (match *self {
                Speed::Normal => NORMAL_SPEED_MS,
                Speed::Fast => FAST_SPEED_MS,
            }),
    {
        match *self {
            Speed::Normal => NORMAL_SPEED_MS,
            Speed::Fast => FAST_SPEED_MS,
        }
    }
}

/// How a tick ended: the snake moved, or it hit a wall or itself.
#[derive(Clone, Copy, Debug, PartialEq, Eq, Structural)]
pub enum TickOutcome {
    Moved,
    WallCollision,
    SelfCollision,
}

/// The body after the head moves to `head`: the new head in front of the old
/// body, which loses its tail unless the snake `eats`.
pub open spec fn moved_body(body: Seq<Coordinate>, head: Coordinate, eats: bool) -> Seq<
    Coordinate,
> {
    seq![head] + (if eats {
        body
    } else {
        body.drop_last()
    })
}

/// Whether the head lies on another cell of the body.
pub open spec fn bites_itself(body: Seq<Coordinate>) -> bool {
    exists|i: int| 1 <= i < body.len() && #[trigger] body[i] == body[0]
}

/// Whether the head lies on another cell of `body`.
pub fn head_on_body(body: &Vec<Coordinate>) -> (r: bool)
    requires
        body@.len() >= 1,
    ensures
        r == bites_itself(body@),
{
    let head = body[0];
    let n = body.len();
    let mut i: usize = 1;
    while i < n
        invariant
            body@.len() == n,
            1 <= i <= n,
            head == body@[0],
            forall|j: int| 1 <= j < i ==> body@[j] != head,
        decreases n - i,
    {
        if body[i] == head {
            return true;
        }
        i = i + 1;
    }
    false
}

/// A game session.
pub struct Game {
    pub display: GameArea,
    pub speed: Speed,
    pub score: u32,
    pub snake: Snake,
    pub food: Coordinate,
    pub state: GameState,
    pub menu: MenuOption,
    pub show_grid: bool,
}

impl Game {
    /// A well-formed area wide enough for a new snake, a snake with a head
    /// whose heading does not point back against its last move, every cell
    /// of the snake and the food inside the area.
    pub open spec fn wf(&self) -> bool {
        &&& self.display.wf()
        &&& self.display.hcells >= 8
        &&& self.snake.direction != opposite(self.snake.last_move)
        &&& self.snake.body@.len() >= 1
        &&& forall|i: int|
            0 <= i < self.snake.body@.len() ==> self.display.contains(
                #[trigger] self.snake.body@[i],
            )
        &&& self.display.contains(self.food)
    }

    /// The cell of the snake's head.
    pub open spec fn head(&self) -> Coordinate {
        self.snake.body@[0]
    }

    /// The cell the head moves to on the next tick, or `None` for a wall.
    pub open spec fn next_head(&self) -> Option<Coordinate> {
        step_from(self.head(), self.snake.direction, self.display.hcells, self.display.vcells)
    }

    /// Whether the next tick moves the head onto the food.
    pub open spec fn eats(&self) -> bool {
        self.next_head() == Some(self.food)
    }

    /// What the tick that led from `self` to `after` reports: a wall where
    /// the head cannot move, else whether the moved head lies on the body.
    pub open spec fn outcome(&self, after: &Game) -> TickOutcome {
        if self.next_head() is None {
            TickOutcome::WallCollision
        } else if bites_itself(after.snake.body@) {
            TickOutcome::SelfCollision
        } else {
            TickOutcome::Moved
        }
    }

    /// `after` is `self` after one tick in which eaten food, if any, is
    /// replaced by `fresh`. At a wall nothing changes. Otherwise the head
    /// moves one cell, the tail stays only where the food is eaten, and the
    /// score counts the food.
    pub open spec fn ticked(&self, after: &Game, fresh: Coordinate) -> bool {
        match self.next_head() {
            None => *after == *self,
            Some(h) => {
                &&& after.display == self.display
                &&& after.speed == self.speed
                &&& after.state == self.state
                &&& after.menu == self.menu
                &&& after.show_grid == self.show_grid
                &&& after.snake.direction == self.snake.direction
                &&& after.snake.last_move == self.snake.direction
                &&& after.snake.body@ == moved_body(self.snake.body@, h, self.eats())
                &&& after.food == (if self.eats() {
                    fresh
                } else {
                    self.food
                })
                &&& after.score == self.score + (if self.eats() {
                    1int
                } else {
                    0int
                })
            },
        }
    }

    /// Moves the snake one tick. Food that is eaten is replaced by `fresh`.
    pub fn advance_with(&mut self, fresh: Coordinate) -> (r: TickOutcome)
        requires
            old(self).wf(),
            old(self).display.contains(fresh),
            old(self).score < u32::MAX,
        ensures
            final(self).wf(),
            old(self).ticked(final(self), fresh),
            r == old(self).outcome(final(self)),
    {
        let head = self.snake.body[0];
        let next = next_cell(head, self.snake.direction, &self.display);
        let new_head = match next {
            None => {
                return TickOutcome::WallCollision;
            },
            Some(c) => c,
        };
        let ghost body0 = self.snake.body@;
        if new_head == self.food {
            self.food = fresh;
            self.score = self.score + 1;
        } else {
            self.snake.body.pop();
        }
        self.snake.body.insert(0, new_head);
        self.snake.last_move = self.snake.direction;
        assert(self.snake.body@ =~= moved_body(body0, new_head, old(self).eats()));
        if head_on_body(&self.snake.body) {
            TickOutcome::SelfCollision
        } else {
            TickOutcome::Moved
        }
    }

    /// Moves the snake one tick. Food that is eaten is replaced by a cell
    /// drawn at random over the area.
    pub fn advance(&mut self) -> (r: TickOutcome)
        requires
            old(self).wf(),
            old(self).score < u32::MAX,
        ensures
            final(self).wf(),
            old(self).ticked(final(self), final(self).food),
            r == old(self).outcome(final(self)),
    {
        let fresh = respawn(&self.display);
        self.advance_with(fresh)
    }

    /// A session on the menu screen, with a new snake and food at random.
    pub fn new() -> (r: Game)
        ensures
            r.wf(),
            r.display.hcells == 38,
            r.display.vcells == 28,
            r.state == GameState::Starting,
            r.menu == MenuOption::NewGame,
            r.speed == Speed::Normal,
            r.score == 0,
            r.show_grid == false,
            r.display.spacing == SPACING,
            r.display.cell == CELL_SPACE,
            r.display.game_area == (Rect {
                x: SPACING as i32,
                y: SPACING as i32,
                w: (WIDTH - 2 * SPACING) as u32,
                h: (HEIGHT - 2 * SPACING) as u32,
            }),
            r.snake.direction == Direction::Right,
            r.snake.last_move == Direction::Right,
            r.snake.body@ == initial_body(38, 28),
    {
        let display = create_grid();
        let snake = create_snake(&display);
        let food = respawn(&display);
        Game {
            display,
            speed: Speed::Normal,
            score: 0,
            snake,
            food,
            state: GameState::Starting,
            menu: MenuOption::NewGame,
            show_grid: false,
        }
    }

    /// Starts a round: a new snake, food at random, a score of zero and the
    /// normal speed.
    pub fn new_round(&mut self)
        requires
            old(self).wf(),
        ensures
            final(self).wf(),
            final(self).display == old(self).display,
            final(self).state == old(self).state,
            final(self).menu == old(self).menu,
            final(self).show_grid == old(self).show_grid,
            final(self).speed == Speed::Normal,
            final(self).score == 0,
            final(self).snake.direction == Direction::Right,
            final(self).snake.last_move == Direction::Right,
            final(self).snake.body@ == initial_body(
                old(self).display.hcells,
                old(self).display.vcells,
            ),
    {
        self.snake = create_snake(&self.display);
        self.food = respawn(&self.display);
        self.score = 0;
        self.speed = Speed::Normal;
        assert forall|i: int| 0 <= i < self.snake.body@.len() implies self.display.contains(
            #[trigger] self.snake.body@[i],
        ) by {
            assert(self.snake.body@[i] == initial_body(self.display.hcells, self.display.vcells)[i]);
        }
    }

    /// Whether `t` from the active screen starts a round.
    pub open spec fn starts_round(&self, t: GameTransition) -> bool {
        self.state == GameState::Starting && t == GameTransition::Play
    }

    /// `after` and `r` are what the transition `t` makes of `self`: `r` is
    /// the table's answer, the active screen follows it, and the rest of the
    /// session is kept but where a new round starts.
    pub open spec fn applied(
        &self,
        after: &Game,
        t: GameTransition,
        r: Result<Flow, InvalidTransition>,
    ) -> bool {
        let moved = table(self.state, t);
        &&& r == (match moved {
            Some(f) => Ok(f),
            None => Err(InvalidTransition { state: self.state, transition: t }),
        })
        &&& after.display == self.display
        &&& after.state == (match moved {
            Some(Flow::Enter(s)) => s,
            _ => self.state,
        })
        &&& after.show_grid == (moved != Some(Flow::Enter(GameState::Playing))
            && self.show_grid)
        &&& after.menu == (if moved == Some(Flow::Enter(GameState::Starting)) {
            MenuOption::NewGame
        } else {
            self.menu
        })
        &&& self.starts_round(t) ==> {
            &&& after.score == 0
            &&& after.speed == Speed::Normal
            &&& after.snake.direction == Direction::Right
            &&& after.snake.last_move == Direction::Right
            &&& after.snake.body@ == initial_body(self.display.hcells, self.display.vcells)
        }
        &&& !self.starts_round(t) ==> {
            &&& after.score == self.score
            &&& after.speed == self.speed
            &&& after.food == self.food
            &&& after.snake == self.snake
        }
    }

    /// Carries out the transition `t` asked for by the active screen. A move
    /// that the table has not is handed back and changes nothing. Entering
    /// play from the menu starts a new round; entering play clears the grid
    /// overlay; entering the menu highlights "New Game".
    pub fn apply(&mut self, t: GameTransition) -> (r: Result<Flow, InvalidTransition>)
        requires
            old(self).wf(),
        ensures
            final(self).wf(),
            old(self).applied(final(self), t, r),
    {
        let r = next_flow(self.state, t);
        if let Ok(Flow::Enter(next)) = r {
            if self.state == GameState::Starting && next == GameState::Playing {
                self.new_round();
            }
            if next == GameState::Playing {
                self.show_grid = false;
            }
            if next == GameState::Starting {
                self.menu = MenuOption::NewGame;
            }
            self.state = next;
        }
        r
    }
}

/// A tick that does not hit a wall leaves the head one step from where it was
/// and inside the area: the head never wraps around an edge.
pub proof fn lemma_head_stays_in_area(before: &Game, after: &Game, fresh: Coordinate)
    requires
        before.wf(),
        before.ticked(after, fresh),
        before.outcome(after) != TickOutcome::WallCollision,
    ensures
        before.next_head() == Some(after.head()),
        after.display.contains(after.head()),
{
}

/// A tick adds one cell to the snake where it eats, and none otherwise.
pub proof fn lemma_length_grows_by_food(before: &Game, after: &Game, fresh: Coordinate)
    requires
        before.wf(),
        before.ticked(after, fresh),
    ensures
        after.snake.body@.len() == before.snake.body@.len() + (if before.eats() {
            1int
        } else {
            0int
        }),
{
}

/// A tick reports that the snake hit itself exactly where the moved head lies
/// on another cell of the moved body.
pub proof fn lemma_self_collision_exact(before: &Game, after: &Game, fresh: Coordinate)
    requires
        before.wf(),
        before.ticked(after, fresh),
        before.next_head() is Some,
    ensures
        after.head() == before.next_head().unwrap(),
        (before.outcome(after) == TickOutcome::SelfCollision) <==> exists|i: int|
            1 <= i < after.snake.body@.len() && #[trigger] after.snake.body@[i] == after.head(),
{
}

/// A tick adds one to the score where the snake eats and keeps it otherwise,
/// so the score never goes down in a round.
pub proof fn lemma_score_counts_food(before: &Game, after: &Game, fresh: Coordinate)
    requires
        before.wf(),
        before.ticked(after, fresh),
    ensures
        after.score == before.score + (if before.eats() {
            1int
        } else {
            0int
        }),
        after.score >= before.score,
{
}

/// A tick that moves the snake goes along its heading, which never points
/// back against the move before it, and records that heading as its last
/// move: the snake never reverses its travel.
pub proof fn lemma_move_never_reverses(before: &Game, after: &Game, fresh: Coordinate)
    requires
        before.wf(),
        before.ticked(after, fresh),
        before.next_head() is Some,
    ensures
        before.snake.direction != opposite(before.snake.last_move),
        after.snake.last_move == before.snake.direction,
        after.snake.direction != opposite(after.snake.last_move),
{
}

} // verus!
