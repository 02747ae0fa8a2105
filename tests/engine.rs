use snake_rust::food::respawn;
use snake_rust::game::{head_on_body, Game, Speed, TickOutcome, FAST_SPEED_MS, NORMAL_SPEED_MS};
use snake_rust::grid::{create_grid, create_rect, Coordinate, GameArea, Rect};
use snake_rust::snake::{create_snake, next_cell, Direction};

fn c(x: u32, y: u32) -> Coordinate {
    Coordinate { x, y }
}

fn game_with(body: Vec<Coordinate>, direction: Direction, food: Coordinate) -> Game {
    let mut g = Game::new();
    g.snake.body = body;
    g.snake.direction = direction;
    g.snake.last_move = direction;
    g.food = food;
    g
}

#[test]
fn grid_has_38_by_28_cells() {
    let g = create_grid();
    assert_eq!(g.hcells, 38);
    assert_eq!(g.vcells, 28);
    assert_eq!(g.grid.len(), 38 * 28);
    assert_eq!(g.game_area, Rect { x: 20, y: 20, w: 760, h: 560 });
}

#[test]
fn grid_cells_are_row_major() {
    let g = create_grid();
    assert_eq!(g.grid[0], Rect { x: 20, y: 20, w: 20, h: 20 });
    assert_eq!(g.grid[1], Rect { x: 40, y: 20, w: 20, h: 20 });
    assert_eq!(g.grid[38], Rect { x: 20, y: 40, w: 20, h: 20 });
    assert_eq!(g.grid[38 * 28 - 1], Rect { x: 760, y: 560, w: 20, h: 20 });
}

#[test]
fn build_refuses_an_area_without_cells() {
    assert!(GameArea::build(40, 600, 20, 20).is_none());
    assert!(GameArea::build(59, 600, 20, 20).is_none());
    assert!(GameArea::build(800, 600, 20, 0).is_none());
    let one = GameArea::build(60, 60, 20, 20).unwrap();
    assert_eq!((one.hcells, one.vcells), (1, 1));
    assert_eq!(one.grid, vec![Rect { x: 20, y: 20, w: 20, h: 20 }]);
}

#[test]
fn build_with_other_sizes() {
    let g = GameArea::build(100, 70, 5, 10).unwrap();
    assert_eq!((g.hcells, g.vcells), (9, 6));
    assert_eq!(g.grid.len(), 54);
    assert_eq!(g.grid[10], Rect { x: 15, y: 15, w: 10, h: 10 });
}

#[test]
fn cell_rect_bounds_are_inclusive_of_one_past_the_edge() {
    let g = create_grid();
    assert_eq!(create_rect(&g, &c(0, 0)), Some(Rect { x: 20, y: 20, w: 20, h: 20 }));
    assert_eq!(create_rect(&g, &c(37, 27)), Some(Rect { x: 760, y: 560, w: 20, h: 20 }));
    assert_eq!(create_rect(&g, &c(38, 0)), Some(Rect { x: 780, y: 20, w: 20, h: 20 }));
    assert_eq!(create_rect(&g, &c(0, 28)), Some(Rect { x: 20, y: 580, w: 20, h: 20 }));
    assert_eq!(create_rect(&g, &c(39, 0)), None);
    assert_eq!(create_rect(&g, &c(0, 29)), None);
}

#[test]
fn new_snake_is_centred_heading_right() {
    let g = create_grid();
    let s = create_snake(&g);
    assert_eq!(s.direction, Direction::Right);
    assert_eq!(s.last_move, Direction::Right);
    assert_eq!(s.body, vec![c(19, 14), c(18, 14), c(17, 14), c(16, 14), c(15, 14)]);
}

#[test]
fn reversal_is_dropped() {
    let g = create_grid();
    let mut s = create_snake(&g);
    s.turn(Direction::Left);
    assert_eq!(s.direction, Direction::Right);
    s.turn(Direction::Up);
    assert_eq!(s.direction, Direction::Up);
    s.turn(Direction::Down);
    assert_eq!(s.direction, Direction::Up);
    s.turn(Direction::Left);
    assert_eq!(s.direction, Direction::Up);
    s.turn(Direction::Right);
    assert_eq!(s.direction, Direction::Right);
    assert_eq!(s.last_move, Direction::Right);
    assert_eq!(s.body.len(), 5);
}

#[test]
fn two_quick_turns_cannot_reverse_travel() {
    let mut g = Game::new();
    g.food = c(0, 0);
    g.snake.turn(Direction::Up);
    g.snake.turn(Direction::Left);
    assert_eq!(g.snake.direction, Direction::Up);
    assert_eq!(g.advance_with(c(1, 1)), TickOutcome::Moved);
    assert_eq!(g.snake.body[0], c(19, 13));
    assert_eq!(g.snake.last_move, Direction::Up);
    g.snake.turn(Direction::Left);
    assert_eq!(g.snake.direction, Direction::Left);
    g.snake.turn(Direction::Down);
    assert_eq!(g.snake.direction, Direction::Left);
    assert_eq!(g.advance_with(c(1, 1)), TickOutcome::Moved);
    assert_eq!(g.snake.body[0], c(18, 13));
    assert_eq!(g.snake.last_move, Direction::Left);
}

#[test]
fn next_cell_stops_at_walls() {
    let g = create_grid();
    assert_eq!(next_cell(c(0, 5), Direction::Left, &g), None);
    assert_eq!(next_cell(c(37, 5), Direction::Right, &g), None);
    assert_eq!(next_cell(c(5, 0), Direction::Up, &g), None);
    assert_eq!(next_cell(c(5, 27), Direction::Down, &g), None);
    assert_eq!(next_cell(c(5, 5), Direction::Left, &g), Some(c(4, 5)));
    assert_eq!(next_cell(c(5, 5), Direction::Right, &g), Some(c(6, 5)));
    assert_eq!(next_cell(c(5, 5), Direction::Up, &g), Some(c(5, 4)));
    assert_eq!(next_cell(c(5, 5), Direction::Down, &g), Some(c(5, 6)));
}

#[test]
fn first_tick_moves_right_and_keeps_length() {
    let mut g = Game::new();
    g.food = c(0, 0);
    let r = g.advance_with(c(3, 3));
    assert_eq!(r, TickOutcome::Moved);
    assert_eq!(g.snake.body, vec![c(20, 14), c(19, 14), c(18, 14), c(17, 14), c(16, 14)]);
    assert_eq!(g.snake.last_move, Direction::Right);
    assert_eq!(g.score, 0);
    assert_eq!(g.food, c(0, 0));
}

#[test]
fn wall_ahead_ends_the_round_unchanged() {
    let body = vec![c(37, 5), c(36, 5), c(35, 5), c(34, 5), c(33, 5)];
    let mut g = game_with(body.clone(), Direction::Right, c(0, 0));
    g.score = 7;
    let r = g.advance_with(c(1, 1));
    assert_eq!(r, TickOutcome::WallCollision);
    assert_eq!(g.score, 7);
    assert_eq!(g.snake.body, body);
    assert_eq!(g.food, c(0, 0));
}

#[test]
fn walls_on_every_side() {
    let mut left = game_with(vec![c(0, 3)], Direction::Left, c(9, 9));
    assert_eq!(left.advance_with(c(1, 1)), TickOutcome::WallCollision);
    let mut up = game_with(vec![c(3, 0)], Direction::Up, c(9, 9));
    assert_eq!(up.advance_with(c(1, 1)), TickOutcome::WallCollision);
    let mut down = game_with(vec![c(3, 27)], Direction::Down, c(9, 9));
    assert_eq!(down.advance_with(c(1, 1)), TickOutcome::WallCollision);
}

#[test]
fn eating_grows_and_scores() {
    let mut g = Game::new();
    g.food = c(20, 14);
    let r = g.advance_with(c(2, 3));
    assert_eq!(r, TickOutcome::Moved);
    assert_eq!(g.score, 1);
    assert_eq!(g.snake.body.len(), 6);
    assert_eq!(g.snake.body[0], c(20, 14));
    assert_eq!(g.snake.body[5], c(15, 14));
    assert_eq!(g.food, c(2, 3));
}

#[test]
fn eating_with_random_food_keeps_food_in_the_area() {
    let mut g = Game::new();
    g.food = c(20, 14);
    let r = g.advance();
    assert_eq!(r, TickOutcome::Moved);
    assert_eq!(g.score, 1);
    assert_eq!(g.snake.body.len(), 6);
    assert!(g.food.x < 38 && g.food.y < 28);
}

#[test]
fn score_and_length_over_several_ticks() {
    let mut g = game_with(vec![c(5, 5), c(4, 5)], Direction::Right, c(6, 5));
    assert_eq!(g.advance_with(c(8, 5)), TickOutcome::Moved);
    assert_eq!((g.score, g.snake.body.len()), (1, 3));
    assert_eq!(g.advance_with(c(0, 0)), TickOutcome::Moved);
    assert_eq!((g.score, g.snake.body.len()), (1, 3));
    assert_eq!(g.advance_with(c(0, 1)), TickOutcome::Moved);
    assert_eq!((g.score, g.snake.body.len()), (2, 4));
    assert_eq!(g.food, c(0, 1));
    assert_eq!(g.snake.body, vec![c(8, 5), c(7, 5), c(6, 5), c(5, 5)]);
}

#[test]
fn head_on_body_cell_is_a_self_collision() {
    let body = vec![c(5, 5), c(6, 5), c(6, 6), c(5, 6), c(4, 6), c(4, 7)];
    let mut g = game_with(body, Direction::Down, c(0, 0));
    let r = g.advance_with(c(1, 1));
    assert_eq!(r, TickOutcome::SelfCollision);
    assert_eq!(g.snake.body[0], c(5, 6));
    assert_eq!(g.snake.body.len(), 6);
}

#[test]
fn moving_into_the_vacated_tail_is_no_collision() {
    let body = vec![c(5, 5), c(6, 5), c(6, 6), c(5, 6)];
    let mut g = game_with(body, Direction::Down, c(0, 0));
    let r = g.advance_with(c(1, 1));
    assert_eq!(r, TickOutcome::Moved);
    assert_eq!(g.snake.body, vec![c(5, 6), c(5, 5), c(6, 5), c(6, 6)]);
}

#[test]
fn growing_into_the_tail_is_a_collision() {
    let body = vec![c(5, 5), c(6, 5), c(6, 6), c(5, 6)];
    let mut g = game_with(body, Direction::Down, c(5, 6));
    let r = g.advance_with(c(1, 1));
    assert_eq!(r, TickOutcome::SelfCollision);
    assert_eq!(g.score, 1);
    assert_eq!(g.snake.body.len(), 5);
}

#[test]
fn head_on_body_scan() {
    assert!(!head_on_body(&vec![c(1, 1)]));
    assert!(!head_on_body(&vec![c(1, 1), c(2, 1), c(3, 1)]));
    assert!(head_on_body(&vec![c(1, 1), c(2, 1), c(1, 1)]));
    assert!(head_on_body(&vec![c(1, 1), c(1, 1)]));
}

#[test]
fn respawned_food_lies_in_the_area() {
    let g = create_grid();
    for _ in 0..2000 {
        let f = respawn(&g);
        assert!(f.x < 38 && f.y < 28);
    }
    let one = GameArea::build(60, 60, 20, 20).unwrap();
    for _ in 0..50 {
        assert_eq!(respawn(&one), c(0, 0));
    }
}

#[test]
fn speed_intervals() {
    assert_eq!(Speed::Normal.interval_ms(), 200);
    assert_eq!(Speed::Fast.interval_ms(), 50);
    assert_eq!((NORMAL_SPEED_MS, FAST_SPEED_MS), (200, 50));
}

#[test]
fn new_round_resets_snake_and_score() {
    let mut g = game_with(vec![c(3, 3)], Direction::Up, c(0, 0));
    g.score = 12;
    g.speed = Speed::Fast;
    g.new_round();
    assert_eq!(g.score, 0);
    assert_eq!(g.speed, Speed::Normal);
    assert_eq!(g.snake.direction, Direction::Right);
    assert_eq!(g.snake.last_move, Direction::Right);
    assert_eq!(g.snake.body, vec![c(19, 14), c(18, 14), c(17, 14), c(16, 14), c(15, 14)]);
    assert!(g.food.x < 38 && g.food.y < 28);
}

#[test]
fn new_session_uses_the_standard_area() {
    let g = Game::new();
    assert_eq!((g.display.hcells, g.display.vcells), (38, 28));
    assert_eq!((g.display.spacing, g.display.cell), (20, 20));
    assert_eq!(g.display.game_area, Rect { x: 20, y: 20, w: 760, h: 560 });
    assert_eq!(g.score, 0);
    assert!(g.food.x < 38 && g.food.y < 28);
}
