use snake::direction::Direction;
use snake::game::GameState;
use snake::grid::{Cell, GRID_SIZE, WINDOW_SIZE};
use snake::snake::Snake;

fn snake_from(cells: &[Cell]) -> Snake {
    let mut s = Snake::new(cells[0]);
    for &c in &cells[1..] {
        s.advance(c, true);
    }
    s
}

#[test]
fn advance_without_growth_keeps_length() {
    let mut s = snake_from(&[Cell { x: 0, y: 0 }, Cell { x: 20, y: 0 }]);
    s.advance(Cell { x: 40, y: 0 }, false);
    assert_eq!(s.len(), 2);
    assert_eq!(s.head(), Cell { x: 40, y: 0 });
    assert_eq!(s.cell_at(0), Cell { x: 20, y: 0 });
}

#[test]
fn advance_with_growth_adds_one() {
    let mut s = snake_from(&[Cell { x: 0, y: 0 }, Cell { x: 20, y: 0 }]);
    s.advance(Cell { x: 40, y: 0 }, true);
    assert_eq!(s.len(), 3);
    assert_eq!(s.head(), Cell { x: 40, y: 0 });
    assert_eq!(s.cell_at(0), Cell { x: 0, y: 0 });
}

#[test]
fn self_collision_stops_the_game() {
    // The head has re-entered the tail cell: the next tick must stop.
    let body = [
        Cell { x: 0, y: 0 },
        Cell { x: 20, y: 0 },
        Cell { x: 20, y: 20 },
        Cell { x: 0, y: 20 },
        Cell { x: 0, y: 0 },
    ];
    let mut g = GameState {
        snake: snake_from(&body),
        direction: Direction::Up,
        fruit: Cell { x: 400, y: 400 },
    };
    let reqs: Vec<Direction> = Vec::new();
    assert!(g.snake.hits_self());
    let stop = g.step_with_fruit(&reqs, Cell { x: 0, y: 0 });
    assert!(stop);
    // The body is untouched by a terminal tick.
    assert_eq!(g.snake.len(), 5);
}

#[test]
fn no_self_collision_without_overlap() {
    let body = [
        Cell { x: 0, y: 0 },
        Cell { x: 20, y: 0 },
        Cell { x: 20, y: 20 },
        Cell { x: 0, y: 20 },
    ];
    let s = snake_from(&body);
    assert!(!s.hits_self());
}

#[test]
fn boundary_collision_stops_the_game() {
    let mut g = GameState {
        snake: snake_from(&[Cell { x: 780, y: 100 }]),
        direction: Direction::Right,
        fruit: Cell { x: 400, y: 400 },
    };
    let reqs: Vec<Direction> = Vec::new();
    let stop = g.step_with_fruit(&reqs, Cell { x: 0, y: 0 });
    assert!(stop);

    let mut g = GameState {
        snake: snake_from(&[Cell { x: 760, y: 100 }]),
        direction: Direction::Right,
        fruit: Cell { x: 400, y: 400 },
    };
    let stop = g.step_with_fruit(&reqs, Cell { x: 0, y: 0 });
    assert!(!stop);
    assert_eq!(g.snake.head(), Cell { x: 780, y: 100 });
}

#[test]
fn eating_the_fruit_grows_and_replaces_it() {
    let mut g = GameState {
        snake: snake_from(&[Cell { x: 100, y: 100 }]),
        direction: Direction::Right,
        fruit: Cell { x: 100, y: 100 },
    };
    let reqs: Vec<Direction> = Vec::new();
    let before = g.snake.len();
    let stop = g.step(&reqs);
    assert!(!stop);
    assert_eq!(g.snake.len(), before + 1);
    assert_eq!(g.snake.head(), Cell { x: 120, y: 100 });
    // The replacement fruit is grid-aligned and inside the window.
    assert_eq!(g.fruit.x % GRID_SIZE, 0);
    assert_eq!(g.fruit.y % GRID_SIZE, 0);
    assert!(0 <= g.fruit.x && g.fruit.x < WINDOW_SIZE);
    assert!(0 <= g.fruit.y && g.fruit.y < WINDOW_SIZE);
}

#[test]
fn missing_the_fruit_keeps_it_and_the_length() {
    let mut g = GameState {
        snake: snake_from(&[Cell { x: 100, y: 100 }]),
        direction: Direction::Right,
        fruit: Cell { x: 400, y: 400 },
    };
    let reqs: Vec<Direction> = Vec::new();
    let stop = g.step(&reqs);
    assert!(!stop);
    assert_eq!(g.snake.len(), 1);
    assert_eq!(g.fruit, Cell { x: 400, y: 400 });
}

#[test]
fn straight_run_moves_one_step_right_per_tick() {
    // A single cell at the origin, no input, the fruit far away: after each
    // of N ticks the snake is one cell, one grid step further right.
    let mut g = GameState {
        snake: snake_from(&[Cell { x: 0, y: 0 }]),
        direction: Direction::Right,
        fruit: Cell { x: 400, y: 400 },
    };
    let reqs: Vec<Direction> = Vec::new();
    for n in 1..=10 {
        let stop = g.step(&reqs);
        assert!(!stop);
        assert_eq!(g.snake.len(), 1);
        assert_eq!(g.snake.head(), Cell { x: GRID_SIZE * n, y: 0 });
        assert_eq!(g.direction, Direction::Right);
        assert_eq!(g.fruit, Cell { x: 400, y: 400 });
    }
}

#[test]
fn turning_changes_the_course() {
    let mut g = GameState {
        snake: snake_from(&[Cell { x: 100, y: 100 }]),
        direction: Direction::Right,
        fruit: Cell { x: 400, y: 400 },
    };
    // A reverse request alone is dropped; the snake keeps going right.
    let stop = g.step(&vec![Direction::Left]);
    assert!(!stop);
    assert_eq!(g.snake.head(), Cell { x: 120, y: 100 });
    assert_eq!(g.direction, Direction::Right);
    // Down is accepted and applied on the same tick.
    let stop = g.step(&vec![Direction::Down]);
    assert!(!stop);
    assert_eq!(g.snake.head(), Cell { x: 120, y: 120 });
    assert_eq!(g.direction, Direction::Down);
}

#[test]
fn new_game_starts_at_the_origin() {
    let g = GameState::new();
    assert_eq!(g.snake.len(), 1);
    assert_eq!(g.snake.head(), Cell { x: 0, y: 0 });
    assert_eq!(g.direction, Direction::Right);
    assert_eq!(g.fruit.x % GRID_SIZE, 0);
    assert_eq!(g.fruit.y % GRID_SIZE, 0);
    assert!(0 <= g.fruit.x && g.fruit.x < WINDOW_SIZE);
    assert!(0 <= g.fruit.y && g.fruit.y < WINDOW_SIZE);
}
