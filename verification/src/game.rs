//! The simulation step: one discrete tick of the game, and the whole game
//! state it acts on.

use vstd::prelude::*;

use crate::direction::{request_turns, turned_all, Direction};
use crate::fruit::gen_fruit;
use crate::grid::{at_boundary, cells_equal, is_at_boundary, Cell, GRID_SIZE};
use crate::snake::{self_overlap, Snake};

verus! {

/// The whole mutable state of a running game.
pub struct GameState {
    pub snake: Snake,
    pub direction: Direction,
    pub fruit: Cell,
}

/// The mathematical model of a game state: the body cells tail first, the
/// current direction of travel, and the fruit cell.
pub struct GameModel {
    pub body: Seq<Cell>,
    pub direction: Direction,
    pub fruit: Cell,
}

impl View for GameState {
    type V = GameModel;

    open spec fn view(&self) -> GameModel {
        GameModel { body: self.snake@, direction: self.direction, fruit: self.fruit }
    }
}

/// The head cell moved one grid step in the given direction.
pub open spec fn shifted(c: Cell, d: Direction) -> Cell {
    match d {
        Direction::Up => Cell { x: c.x, y: (c.y - GRID_SIZE) as i32 },
        Direction::Down => Cell { x: c.x, y: (c.y + GRID_SIZE) as i32 },
        Direction::Left => Cell { x: (c.x - GRID_SIZE) as i32, y: c.y },
        Direction::Right => Cell { x: (c.x + GRID_SIZE) as i32, y: c.y },
    }
}

/// Shifting the head stays inside the machine integers.
pub open spec fn head_step_fits(g: GameModel) -> bool {
    &&& i32::MIN + GRID_SIZE <= g.body.last().x <= i32::MAX - GRID_SIZE
    &&& i32::MIN + GRID_SIZE <= g.body.last().y <= i32::MAX - GRID_SIZE
}

/// One simulation tick, as a mathematical function of the starting state, the
/// queued direction requests, and the cell that replaces the fruit if it is
/// eaten. Returns the next state and the terminal-stop flag.
///
/// The collision tests run against the committed head of the previous tick,
/// before the new head is computed: the snake catches itself, or the wall,
/// one tick after the coincidence arises, never pre-emptively.
pub open spec fn tick(g: GameModel, requests: Seq<Direction>, replacement: Cell) -> (GameModel, bool) {
    let d = turned_all(g.direction, requests);
    let head = g.body.last();
    if self_overlap(g.body) || at_boundary(head) {
        (GameModel { direction: d, ..g }, true)
    } else {
        let new_head = shifted(head, d);
        if head == g.fruit {
            (GameModel { body: g.body.push(new_head), direction: d, fruit: replacement }, false)
        } else {
            (
                GameModel {
                    body: g.body.subrange(1, g.body.len() as int).push(new_head),
                    direction: d,
                    fruit: g.fruit,
                },
                false,
            )
        }
    }
}

/// Move a cell one grid step in the given direction.
pub fn shift_cell(c: Cell, d: Direction) -> (r: Cell)
    requires
        i32::MIN + GRID_SIZE <= c.x <= i32::MAX - GRID_SIZE,
        i32::MIN + GRID_SIZE <= c.y <= i32::MAX - GRID_SIZE,
    ensures
        r == shifted(c, d),
{
    match d {
        Direction::Up => Cell { x: c.x, y: c.y - GRID_SIZE },
        Direction::Down => Cell { x: c.x, y: c.y + GRID_SIZE },
        Direction::Left => Cell { x: c.x - GRID_SIZE, y: c.y },
        Direction::Right => Cell { x: c.x + GRID_SIZE, y: c.y },
    }
}

impl GameState {
    /// The body is non-empty: established at the start of play and preserved
    /// by every tick.
    pub open spec fn wf(self) -> bool {
        self@.body.len() >= 1
    }

    /// A fresh game: a single-cell snake at the origin, travelling right,
    /// with a fruit placed at random.
    pub fn new() -> (g: GameState)
        ensures
            g@.body =~= seq![Cell { x: 0, y: 0 }],
            g@.direction == Direction::Right,
            g@.fruit.aligned(),
            g@.fruit.in_window(),
            g.wf(),
    {
        GameState {
            snake: Snake::new(Cell { x: 0, y: 0 }),
            direction: Direction::Right,
            fruit: gen_fruit(),
        }
    }

    /// One tick with the replacement fruit passed in: apply the queued
    /// direction requests, test self- and boundary collision on the committed
    /// head, and either stop or advance the snake, growing it and replacing
    /// the fruit exactly when the head sat on the fruit.
    pub fn step_with_fruit(&mut self, requests: &Vec<Direction>, replacement: Cell) -> (stop: bool)
        requires
            old(self).wf(),
            head_step_fits(old(self)@),
        ensures
            final(self).wf(),
            final(self)@ == tick(old(self)@, requests@, replacement).0,
            stop == tick(old(self)@, requests@, replacement).1,
    {
        let ghost g0 = self@;
        self.direction = request_turns(self.direction, requests);
        let head = self.snake.head();
        if self.snake.hits_self() || is_at_boundary(&head) {
            return true;
        }
        let new_head = shift_cell(head, self.direction);
        let grew = cells_equal(&head, &self.fruit);
        if grew {
            self.fruit = replacement;
        }
        self.snake.advance(new_head, grew);
        proof {
            assert(self@.body =~= tick(g0, requests@, replacement).0.body);
        }
        false
    }

    /// One full tick: as `step_with_fruit`, with the replacement fruit drawn
    /// at random. Whatever the draw, the replacement is grid-aligned and
    /// inside the window.
    pub fn step(&mut self, requests: &Vec<Direction>) -> (stop: bool)
        requires
            old(self).wf(),
            head_step_fits(old(self)@),
        ensures
            final(self).wf(),
            exists|replacement: Cell|
                #![trigger tick(old(self)@, requests@, replacement)]
                replacement.aligned() && replacement.in_window()
                    && final(self)@ == tick(old(self)@, requests@, replacement).0
                    && stop == tick(old(self)@, requests@, replacement).1,
    {
        let replacement = gen_fruit();
        self.step_with_fruit(requests, replacement)
    }
}

/// The state after `n` ticks with no queued input, the same replacement cell
/// offered at every tick; iteration ends at the first terminal tick.
pub open spec fn run(g: GameModel, n: nat, replacement: Cell) -> (GameModel, bool)
    decreases n,
{
    if n == 0 {
        (g, false)
    } else {
        let (g1, stop) = tick(g, Seq::empty(), replacement);
        if stop {
            (g1, true)
        } else {
            run(g1, (n - 1) as nat, replacement)
        }
    }
}

/// Law: a single-cell snake travelling right, with no input, no boundary on
/// its path, and the fruit nowhere on its path, never stops and after `n`
/// ticks is the single cell `n` grid steps to the right of where it began.
pub proof fn lemma_straight_run(g: GameModel, n: nat, replacement: Cell)
    requires
        g.body.len() == 1,
        g.direction == Direction::Right,
        g.body[0].y != crate::grid::WINDOW_SIZE - GRID_SIZE,
        forall|k: int|
            0 <= k < n ==> g.body[0].x + #[trigger] (k * GRID_SIZE) != crate::grid::WINDOW_SIZE
                - GRID_SIZE,
        forall|k: int|
            0 <= k < n ==> !(g.fruit.x == g.body[0].x + #[trigger] (k * GRID_SIZE) && g.fruit.y
                == g.body[0].y),
        g.body[0].x + n * GRID_SIZE <= i32::MAX,
    ensures
        run(g, n, replacement).1 == false,
        run(g, n, replacement).0.body =~= seq![
            Cell { x: (g.body[0].x + n * GRID_SIZE) as i32, y: g.body[0].y },
        ],
        run(g, n, replacement).0.direction == Direction::Right,
        run(g, n, replacement).0.fruit == g.fruit,
    decreases n,
{
    if n == 0 {
        assert(run(g, n, replacement).0.body =~= seq![
            Cell { x: (g.body[0].x + n * GRID_SIZE) as i32, y: g.body[0].y },
        ]);
    } else {
        let head = g.body.last();
        assert(head == g.body[0]);
        assert(!self_overlap(g.body));
        assert(head.x + 0 * GRID_SIZE == head.x);
        assert(!at_boundary(head));
        assert(head != g.fruit);
        let new_head = Cell { x: (head.x + GRID_SIZE) as i32, y: head.y };
        assert(head.x + GRID_SIZE <= i32::MAX);
        assert(new_head.x == head.x + GRID_SIZE);
        let (g1, stop) = tick(g, Seq::empty(), replacement);
        assert(!stop);
        assert(g1.body =~= seq![new_head]);
        assert(g1.fruit == g.fruit);
        assert forall|k: int|
            0 <= k < n - 1 implies g1.body[0].x + #[trigger] (k * GRID_SIZE)
            != crate::grid::WINDOW_SIZE - GRID_SIZE by {
            assert(g.body[0].x + (k + 1) * GRID_SIZE == g1.body[0].x + k * GRID_SIZE);
        }
        assert forall|k: int|
            0 <= k < n - 1 implies !(g1.fruit.x == g1.body[0].x + #[trigger] (k * GRID_SIZE)
            && g1.fruit.y == g1.body[0].y) by {
            assert(g.body[0].x + (k + 1) * GRID_SIZE == g1.body[0].x + k * GRID_SIZE);
        }
        lemma_straight_run(g1, (n - 1) as nat, replacement);
        assert(g1.body[0].x + (n - 1) * GRID_SIZE == g.body[0].x + n * GRID_SIZE);
    }
}

/// Law: when the head is not on the fruit, the tick does not depend on the
/// replacement cell: no fruit is eaten, so none is placed. On such states the
/// random draw inside `step` is irrelevant, and its contract pins the next
/// state exactly.
pub proof fn lemma_tick_ignores_replacement(g: GameModel, requests: Seq<Direction>, r1: Cell, r2: Cell)
    requires
        g.body.len() >= 1,
        g.body.last() != g.fruit,
    ensures
        tick(g, requests, r1) == tick(g, requests, r2),
{
}

} // verus!
