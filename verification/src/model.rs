//! The mathematical model of a simulation and its transition rules.
//!
//! Apart from the three plain enums everything here is ghost code:
//! [`SimulationView`] says what a simulation is, [`SimulationView::inv`]
//! which values are games, and [`SimulationView::next`] what one tick does.

use crate::grid::{in_bounds, step, valid_grid, Direction, Position};
use vstd::prelude::*;

verus! {

/// Whether the game still runs.
#[derive(Clone, Copy, Debug, PartialEq, Eq, Structural, Hash)]
pub enum SimulationState {
    /// The snake is alive and ticks advance it.
    Running,
    /// The snake ran into itself. Only a reset leaves this state.
    GameOver,
}

/// What one tick did.
#[derive(Clone, Copy, Debug, PartialEq, Eq, Structural, Hash)]
pub enum TickEvent {
    /// The snake advanced by one cell and kept its length.
    Moved,
    /// The snake reached the food, grew by one cell and scored.
    Ate { new_score: u64 },
    /// The snake ran into its own body; the game is over.
    Collided,
    /// The game was over already; nothing changed.
    Ignored,
}

/// Why a simulation could not be built.
#[derive(Clone, Copy, Debug, PartialEq, Eq, Structural, Hash)]
pub enum SimulationError {
    /// The grid has no cell left for the food: fewer than two cells.
    InvalidGridSize,
    /// The snake is empty, leaves the grid or crosses itself.
    InvalidSnake,
    /// The food lies off the grid or on the snake, or is missing although
    /// a cell is free.
    InvalidFood,
}

/// The heading that a tick follows: the requested one, unless nothing was
/// requested or the request would turn the snake back on itself.
pub open spec fn resolve(heading: Direction, requested: Option<Direction>) -> Direction {
    match requested {
        Some(d) => if d == heading.reversed() {
            heading
        } else {
            d
        },
        None => heading,
    }
}

/// Every cell of the grid is taken by the snake.
pub open spec fn grid_full(snake: Seq<Position>, width: int, height: int) -> bool {
    forall|p: Position| in_bounds(p, width, height) ==> #[trigger] snake.contains(p)
}

/// `food` may lie beside `snake`: it is a cell of the grid that the snake
/// does not take, and it is absent only when no such cell exists.
pub open spec fn food_fits(
    snake: Seq<Position>,
    width: int,
    height: int,
    food: Option<Position>,
) -> bool {
    match food {
        Some(f) => in_bounds(f, width, height) && !snake.contains(f),
        None => grid_full(snake, width, height),
    }
}

/// `snake` may live on the grid: it has a head, stays on the grid and takes
/// no cell twice.
pub open spec fn snake_fits(snake: Seq<Position>, width: int, height: int) -> bool {
    &&& snake.len() >= 1
    &&& forall|i: int| 0 <= i < snake.len() ==> in_bounds(#[trigger] snake[i], width, height)
    &&& snake.no_duplicates()
}

/// A simulation as a mathematical value.
pub struct SimulationView {
    /// Number of columns.
    pub width: int,
    /// Number of rows.
    pub height: int,
    /// The cell where a fresh game begins.
    pub start: Position,
    /// The seed that a fresh game draws its food from.
    pub seed: u64,
    /// The cells of the snake, head first.
    pub snake: Seq<Position>,
    /// The direction of the last step.
    pub heading: Direction,
    /// The food cell; absent only when the snake fills the grid.
    pub food: Option<Position>,
    /// Number of times the snake has eaten.
    pub score: nat,
    /// Whether the game still runs.
    pub state: SimulationState,
}

impl SimulationView {
    /// The head of the snake.
    pub open spec fn head(self) -> Position {
        self.snake[0]
    }

    /// The values that are games: the grid can hold one and a `Position`
    /// can name each of its cells, the start cell and the snake lie on it,
    /// the snake takes no cell twice, the food lies beside the snake, and
    /// the score counts the cells that the snake has grown by.
    pub open spec fn inv(self) -> bool {
        &&& valid_grid(self.width, self.height)
        &&& self.width <= i32::MAX
        &&& self.height <= i32::MAX
        &&& in_bounds(self.start, self.width, self.height)
        &&& snake_fits(self.snake, self.width, self.height)
        &&& food_fits(self.snake, self.width, self.height, self.food)
        &&& self.score + 1 == self.snake.len()
    }

    /// A game as it begins: a snake of one cell at `start`, heading right,
    /// with nothing eaten.
    pub open spec fn is_fresh(self, width: int, height: int, start: Position, seed: u64) -> bool {
        &&& self.width == width
        &&& self.height == height
        &&& self.start == start
        &&& self.seed == seed
        &&& self.snake == seq![start]
        &&& self.heading == Direction::Right
        &&& self.food is Some
        &&& self.score == 0
        &&& self.state == SimulationState::Running
    }

    /// The heading of the coming step.
    pub open spec fn next_heading(self, requested: Option<Direction>) -> Direction {
        resolve(self.heading, requested)
    }

    /// The cell that the head moves to in the coming step.
    pub open spec fn next_head(self, requested: Option<Direction>) -> Position {
        step(self.head(), self.next_heading(requested), self.width, self.height)
    }

    /// The coming step reaches the food.
    pub open spec fn grows(self, requested: Option<Direction>) -> bool {
        self.food == Some(self.next_head(requested))
    }

    /// The cells of the present snake that are still taken once the coming
    /// step is done: all of them when the snake grows, all but the tail
    /// when it does not.
    pub open spec fn remaining_body(self, requested: Option<Direction>) -> Seq<Position> {
        if self.grows(requested) {
            self.snake
        } else {
            self.snake.drop_last()
        }
    }

    /// The coming step runs the head into the body.
    pub open spec fn collides(self, requested: Option<Direction>) -> bool {
        self.remaining_body(requested).contains(self.next_head(requested))
    }

    /// What a tick with this request reports.
    pub open spec fn event(self, requested: Option<Direction>) -> TickEvent {
        if self.state is GameOver {
            TickEvent::Ignored
        } else if self.collides(requested) {
            TickEvent::Collided
        } else if self.grows(requested) {
            TickEvent::Ate { new_score: (self.score + 1) as u64 }
        } else {
            TickEvent::Moved
        }
    }

    /// The game after a tick with this request. `placed` is the food that is
    /// put down if the snake eats; it plays no part otherwise.
    pub open spec fn next(self, requested: Option<Direction>, placed: Option<Position>) -> Self {
        if self.state is GameOver {
            self
        } else if self.collides(requested) {
            SimulationView {
                heading: self.next_heading(requested),
                state: SimulationState::GameOver,
                ..self
            }
        } else if self.grows(requested) {
            SimulationView {
                heading: self.next_heading(requested),
                snake: seq![self.next_head(requested)] + self.snake,
                food: placed,
                score: self.score + 1,
                ..self
            }
        } else {
            SimulationView {
                heading: self.next_heading(requested),
                snake: seq![self.next_head(requested)] + self.snake.drop_last(),
                ..self
            }
        }
    }

    /// `placed` is food that a tick with this request may put down: where
    /// the snake eats, it has to lie beside the grown snake.
    pub open spec fn may_place(self, requested: Option<Direction>, placed: Option<Position>) -> bool {
        self.event(requested) is Ate ==> food_fits(
            seq![self.next_head(requested)] + self.snake,
            self.width,
            self.height,
            placed,
        )
    }
}

/// One tick of a game that is played out: the request made and the food
/// put down if the snake eats.
pub struct Turn {
    pub requested: Option<Direction>,
    pub placed: Option<Position>,
}

/// The game after the ticks `turns`, taken in order.
pub open spec fn run(game: SimulationView, turns: Seq<Turn>) -> SimulationView
    decreases turns.len(),
{
    if turns.len() == 0 {
        game
    } else {
        run(game, turns.drop_last()).next(turns.last().requested, turns.last().placed)
    }
}

/// How many of the ticks `turns` report that the snake ate.
pub open spec fn meals(game: SimulationView, turns: Seq<Turn>) -> nat
    decreases turns.len(),
{
    if turns.len() == 0 {
        0
    } else {
        let before = run(game, turns.drop_last());
        meals(game, turns.drop_last()) + if before.event(turns.last().requested) is Ate {
            1nat
        } else {
            0nat
        }
    }
}

} // verus!
