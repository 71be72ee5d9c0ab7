//! The simulation: one snake on one grid, advanced tick by tick.

use crate::checks::{food_is_valid, snake_is_valid};
use crate::grid::{
    clamp_position, clamp_to_grid, grid_is_valid, in_bounds, next_head, valid_grid, Direction,
    Position,
};
use crate::input::effective_direction;
use crate::laws::{lemma_tick_keeps_inv, lemma_tick_keeps_snake};
use crate::model::{
    food_fits, grid_full, snake_fits, SimulationError, SimulationState, SimulationView, TickEvent,
};
use crate::placement::{
    lemma_free_and_taken, lemma_full_means_none_free, nth_free_cell, occupies_first,
};
use crate::rng::{draw_below, seeded_generator};
use rand::rngs::StdRng;
use vstd::prelude::*;

verus! {

/// A game of snake on a grid.
///
/// The snake is a list of cells with the head first. A tick moves the head
/// one cell in the heading; the body follows. The snake grows by one cell
/// when the head reaches the food, and the game is over when the head runs
/// into the body.
pub struct Simulation {
    width: i32,
    height: i32,
    start: Position,
    seed: u64,
    snake: Vec<Position>,
    heading: Direction,
    food: Option<Position>,
    score: u64,
    state: SimulationState,
    rng: StdRng,
}

impl View for Simulation {
    type V = SimulationView;

    closed spec fn view(&self) -> SimulationView {
        SimulationView {
            width: self.width as int,
            height: self.height as int,
            start: self.start,
            seed: self.seed,
            snake: self.snake@,
            heading: self.heading,
            food: self.food,
            score: self.score as nat,
            state: self.state,
        }
    }
}

/// Draws the cell for new food. The generator gives a number below the
/// count of free cells, and the food goes to the free cell of that number,
/// so that every free cell has one number. Without a free cell there is
/// no food.
fn spawn_food(snake: &Vec<Position>, width: i32, height: i32, rng: &mut StdRng) -> (food: Option<
    Position,
>)
    requires
        width >= 1,
        height >= 1,
        snake_fits(snake@, width as int, height as int),
    ensures
        food_fits(snake@, width as int, height as int, food),
{
    proof {
        lemma_free_and_taken(snake@, width as int, height as int);
        lemma_full_means_none_free(snake@, width as int, height as int);
        assert(width * height <= 0x4000_0000_0000_0000) by (nonlinear_arith)
            requires
                0 < width <= 0x7fff_ffff,
                0 < height <= 0x7fff_ffff,
        ;
    }
    let cells: u64 = width as u64 * height as u64;
    let free: u64 = cells - snake.len() as u64;
    if free == 0 {
        None
    } else {
        let draw: u64 = draw_below(rng, free);
        nth_free_cell(snake, width, height, draw)
    }
}

/// A snake of one cell leaves a cell free on every grid that can hold a
/// game.
proof fn lemma_fresh_grid_has_room(start: Position, width: int, height: int)
    requires
        valid_grid(width, height),
        in_bounds(start, width, height),
    ensures
        !grid_full(seq![start], width, height),
{
    assert(width > 1 || height > 1) by (nonlinear_arith)
        requires
            width >= 1,
            height >= 1,
            width * height > 1,
    ;
    let other = if width > 1 {
        Position { x: if start.x == 0 { 1i32 } else { 0i32 }, y: start.y }
    } else {
        Position { x: start.x, y: if start.y == 0 { 1i32 } else { 0i32 } }
    };
    assert(in_bounds(other, width, height));
    assert(!seq![start].contains(other));
}

impl Simulation {
    /// The simulation is a game: its model meets `SimulationView::inv`.
    pub open spec fn wf(&self) -> bool {
        self@.inv()
    }

    /// The generator that the food is drawn from, in its present state.
    pub closed spec fn generator(&self) -> StdRng {
        self.rng
    }

    /// A fresh game on a grid of `width` by `height` cells. The snake is
    /// the single cell `start`, moved onto the grid if it lies outside, and
    /// heads right. The food is drawn from a generator seeded with `seed`.
    ///
    /// Fails with `InvalidGridSize` exactly when the grid has fewer than
    /// two cells.
    pub fn new(width: i32, height: i32, start: Position, seed: u64) -> (made: Result<
        Simulation,
        SimulationError,
    >)
        ensures
            made is Ok <==> valid_grid(width as int, height as int),
            made matches Err(e) ==> e == SimulationError::InvalidGridSize,
            made matches Ok(game) ==> game.wf() && game@.is_fresh(
                width as int,
                height as int,
                clamp_to_grid(start, width as int, height as int),
                seed,
            ),
    {
        if !grid_is_valid(width, height) {
            return Err(SimulationError::InvalidGridSize);
        }
        let start = clamp_position(start, width, height);
        let mut snake: Vec<Position> = Vec::new();
        snake.push(start);
        let mut rng = seeded_generator(seed);
        let food = spawn_food(&snake, width, height, &mut rng);
        proof {
            assert(snake@ =~= seq![start]);
            lemma_fresh_grid_has_room(start, width as int, height as int);
        }
        Ok(
            Simulation {
                width,
                height,
                start,
                seed,
                snake,
                heading: Direction::Right,
                food,
                score: 0,
                state: SimulationState::Running,
                rng,
            },
        )
    }

    /// A running game in a given position: the snake `snake`, head first,
    /// heading `heading`, with the food at `food`. The score is the number
    /// of cells that the snake has grown by, and a reset leads back to the
    /// cell where the head is now.
    ///
    /// Fails with `InvalidGridSize` when the grid has fewer than two cells;
    /// else with `InvalidSnake` when the snake is empty, leaves the grid or
    /// takes a cell twice; else with `InvalidFood` when the food lies off
    /// the grid or on the snake, or is absent although a cell is free.
    pub fn from_parts(
        width: i32,
        height: i32,
        snake: Vec<Position>,
        heading: Direction,
        food: Option<Position>,
        seed: u64,
    ) -> (made: Result<Simulation, SimulationError>)
        ensures
            match made {
                Ok(game) => {
                    &&& valid_grid(width as int, height as int)
                    &&& snake_fits(snake@, width as int, height as int)
                    &&& food_fits(snake@, width as int, height as int, food)
                    &&& game.wf()
                    &&& game@ == (SimulationView {
                        width: width as int,
                        height: height as int,
                        start: snake@[0],
                        seed,
                        snake: snake@,
                        heading,
                        food,
                        score: (snake@.len() - 1) as nat,
                        state: SimulationState::Running,
                    })
                },
                Err(SimulationError::InvalidGridSize) => !valid_grid(width as int, height as int),
                Err(SimulationError::InvalidSnake) => {
                    &&& valid_grid(width as int, height as int)
                    &&& !snake_fits(snake@, width as int, height as int)
                },
                Err(SimulationError::InvalidFood) => {
                    &&& valid_grid(width as int, height as int)
                    &&& snake_fits(snake@, width as int, height as int)
                    &&& !food_fits(snake@, width as int, height as int, food)
                },
            },
    {
        if !grid_is_valid(width, height) {
            return Err(SimulationError::InvalidGridSize);
        }
        if !snake_is_valid(&snake, width, height) {
            return Err(SimulationError::InvalidSnake);
        }
        if !food_is_valid(&snake, width, height, food) {
            return Err(SimulationError::InvalidFood);
        }
        let start = snake[0];
        let score: u64 = (snake.len() - 1) as u64;
        let rng = seeded_generator(seed);
        Ok(
            Simulation {
                width,
                height,
                start,
                seed,
                snake,
                heading,
                food,
                score,
                state: SimulationState::Running,
                rng,
            },
        )
    }

    /// Advances the game by one step.
    ///
    /// A game that is over stays as it is and the tick reports `Ignored`.
    /// Otherwise the snake takes the heading `requested`, unless that is
    /// absent or would turn it straight back, and the head moves one cell
    /// that way, stopping at the edge of the grid. Where the head would
    /// land on a cell of the body that the step does not vacate, the game
    /// is over, the snake stays where it was with its new heading, and the
    /// tick reports `Collided`. Where it lands on the food, the snake keeps
    /// its tail and so grows by one cell, the score rises by one, new food
    /// is drawn for a free cell, and the tick reports `Ate`. Otherwise the
    /// tail follows and the tick reports `Moved`. Only a tick that reports
    /// `Ate` draws from the generator.
    pub fn tick(&mut self, requested: Option<Direction>) -> (event: TickEvent)
        requires
            old(self).wf(),
        ensures
            final(self).wf(),
            event == old(self)@.event(requested),
            final(self)@ == old(self)@.next(requested, final(self)@.food),
            old(self)@.may_place(requested, final(self)@.food),
            old(self)@.state is GameOver ==> *final(self) == *old(self),
            !(event is Ate) ==> final(self).generator() == old(self).generator(),
            final(self)@.score == old(self)@.score + if event is Ate {
                1nat
            } else {
                0nat
            },
            final(self)@.snake.len() == old(self)@.snake.len() + if event is Ate {
                1nat
            } else {
                0nat
            },
            in_bounds(final(self)@.head(), final(self)@.width, final(self)@.height),
            final(self)@.food matches Some(f) ==> !final(self)@.snake.contains(f),
            requested == Some(old(self)@.heading.reversed()) ==> final(self)@.heading == old(
                self,
            )@.heading,
    {
        match self.state {
            SimulationState::GameOver => {
                return TickEvent::Ignored;
            },
            SimulationState::Running => {},
        }
        let heading = effective_direction(self.heading, requested);
        let to = next_head(self.snake[0], heading, self.width, self.height);
        let grows = match self.food {
            Some(f) => f == to,
            None => false,
        };
        let kept: usize = if grows {
            self.snake.len()
        } else {
            self.snake.len() - 1
        };
        proof {
            assert(self.snake@.take(self.snake.len() as int) =~= self.snake@);
            assert(self.snake@.take(self.snake.len() - 1) =~= self.snake@.drop_last());
        }
        self.heading = heading;
        if occupies_first(&self.snake, kept, to) {
            self.state = SimulationState::GameOver;
            proof {
                lemma_tick_keeps_inv(old(self)@, requested, self.food);
            }
            return TickEvent::Collided;
        }
        self.snake.insert(0, to);
        if grows {
            proof {
                assert(self.snake@ =~= seq![to] + old(self).snake@);
                lemma_tick_keeps_snake(old(self)@, requested, None);
            }
            self.score = self.score + 1;
            self.food = spawn_food(&self.snake, self.width, self.height, &mut self.rng);
            proof {
                lemma_tick_keeps_inv(old(self)@, requested, self.food);
            }
            TickEvent::Ate { new_score: self.score }
        } else {
            self.snake.pop();
            proof {
                assert(self.snake@ =~= seq![to] + old(self).snake@.drop_last());
                lemma_tick_keeps_inv(old(self)@, requested, self.food);
            }
            TickEvent::Moved
        }
    }

    /// Begins the game anew: the same grid, the snake back at its start
    /// cell with one cell and heading right, the score at zero, the game
    /// running, and food drawn afresh from the seed that the game was made
    /// with.
    pub fn reset(&mut self)
        requires
            old(self).wf(),
        ensures
            final(self).wf(),
            final(self)@.is_fresh(
                old(self)@.width,
                old(self)@.height,
                old(self)@.start,
                old(self)@.seed,
            ),
    {
        let mut snake: Vec<Position> = Vec::new();
        snake.push(self.start);
        let mut rng = seeded_generator(self.seed);
        let food = spawn_food(&snake, self.width, self.height, &mut rng);
        proof {
            assert(snake@ =~= seq![self.start]);
            lemma_fresh_grid_has_room(self.start, self.width as int, self.height as int);
        }
        self.snake = snake;
        self.heading = Direction::Right;
        self.food = food;
        self.score = 0;
        self.state = SimulationState::Running;
        self.rng = rng;
    }

    /// Number of columns of the grid.
    pub fn width(&self) -> (width: i32)
        ensures
            width == self@.width,
    {
        self.width
    }

    /// Number of rows of the grid.
    pub fn height(&self) -> (height: i32)
        ensures
            height == self@.height,
    {
        self.height
    }

    /// The cells of the snake, head first.
    pub fn snake(&self) -> (cells: &Vec<Position>)
        ensures
            cells@ == self@.snake,
    {
        &self.snake
    }

    /// The cell of the head, for a view that follows the snake.
    pub fn head(&self) -> (head: Position)
        requires
            self.wf(),
        ensures
            head == self@.head(),
            in_bounds(head, self@.width, self@.height),
    {
        self.snake[0]
    }

    /// The direction of the last step.
    pub fn heading(&self) -> (heading: Direction)
        ensures
            heading == self@.heading,
    {
        self.heading
    }

    /// The food cell. There is none only when the snake fills the grid.
    pub fn food(&self) -> (food: Option<Position>)
        ensures
            food == self@.food,
    {
        self.food
    }

    /// Number of times the snake has eaten.
    pub fn score(&self) -> (score: u64)
        ensures
            score == self@.score,
    {
        self.score
    }

    /// Whether the game still runs.
    pub fn state(&self) -> (state: SimulationState)
        ensures
            state == self@.state,
    {
        self.state
    }
}

} // verus!
