//! What holds of every game, proved from the transition rules.

use crate::grid::{in_bounds, step, Direction, Position};
use crate::model::{
    grid_full, meals, resolve, run, snake_fits, SimulationState, SimulationView, TickEvent, Turn,
};
use crate::placement::{free_count, lemma_free_and_taken, lemma_full_means_none_free};
use vstd::prelude::*;

verus! {

/// A step never leaves the grid, wherever it starts: each coordinate of the
/// cell reached lies between zero and the last column or row.
pub proof fn lemma_step_stays_on_grid(from: Position, dir: Direction, width: int, height: int)
    requires
        1 <= width <= i32::MAX,
        1 <= height <= i32::MAX,
    ensures
        in_bounds(step(from, dir, width, height), width, height),
{
}

/// A request to turn straight back never changes the heading.
pub proof fn lemma_reversal_is_ignored(game: SimulationView, placed: Option<Position>)
    ensures
        resolve(game.heading, Some(game.heading.reversed())) == game.heading,
        game.next(Some(game.heading.reversed()), placed).heading == game.heading,
{
}

/// Once the game is over a tick changes nothing and reports `Ignored`.
pub proof fn lemma_game_over_is_final(
    game: SimulationView,
    requested: Option<Direction>,
    placed: Option<Position>,
)
    requires
        game.state is GameOver,
    ensures
        game.next(requested, placed) == game,
        game.event(requested) == TickEvent::Ignored,
{
}

/// The only way out of `Running` is a collision, and nothing leads out of
/// `GameOver`.
pub proof fn lemma_state_changes_only_on_collision(
    game: SimulationView,
    requested: Option<Direction>,
    placed: Option<Position>,
)
    ensures
        game.next(requested, placed).state == if game.event(requested) is Collided {
            SimulationState::GameOver
        } else {
            game.state
        },
        game.event(requested) is Collided ==> game.state is Running,
{
}

/// The score rises by exactly one when the snake eats and stays as it is
/// on every other tick.
pub proof fn lemma_score_counts_meals(
    game: SimulationView,
    requested: Option<Direction>,
    placed: Option<Position>,
)
    ensures
        game.next(requested, placed).score == game.score + if game.event(requested) is Ate {
            1nat
        } else {
            0nat
        },
{
}

/// The snake grows by exactly one cell when it eats and keeps its length on
/// every other tick.
pub proof fn lemma_length_counts_meals(
    game: SimulationView,
    requested: Option<Direction>,
    placed: Option<Position>,
)
    requires
        game.snake.len() >= 1,
    ensures
        game.next(requested, placed).snake.len() == game.snake.len() + if game.event(requested) is Ate {
            1nat
        } else {
            0nat
        },
{
}

/// After a tick the snake still has a head, lies on the grid and takes no
/// cell twice, whatever food is put down.
pub proof fn lemma_tick_keeps_snake(
    game: SimulationView,
    requested: Option<Direction>,
    placed: Option<Position>,
)
    requires
        game.inv(),
    ensures
        snake_fits(game.next(requested, placed).snake, game.width, game.height),
        in_bounds(game.next(requested, placed).head(), game.width, game.height),
{
    let after = game.next(requested, placed);
    let to = game.next_head(requested);
    lemma_step_stays_on_grid(game.head(), game.next_heading(requested), game.width, game.height);
    if game.state is GameOver || game.collides(requested) {
    } else {
        let body = game.remaining_body(requested);
        assert(after.snake =~= seq![to] + body);
        assert forall|i: int, j: int|
            0 <= i < after.snake.len() && 0 <= j < after.snake.len() && i != j implies after.snake[i]
            != after.snake[j] by {
            if i > 0 && j > 0 {
                assert(game.snake[i - 1] != game.snake[j - 1]);
            } else if i > 0 {
                assert(body.contains(body[i - 1]));
            } else {
                assert(body.contains(body[j - 1]));
            }
        }
    }
}

/// A tick leads from a game to a game: afterwards the snake still lies on
/// the grid and takes no cell twice, the head is on the grid, the food
/// lies beside the snake, and the score still counts the growth. The food
/// put down after a meal has to lie beside the grown snake.
pub proof fn lemma_tick_keeps_inv(
    game: SimulationView,
    requested: Option<Direction>,
    placed: Option<Position>,
)
    requires
        game.inv(),
        game.may_place(requested, placed),
    ensures
        game.next(requested, placed).inv(),
        in_bounds(game.next(requested, placed).head(), game.width, game.height),
        game.next(requested, placed).food matches Some(f) ==> !game.next(
            requested,
            placed,
        ).snake.contains(f),
{
    let after = game.next(requested, placed);
    let to = game.next_head(requested);
    lemma_tick_keeps_snake(game, requested, placed);
    if game.state is GameOver || game.collides(requested) || game.grows(requested) {
    } else {
        let body = game.snake.drop_last();
        assert(after.snake =~= seq![to] + body);
        match game.food {
            Some(f) => {
                assert forall|i: int| 0 <= i < after.snake.len() implies after.snake[i] != f by {
                    if i > 0 {
                        assert(game.snake.contains(game.snake[i - 1]));
                    }
                }
            },
            None => {
                assert forall|p: Position|
                    in_bounds(p, game.width, game.height) implies #[trigger] after.snake.contains(
                    p,
                ) by {
                    assert(game.snake.contains(p));
                    let at = choose|i: int| 0 <= i < game.snake.len() && game.snake[i] == p;
                    if at < game.snake.len() - 1 {
                        assert(after.snake[at + 1] == p);
                    } else {
                        assert(game.snake.contains(to));
                        let hit = choose|i: int| 0 <= i < game.snake.len() && game.snake[i] == to;
                        if hit < game.snake.len() - 1 {
                            assert(body[hit] == to);
                        }
                        assert(after.snake[0] == p);
                    }
                }
            },
        }
    }
}

/// The snake and the free cells make up the grid. So the snake never has
/// more cells than the grid, the score stays below the number of cells, and
/// the food is absent exactly when the snake has taken every cell.
pub proof fn lemma_snake_and_room(game: SimulationView)
    requires
        game.inv(),
    ensures
        game.snake.len() + free_count(game.snake, game.width, game.height) == game.width
            * game.height,
        game.snake.len() <= game.width * game.height,
        game.score < game.width * game.height,
        game.food is None <==> game.snake.len() == game.width * game.height,
{
    lemma_free_and_taken(game.snake, game.width, game.height);
    lemma_full_means_none_free(game.snake, game.width, game.height);
    if let Some(f) = game.food {
        assert(!grid_full(game.snake, game.width, game.height));
    }
}

/// The food put down at each meal of the ticks `turns` lies beside the
/// snake as it is after that meal.
pub open spec fn fair(game: SimulationView, turns: Seq<Turn>) -> bool
    decreases turns.len(),
{
    turns.len() > 0 ==> {
        &&& fair(game, turns.drop_last())
        &&& run(game, turns.drop_last()).may_place(turns.last().requested, turns.last().placed)
    }
}

/// Every state that ticks lead to from a game is a game: while the food is
/// put down beside the snake, the conditions of `inv` hold after every
/// tick.
pub proof fn lemma_run_keeps_inv(game: SimulationView, turns: Seq<Turn>)
    requires
        game.inv(),
        fair(game, turns),
    ensures
        run(game, turns).inv(),
    decreases turns.len(),
{
    if turns.len() > 0 {
        lemma_run_keeps_inv(game, turns.drop_last());
        lemma_tick_keeps_inv(
            run(game, turns.drop_last()),
            turns.last().requested,
            turns.last().placed,
        );
    }
}

/// After any number of ticks the snake is as much longer, and the score as
/// much higher, as there were meals among them. A game that began with a
/// snake of one cell therefore has a snake of one cell more than its meals.
pub proof fn lemma_run_counts_meals(game: SimulationView, turns: Seq<Turn>)
    requires
        game.snake.len() >= 1,
    ensures
        run(game, turns).snake.len() == game.snake.len() + meals(game, turns),
        run(game, turns).score == game.score + meals(game, turns),
        game.snake.len() == 1 ==> run(game, turns).snake.len() == 1 + meals(game, turns),
    decreases turns.len(),
{
    if turns.len() > 0 {
        let before = run(game, turns.drop_last());
        lemma_run_counts_meals(game, turns.drop_last());
        lemma_length_counts_meals(before, turns.last().requested, turns.last().placed);
        lemma_score_counts_meals(before, turns.last().requested, turns.last().placed);
    }
}

} // verus!
