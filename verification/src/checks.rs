//! Run-time checks of a snake and of a food cell against a grid.

use crate::grid::{in_bounds, on_grid, Position};
use crate::model::{food_fits, grid_full, snake_fits};
use crate::placement::{count_free_cells, lemma_full_means_none_free, occupies, occupies_first};
use vstd::prelude::*;

verus! {

/// Whether `snake` has a head, stays on the grid and takes no cell twice.
pub fn snake_is_valid(snake: &Vec<Position>, width: i32, height: i32) -> (ok: bool)
    ensures
        ok == snake_fits(snake@, width as int, height as int),
{
    if snake.len() == 0 {
        return false;
    }
    let mut i: usize = 0;
    while i < snake.len()
        invariant
            i <= snake.len(),
            forall|j: int|
                0 <= j < i ==> in_bounds(#[trigger] snake@[j], width as int, height as int),
            forall|a: int, b: int| 0 <= a < b < i ==> snake@[a] != snake@[b],
        decreases snake.len() - i,
    {
        let p = snake[i];
        if !on_grid(p, width, height) {
            return false;
        }
        if occupies_first(snake, i, p) {
            proof {
                let first = snake@.take(i as int);
                let at = choose|j: int| 0 <= j < first.len() && first[j] == p;
                assert(snake@[at] == snake@[i as int]);
            }
            return false;
        }
        proof {
            let first = snake@.take(i as int);
            assert forall|a: int| 0 <= a < i implies snake@[a] != p by {
                if snake@[a] == p {
                    assert(first[a] == p);
                }
            }
        }
        i = i + 1;
    }
    true
}

/// Whether `food` may lie beside `snake`: on the grid and off the snake, or
/// absent when the snake leaves no cell free.
pub fn food_is_valid(snake: &Vec<Position>, width: i32, height: i32, food: Option<Position>) -> (ok:
    bool)
    ensures
        ok == food_fits(snake@, width as int, height as int, food),
{
    match food {
        Some(f) => on_grid(f, width, height) && !occupies(snake, f),
        None => {
            proof {
                if width >= 1 && height >= 1 {
                    lemma_full_means_none_free(snake@, width as int, height as int);
                } else {
                    assert(grid_full(snake@, width as int, height as int));
                }
            }
            count_free_cells(snake, width, height) == 0
        },
    }
}

} // verus!
