//! Taken and free cells, and the choice of a free cell for the food.
//!
//! The cells of a grid are counted row by row: cell `(x, y)` has the index
//! `y * width + x`. A draw `k` below the number of free cells picks the free
//! cell that has exactly `k` free cells before it, so that equally likely
//! draws give equally likely cells.

use crate::grid::{in_bounds, Position};
use crate::model::grid_full;
use vstd::arithmetic::div_mod::{
    lemma_fundamental_div_mod, lemma_fundamental_div_mod_converse, lemma_mod_bound,
    lemma_multiply_divide_lt,
};
use vstd::prelude::*;

verus! {

/// The place of cell `p` in the row-by-row count of a grid's cells.
pub open spec fn cell_index(p: Position, width: int) -> int {
    p.y * width + p.x
}

/// The cell at place `index` of the row-by-row count.
pub open spec fn cell_at(index: int, width: int) -> Position {
    Position { x: (index % width) as i32, y: (index / width) as i32 }
}

/// How many of the first `n` cells of the count `snake` leaves free.
pub open spec fn free_before(snake: Seq<Position>, width: int, n: int) -> nat
    decreases n,
{
    if n <= 0 {
        0
    } else {
        free_before(snake, width, n - 1) + if snake.contains(cell_at(n - 1, width)) {
            0nat
        } else {
            1nat
        }
    }
}

/// How many cells of the grid `snake` leaves free. A grid without a column
/// or a row has no cells.
pub open spec fn free_count(snake: Seq<Position>, width: int, height: int) -> nat {
    if width >= 1 && height >= 1 {
        free_before(snake, width, width * height)
    } else {
        0
    }
}

/// `cell` is the free cell number `k`, counted from zero: it lies on the
/// grid, `snake` does not take it, and `k` free cells come before it.
pub open spec fn is_nth_free(
    snake: Seq<Position>,
    width: int,
    height: int,
    k: nat,
    cell: Position,
) -> bool {
    &&& in_bounds(cell, width, height)
    &&& !snake.contains(cell)
    &&& free_before(snake, width, cell_index(cell, width)) == k
}

/// A cell of the grid stands at its own index, and the index is below the
/// number of cells.
pub proof fn lemma_cell_has_index(p: Position, width: int, height: int)
    requires
        in_bounds(p, width, height),
    ensures
        0 <= cell_index(p, width) < width * height,
        cell_at(cell_index(p, width), width) == p,
{
    lemma_fundamental_div_mod_converse(p.y * width + p.x, width, p.y as int, p.x as int);
    assert(0 <= p.y * width && p.y * width + width <= width * height) by (nonlinear_arith)
        requires
            0 <= p.y < height,
            0 < width,
    ;
}

/// Every index below the number of cells is the index of a cell of the grid.
pub proof fn lemma_index_has_cell(index: int, width: int, height: int)
    requires
        1 <= width <= i32::MAX,
        1 <= height <= i32::MAX,
        0 <= index < width * height,
    ensures
        in_bounds(cell_at(index, width), width, height),
        cell_index(cell_at(index, width), width) == index,
{
    lemma_fundamental_div_mod(index, width);
    lemma_mod_bound(index, width);
    lemma_multiply_divide_lt(index, width, height);
    assert(0 <= index / width) by (nonlinear_arith)
        requires
            index == width * (index / width) + index % width,
            0 <= index,
            0 <= index % width < width,
    ;
    assert(width * (index / width) == (index / width) * width) by (nonlinear_arith);
}

/// No more cells are free among the first `n` than there are.
pub proof fn lemma_free_before_bound(snake: Seq<Position>, width: int, n: int)
    requires
        0 <= n,
    ensures
        free_before(snake, width, n) <= n,
    decreases n,
{
    if n > 0 {
        lemma_free_before_bound(snake, width, n - 1);
    }
}

/// Counting further never lowers the count.
pub proof fn lemma_free_before_grows(snake: Seq<Position>, width: int, a: int, b: int)
    requires
        a <= b,
    ensures
        free_before(snake, width, a) <= free_before(snake, width, b),
    decreases b - a,
{
    if a < b {
        lemma_free_before_grows(snake, width, a, b - 1);
    }
}

/// A grid is full exactly when the count of its free cells is zero.
pub proof fn lemma_full_means_none_free(snake: Seq<Position>, width: int, height: int)
    requires
        1 <= width <= i32::MAX,
        1 <= height <= i32::MAX,
    ensures
        grid_full(snake, width, height) <==> free_count(snake, width, height) == 0,
{
    if grid_full(snake, width, height) {
        assert(0 <= width * height) by (nonlinear_arith)
            requires
                1 <= width,
                1 <= height,
        ;
        lemma_full_prefix(snake, width, height, width * height);
    }
    if free_count(snake, width, height) == 0 {
        assert forall|p: Position| in_bounds(p, width, height) implies #[trigger] snake.contains(
            p,
        ) by {
            lemma_free_cell_counts(snake, width, height, p);
        }
    }
}

proof fn lemma_full_prefix(snake: Seq<Position>, width: int, height: int, n: int)
    requires
        1 <= width <= i32::MAX,
        1 <= height <= i32::MAX,
        0 <= n <= width * height,
        grid_full(snake, width, height),
    ensures
        free_before(snake, width, n) == 0,
    decreases n,
{
    if n > 0 {
        lemma_full_prefix(snake, width, height, n - 1);
        lemma_index_has_cell(n - 1, width, height);
    }
}

/// A free cell of the grid is counted: fewer free cells come before it than
/// the grid has in all.
pub proof fn lemma_free_cell_counts(snake: Seq<Position>, width: int, height: int, p: Position)
    requires
        in_bounds(p, width, height),
    ensures
        !snake.contains(p) ==> free_before(snake, width, cell_index(p, width)) < free_count(
            snake,
            width,
            height,
        ),
{
    lemma_cell_has_index(p, width, height);
    let i = cell_index(p, width);
    lemma_free_before_grows(snake, width, i + 1, width * height);
}

/// No two free cells have the same number of free cells before them.
pub proof fn lemma_nth_free_is_unique(
    snake: Seq<Position>,
    width: int,
    height: int,
    k: nat,
    a: Position,
    b: Position,
)
    requires
        is_nth_free(snake, width, height, k, a),
        is_nth_free(snake, width, height, k, b),
    ensures
        a == b,
{
    lemma_cell_has_index(a, width, height);
    lemma_cell_has_index(b, width, height);
    let i = cell_index(a, width);
    let j = cell_index(b, width);
    if i < j {
        lemma_free_before_grows(snake, width, i + 1, j);
    } else if j < i {
        lemma_free_before_grows(snake, width, j + 1, i);
    }
}

/// For every number below the count of free cells there is a free cell
/// with that many free cells before it.
pub proof fn lemma_nth_free_exists(snake: Seq<Position>, width: int, height: int, k: nat)
    requires
        1 <= width <= i32::MAX,
        1 <= height <= i32::MAX,
        k < free_count(snake, width, height),
    ensures
        exists|cell: Position| is_nth_free(snake, width, height, k, cell),
{
    assert(0 <= width * height) by (nonlinear_arith)
        requires
            1 <= width,
            1 <= height,
    ;
    let index = lemma_nth_free_index(snake, width, k, width * height);
    lemma_index_has_cell(index, width, height);
    assert(is_nth_free(snake, width, height, k, cell_at(index, width)));
}

proof fn lemma_nth_free_index(snake: Seq<Position>, width: int, k: nat, n: int) -> (index: int)
    requires
        0 <= n,
        k < free_before(snake, width, n),
    ensures
        0 <= index < n,
        !snake.contains(cell_at(index, width)),
        free_before(snake, width, index) == k,
    decreases n,
{
    if k < free_before(snake, width, n - 1) {
        lemma_nth_free_index(snake, width, k, n - 1)
    } else {
        n - 1
    }
}

/// The cells of a snake and the free cells make up the grid: a snake that
/// stays on the grid and takes no cell twice leaves free as many cells as
/// the grid has more than the snake.
pub proof fn lemma_free_and_taken(snake: Seq<Position>, width: int, height: int)
    requires
        1 <= width <= i32::MAX,
        1 <= height <= i32::MAX,
        forall|i: int| 0 <= i < snake.len() ==> in_bounds(#[trigger] snake[i], width, height),
        snake.no_duplicates(),
    ensures
        free_count(snake, width, height) + snake.len() == width * height,
    decreases snake.len(),
{
    assert(0 <= width * height) by (nonlinear_arith)
        requires
            1 <= width,
            1 <= height,
    ;
    if snake.len() == 0 {
        lemma_nothing_taken(snake, width, width * height);
    } else {
        lemma_free_and_taken(snake.drop_last(), width, height);
        lemma_one_more_taken(snake, width, height, width * height);
        lemma_cell_has_index(snake.last(), width, height);
    }
}

proof fn lemma_nothing_taken(snake: Seq<Position>, width: int, n: int)
    requires
        snake.len() == 0,
        0 <= n,
    ensures
        free_before(snake, width, n) == n,
    decreases n,
{
    if n > 0 {
        lemma_nothing_taken(snake, width, n - 1);
    }
}

proof fn lemma_one_more_taken(snake: Seq<Position>, width: int, height: int, n: int)
    requires
        1 <= width <= i32::MAX,
        1 <= height <= i32::MAX,
        0 <= n <= width * height,
        snake.len() > 0,
        in_bounds(snake.last(), width, height),
        !snake.drop_last().contains(snake.last()),
    ensures
        free_before(snake.drop_last(), width, n) == free_before(snake, width, n) + if cell_index(
            snake.last(),
            width,
        ) < n {
            1nat
        } else {
            0nat
        },
    decreases n,
{
    if n > 0 {
        lemma_one_more_taken(snake, width, height, n - 1);
        let rest = snake.drop_last();
        let last = snake.last();
        let here = cell_at(n - 1, width);
        lemma_index_has_cell(n - 1, width, height);
        lemma_cell_has_index(last, width, height);
        if here == last {
            assert(snake[snake.len() - 1] == here);
        } else {
            if snake.contains(here) {
                let i = choose|i: int| 0 <= i < snake.len() && snake[i] == here;
                assert(rest[i] == here);
            }
            if rest.contains(here) {
                let i = choose|i: int| 0 <= i < rest.len() && rest[i] == here;
                assert(snake[i] == here);
            }
        }
    }
}

/// What one more cell adds to the count when the cells are walked row by
/// row.
proof fn lemma_scan_step(snake: Seq<Position>, width: i32, height: i32, x: i32, y: i32)
    requires
        0 <= x < width,
        0 <= y < height,
    ensures
        0 <= y * width + x < width * height,
        width * height <= 0x4000_0000_0000_0000,
        cell_at(y * width + x, width as int) == (Position { x, y }),
        free_before(snake, width as int, y * width + x + 1) == free_before(
            snake,
            width as int,
            y * width + x,
        ) + if snake.contains(Position { x, y }) {
            0nat
        } else {
            1nat
        },
{
    let p = Position { x, y };
    lemma_cell_has_index(p, width as int, height as int);
    assert(width * height <= 0x4000_0000_0000_0000) by (nonlinear_arith)
        requires
            0 < width <= 0x7fff_ffff,
            0 < height <= 0x7fff_ffff,
    ;
}

/// Whether one of the first `n` cells of `snake` is `p`.
pub fn occupies_first(snake: &Vec<Position>, n: usize, p: Position) -> (found: bool)
    requires
        n <= snake.len(),
    ensures
        found == snake@.take(n as int).contains(p),
{
    let mut i: usize = 0;
    while i < n
        invariant
            i <= n <= snake.len(),
            forall|j: int| 0 <= j < i ==> snake@[j] != p,
        decreases n - i,
    {
        if snake[i] == p {
            assert(snake@.take(n as int)[i as int] == p);
            return true;
        }
        i = i + 1;
    }
    false
}

/// Whether `snake` takes the cell `p`.
pub fn occupies(snake: &Vec<Position>, p: Position) -> (found: bool)
    ensures
        found == snake@.contains(p),
{
    assert(snake@.take(snake.len() as int) =~= snake@);
    occupies_first(snake, snake.len(), p)
}

/// Counts the cells of the grid that `snake` leaves free.
pub fn count_free_cells(snake: &Vec<Position>, width: i32, height: i32) -> (free: u64)
    ensures
        free == free_count(snake@, width as int, height as int),
{
    if width < 1 || height < 1 {
        return 0;
    }
    let mut seen: u64 = 0;
    let mut y: i32 = 0;
    while y < height
        invariant
            width >= 1,
            0 <= y <= height,
            seen == free_before(snake@, width as int, y * width),
        decreases height - y,
    {
        let mut x: i32 = 0;
        while x < width
            invariant
                0 <= x <= width,
                0 <= y < height,
                seen == free_before(snake@, width as int, y * width + x),
            decreases width - x,
        {
            proof {
                lemma_scan_step(snake@, width, height, x, y);
                lemma_free_before_bound(snake@, width as int, y * width + x);
            }
            if !occupies(snake, Position { x, y }) {
                seen = seen + 1;
            }
            x = x + 1;
        }
        assert(y * width + width == (y + 1) * width) by (nonlinear_arith);
        y = y + 1;
    }
    assert(height * width == width * height) by (nonlinear_arith);
    seen
}

/// The free cell that has exactly `k` free cells before it in the
/// row-by-row count, or `None` when the grid has no more than `k` free
/// cells.
pub fn nth_free_cell(snake: &Vec<Position>, width: i32, height: i32, k: u64) -> (cell: Option<
    Position,
>)
    ensures
        cell is Some <==> k < free_count(snake@, width as int, height as int),
        cell matches Some(c) ==> is_nth_free(snake@, width as int, height as int, k as nat, c),
{
    if width < 1 || height < 1 {
        return None;
    }
    let mut seen: u64 = 0;
    let mut y: i32 = 0;
    while y < height
        invariant
            width >= 1,
            0 <= y <= height,
            seen == free_before(snake@, width as int, y * width),
            seen <= k,
        decreases height - y,
    {
        let mut x: i32 = 0;
        while x < width
            invariant
                0 <= x <= width,
                0 <= y < height,
                seen == free_before(snake@, width as int, y * width + x),
                seen <= k,
            decreases width - x,
        {
            let here = Position { x, y };
            proof {
                lemma_scan_step(snake@, width, height, x, y);
                lemma_free_before_bound(snake@, width as int, y * width + x);
            }
            if !occupies(snake, here) {
                if seen == k {
                    proof {
                        lemma_free_cell_counts(snake@, width as int, height as int, here);
                    }
                    return Some(here);
                }
                seen = seen + 1;
            }
            x = x + 1;
        }
        assert(y * width + width == (y + 1) * width) by (nonlinear_arith);
        y = y + 1;
    }
    assert(height * width == width * height) by (nonlinear_arith);
    None
}

} // verus!
