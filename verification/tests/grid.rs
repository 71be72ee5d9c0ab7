use snake_game::{
    clamp_position, direction_from_keys, effective_direction, grid_center, grid_is_valid,
    next_head, on_grid, Direction, Position, GRID_HEIGHT, GRID_WIDTH,
};

fn cell(x: i32, y: i32) -> Position {
    Position { x, y }
}

#[test]
fn default_grid_is_twelve_by_nine() {
    assert_eq!(GRID_WIDTH, 12);
    assert_eq!(GRID_HEIGHT, 9);
    assert!(grid_is_valid(GRID_WIDTH, GRID_HEIGHT));
}

#[test]
fn opposite_pairs_up_the_directions() {
    assert_eq!(Direction::Up.opposite(), Direction::Down);
    assert_eq!(Direction::Down.opposite(), Direction::Up);
    assert_eq!(Direction::Left.opposite(), Direction::Right);
    assert_eq!(Direction::Right.opposite(), Direction::Left);
}

#[test]
fn unit_vectors_point_along_the_axes() {
    assert_eq!(Direction::Up.unit_vector(), (0, 1));
    assert_eq!(Direction::Down.unit_vector(), (0, -1));
    assert_eq!(Direction::Left.unit_vector(), (-1, 0));
    assert_eq!(Direction::Right.unit_vector(), (1, 0));
}

#[test]
fn next_head_moves_one_cell() {
    assert_eq!(next_head(cell(2, 2), Direction::Up, 5, 5), cell(2, 3));
    assert_eq!(next_head(cell(2, 2), Direction::Down, 5, 5), cell(2, 1));
    assert_eq!(next_head(cell(2, 2), Direction::Left, 5, 5), cell(1, 2));
    assert_eq!(next_head(cell(2, 2), Direction::Right, 5, 5), cell(3, 2));
}

#[test]
fn next_head_stops_at_every_edge() {
    assert_eq!(next_head(cell(4, 2), Direction::Right, 5, 5), cell(4, 2));
    assert_eq!(next_head(cell(0, 2), Direction::Left, 5, 5), cell(0, 2));
    assert_eq!(next_head(cell(2, 4), Direction::Up, 5, 5), cell(2, 4));
    assert_eq!(next_head(cell(2, 0), Direction::Down, 5, 5), cell(2, 0));
    assert_eq!(next_head(cell(0, 0), Direction::Right, 1, 1), cell(0, 0));
}

#[test]
fn next_head_clamps_each_axis_on_its_own() {
    assert_eq!(next_head(cell(100, -5), Direction::Up, 5, 5), cell(4, 0));
    assert_eq!(next_head(cell(-7, 2), Direction::Right, 5, 5), cell(0, 2));
    assert_eq!(next_head(cell(3, 9), Direction::Left, 5, 5), cell(2, 4));
}

#[test]
fn next_head_does_not_overflow() {
    assert_eq!(next_head(cell(i32::MAX, i32::MIN), Direction::Right, 5, 5), cell(4, 0));
    assert_eq!(next_head(cell(i32::MIN, i32::MAX), Direction::Left, 5, 5), cell(0, 4));
    assert_eq!(next_head(cell(0, i32::MAX), Direction::Up, 3, i32::MAX), cell(0, i32::MAX - 1));
    assert_eq!(next_head(cell(0, i32::MIN), Direction::Down, 3, 3), cell(0, 0));
}

#[test]
fn next_head_always_lands_on_the_grid() {
    let dirs = [Direction::Up, Direction::Down, Direction::Left, Direction::Right];
    for width in 1..5 {
        for height in 1..5 {
            for x in -2..7 {
                for y in -2..7 {
                    for dir in dirs {
                        let to = next_head(cell(x, y), dir, width, height);
                        assert!(0 <= to.x && to.x <= width - 1);
                        assert!(0 <= to.y && to.y <= height - 1);
                        assert!(on_grid(to, width, height));
                    }
                }
            }
        }
    }
}

#[test]
fn clamp_position_moves_a_cell_onto_the_grid() {
    assert_eq!(clamp_position(cell(2, 3), 5, 5), cell(2, 3));
    assert_eq!(clamp_position(cell(-1, 7), 5, 5), cell(0, 4));
    assert_eq!(clamp_position(cell(9, -9), 5, 4), cell(4, 0));
    assert_eq!(clamp_position(cell(i32::MAX, i32::MIN), 1, 1), cell(0, 0));
}

#[test]
fn grid_center_is_the_middle_cell() {
    assert_eq!(grid_center(12, 9), cell(6, 4));
    assert_eq!(grid_center(5, 5), cell(2, 2));
    assert_eq!(grid_center(25, 19), cell(12, 9));
    assert_eq!(grid_center(1, 1), cell(0, 0));
    assert_eq!(grid_center(2, 1), cell(1, 0));
}

#[test]
fn grid_center_of_no_grid_is_the_origin() {
    assert_eq!(grid_center(0, 0), cell(0, 0));
    assert_eq!(grid_center(-3, 4), cell(0, 2));
    assert_eq!(grid_center(4, -3), cell(2, 0));
}

#[test]
fn grid_needs_two_cells() {
    assert!(!grid_is_valid(1, 1));
    assert!(!grid_is_valid(0, 0));
    assert!(!grid_is_valid(0, 5));
    assert!(!grid_is_valid(5, 0));
    assert!(!grid_is_valid(-2, -3));
    assert!(!grid_is_valid(-1, 4));
    assert!(grid_is_valid(2, 1));
    assert!(grid_is_valid(1, 2));
    assert!(grid_is_valid(5, 5));
    assert!(grid_is_valid(i32::MAX, i32::MAX));
}

#[test]
fn on_grid_tells_inside_from_outside() {
    assert!(on_grid(cell(0, 0), 3, 2));
    assert!(on_grid(cell(2, 1), 3, 2));
    assert!(!on_grid(cell(3, 1), 3, 2));
    assert!(!on_grid(cell(2, 2), 3, 2));
    assert!(!on_grid(cell(-1, 0), 3, 2));
    assert!(!on_grid(cell(0, -1), 3, 2));
    assert!(!on_grid(cell(0, 0), 0, 0));
}

#[test]
fn no_key_asks_for_nothing() {
    assert_eq!(direction_from_keys(false, false, false, false), None);
}

#[test]
fn one_key_asks_for_its_direction() {
    assert_eq!(direction_from_keys(true, false, false, false), Some(Direction::Up));
    assert_eq!(direction_from_keys(false, true, false, false), Some(Direction::Down));
    assert_eq!(direction_from_keys(false, false, true, false), Some(Direction::Left));
    assert_eq!(direction_from_keys(false, false, false, true), Some(Direction::Right));
}

#[test]
fn held_keys_rank_up_down_left_right() {
    for code in 0..16 {
        let up = code & 8 != 0;
        let down = code & 4 != 0;
        let left = code & 2 != 0;
        let right = code & 1 != 0;
        let expected = if up {
            Some(Direction::Up)
        } else if down {
            Some(Direction::Down)
        } else if left {
            Some(Direction::Left)
        } else if right {
            Some(Direction::Right)
        } else {
            None
        };
        assert_eq!(direction_from_keys(up, down, left, right), expected);
    }
    assert_eq!(direction_from_keys(true, true, true, true), Some(Direction::Up));
    assert_eq!(direction_from_keys(false, true, true, true), Some(Direction::Down));
    assert_eq!(direction_from_keys(false, false, true, true), Some(Direction::Left));
}

#[test]
fn effective_direction_follows_a_request() {
    assert_eq!(effective_direction(Direction::Right, Some(Direction::Up)), Direction::Up);
    assert_eq!(effective_direction(Direction::Right, Some(Direction::Down)), Direction::Down);
    assert_eq!(effective_direction(Direction::Right, Some(Direction::Right)), Direction::Right);
    assert_eq!(effective_direction(Direction::Up, Some(Direction::Left)), Direction::Left);
}

#[test]
fn effective_direction_keeps_heading_without_request() {
    assert_eq!(effective_direction(Direction::Up, None), Direction::Up);
    assert_eq!(effective_direction(Direction::Left, None), Direction::Left);
}

#[test]
fn effective_direction_never_turns_straight_back() {
    let dirs = [Direction::Up, Direction::Down, Direction::Left, Direction::Right];
    for heading in dirs {
        assert_eq!(effective_direction(heading, Some(heading.opposite())), heading);
    }
    assert_eq!(effective_direction(Direction::Right, Some(Direction::Left)), Direction::Right);
    assert_eq!(effective_direction(Direction::Up, Some(Direction::Down)), Direction::Up);
}
