use snake_game::{
    effective_direction, next_head, Direction, Position, Simulation, SimulationState, TickEvent,
};

struct Lcg(u64);

impl Lcg {
    fn next(&mut self) -> u64 {
        self.0 = self.0.wrapping_mul(6364136223846793005).wrapping_add(1442695040888963407);
        self.0 >> 33
    }

    fn request(&mut self) -> Option<Direction> {
        match self.next() % 6 {
            0 => Some(Direction::Up),
            1 => Some(Direction::Down),
            2 => Some(Direction::Left),
            3 => Some(Direction::Right),
            _ => None,
        }
    }
}

fn check_is_a_game(g: &Simulation) {
    let snake = g.snake();
    assert!(!snake.is_empty());
    for (i, c) in snake.iter().enumerate() {
        assert!(0 <= c.x && c.x < g.width() && 0 <= c.y && c.y < g.height());
        assert!(!snake[..i].contains(c));
    }
    assert_eq!(g.head(), snake[0]);
    assert_eq!(g.score() + 1, snake.len() as u64);
    match g.food() {
        Some(f) => {
            assert!(0 <= f.x && f.x < g.width() && 0 <= f.y && f.y < g.height());
            assert!(!snake.contains(&f));
        }
        None => assert_eq!(snake.len() as i64, g.width() as i64 * g.height() as i64),
    }
}

fn play(width: i32, height: i32, start: Position, seed: u64, ticks: usize) {
    let mut g = Simulation::new(width, height, start, seed).unwrap();
    let mut keys = Lcg(seed ^ 0x9e37_79b9_7f4a_7c15);
    let mut meals: usize = 0;
    check_is_a_game(&g);
    for _ in 0..ticks {
        let asked = keys.request();
        let snake: Vec<Position> = g.snake().clone();
        let (heading, food, score, state) = (g.heading(), g.food(), g.score(), g.state());
        let event = g.tick(asked);
        check_is_a_game(&g);
        if state == SimulationState::GameOver {
            assert_eq!(event, TickEvent::Ignored);
            assert_eq!(g.snake(), &snake);
            assert_eq!((g.heading(), g.food(), g.score(), g.state()), (heading, food, score, state));
            g.reset();
            meals = 0;
            check_is_a_game(&g);
            assert_eq!(g.snake(), &vec![snake_game::clamp_position(start, width, height)]);
            continue;
        }
        let followed = effective_direction(heading, asked);
        let to = next_head(snake[0], followed, width, height);
        assert_eq!(g.heading(), followed);
        let grows = food == Some(to);
        let kept = if grows { snake.len() } else { snake.len() - 1 };
        if snake[..kept].contains(&to) {
            assert_eq!(event, TickEvent::Collided);
            assert_eq!(g.state(), SimulationState::GameOver);
            assert_eq!(g.snake(), &snake);
            assert_eq!((g.food(), g.score()), (food, score));
        } else if grows {
            meals += 1;
            assert_eq!(event, TickEvent::Ate { new_score: score + 1 });
            assert_eq!(g.score(), score + 1);
            assert_eq!(g.snake().len(), snake.len() + 1);
            assert_eq!(g.snake()[0], to);
            assert_eq!(&g.snake()[1..], &snake[..]);
            assert_eq!(g.state(), SimulationState::Running);
        } else {
            assert_eq!(event, TickEvent::Moved);
            assert_eq!(g.score(), score);
            assert_eq!(g.snake().len(), snake.len());
            assert_eq!(g.snake()[0], to);
            assert_eq!(&g.snake()[1..], &snake[..kept]);
            assert_eq!(g.food(), food);
            assert_eq!(g.state(), SimulationState::Running);
        }
        assert_eq!(g.snake().len(), 1 + meals);
        assert_eq!(g.score(), meals as u64);
    }
}

#[test]
fn long_games_on_the_default_grid_stay_games() {
    for seed in 0..20 {
        play(12, 9, Position { x: 6, y: 4 }, seed, 1500);
    }
}

#[test]
fn long_games_on_small_grids_stay_games() {
    for seed in 0..40 {
        play(2, 1, Position { x: 0, y: 0 }, seed, 60);
        play(1, 2, Position { x: 0, y: 1 }, seed, 60);
        play(2, 2, Position { x: 1, y: 1 }, seed, 200);
        play(3, 3, Position { x: 1, y: 1 }, seed, 400);
        play(4, 1, Position { x: 0, y: 0 }, seed, 100);
    }
}

#[test]
fn long_games_on_a_large_grid_stay_games() {
    for seed in 100..105 {
        play(25, 19, Position { x: 12, y: 9 }, seed, 3000);
    }
}

#[test]
fn length_is_one_more_than_the_meals() {
    let mut g = Simulation::from_parts(
        6,
        1,
        vec![Position { x: 0, y: 0 }],
        Direction::Right,
        Some(Position { x: 1, y: 0 }),
        9,
    )
    .unwrap();
    let mut meals = 0;
    for _ in 0..12 {
        match g.tick(None) {
            TickEvent::Ate { new_score } => {
                meals += 1;
                assert_eq!(new_score, meals);
            }
            TickEvent::Moved | TickEvent::Collided | TickEvent::Ignored => {}
        }
        assert_eq!(g.score(), meals);
        assert_eq!(g.snake().len() as u64, 1 + meals);
    }
    assert!(meals >= 1);
}

#[test]
fn score_rises_only_when_the_snake_eats() {
    let mut g = Simulation::from_parts(
        5,
        5,
        vec![Position { x: 0, y: 0 }],
        Direction::Right,
        Some(Position { x: 2, y: 0 }),
        3,
    )
    .unwrap();
    assert_eq!(g.tick(None), TickEvent::Moved);
    assert_eq!(g.score(), 0);
    assert_eq!(g.tick(None), TickEvent::Ate { new_score: 1 });
    assert_eq!(g.score(), 1);
    let mut g = Simulation::from_parts(
        5,
        5,
        vec![Position { x: 4, y: 0 }, Position { x: 3, y: 0 }],
        Direction::Right,
        Some(Position { x: 2, y: 2 }),
        3,
    )
    .unwrap();
    assert_eq!(g.score(), 1);
    assert_eq!(g.tick(None), TickEvent::Collided);
    assert_eq!(g.score(), 1);
    assert_eq!(g.tick(None), TickEvent::Ignored);
    assert_eq!(g.score(), 1);
}
