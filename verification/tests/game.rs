use snake::direction::Dir;
use snake::game::Game;
use snake::spawn::{faces_for, spawn_from};
use snake::game::{DELAY_STEP, GROWTH_POINTS, MIN_DELAY, START_DELAY};
use snake::input::{Command, Key};
use snake::items::Fruit;
use snake::render::{Draw, Tint};
use snake::snake::{Ending, Segment};

#[test]
fn new_game_starts_in_the_middle() {
    let game = Game::new(10, 10);
    assert_eq!(game.bounds, (10, 10));
    assert_eq!(game.snake.0, vec![Segment { dir: Dir::N, pos: (5, 5) }]);
    assert_eq!(game.dir, Dir::N);
    assert_eq!(game.fruits.len(), 0);
    assert_eq!(game.delay, 50);
    assert_eq!(game.points, 0);
    assert_eq!(START_DELAY, 50);
}

#[test]
fn plain_tick_moves_the_snake_north() {
    let mut game = Game::new(10, 10);
    let mut draws = Vec::new();
    assert_eq!(game.play(Command::Nothing, None, &mut draws), None);
    assert_eq!(game.snake.0, vec![Segment { dir: Dir::N, pos: (5, 4) }]);
    assert_eq!(game.delay, 50);
    assert_eq!(game.points, 0);
}

#[test]
fn deadly_item_under_the_head_ends_the_session() {
    let mut game = Game::new(10, 10);
    let mut draws = Vec::new();
    let ending = game.play(Command::Nothing, Some(((5, 4), Fruit::Death)), &mut draws);
    assert_eq!(ending, Some(Ending::FruitDeath));
    assert_eq!(game.snake.0, vec![Segment { dir: Dir::N, pos: (5, 4) }]);
    assert_eq!(game.fruits.len(), 0);
    assert_eq!(game.points, 0);
    assert_eq!(game.delay, 50);
}

#[test]
fn growth_scores_and_lengthens() {
    let mut game = Game::new(10, 10);
    let mut draws = Vec::new();
    let ending = game.play(Command::Turn(Dir::E), Some(((6, 5), Fruit::Growth)), &mut draws);
    assert_eq!(ending, None);
    assert_eq!(game.points, 10);
    assert_eq!(GROWTH_POINTS, 10);
    assert_eq!(game.snake.0.len(), 2);
    assert_eq!(game.dir, Dir::E);
    assert_eq!(game.delay, 50);
    assert_eq!(draws[0], Draw { pos: (6, 5), glyph: '🍏', tint: Tint::Green });
    assert_eq!(draws.len(), 3);
}

#[test]
fn score_stops_at_the_largest_number() {
    let mut game = Game::new(10, 10);
    game.points = i32::MAX - 3;
    let mut draws = Vec::new();
    assert_eq!(game.play(Command::Nothing, Some(((5, 4), Fruit::Growth)), &mut draws), None);
    assert_eq!(game.points, i32::MAX);
}

#[test]
fn speed_shortens_the_delay_down_to_the_floor() {
    let mut game = Game::new(10, 40);
    let mut seen = Vec::new();
    for _ in 0..6 {
        let head = game.snake.0[0].pos;
        let mut draws = Vec::new();
        let ending = game.play(Command::Nothing, Some(((head.0, head.1 - 1), Fruit::Speed)), &mut draws);
        assert_eq!(ending, None);
        seen.push(game.delay);
    }
    assert_eq!(seen, vec![40, 30, 20, 10, 10, 10]);
    assert_eq!(MIN_DELAY, 10);
    assert_eq!(DELAY_STEP, 10);
    assert_eq!(game.snake.0.len(), 1);
}

#[test]
fn delay_below_one_step_rises_to_the_floor() {
    let mut game = Game::new(10, 10);
    game.delay = 3;
    let mut draws = Vec::new();
    assert_eq!(game.play(Command::Nothing, Some(((5, 4), Fruit::Speed)), &mut draws), None);
    assert_eq!(game.delay, 10);
}

#[test]
fn slow_lengthens_the_delay() {
    let mut game = Game::new(10, 10);
    let mut draws = Vec::new();
    assert_eq!(game.play(Command::Nothing, Some(((5, 4), Fruit::Slow)), &mut draws), None);
    assert_eq!(game.delay, 60);
    game.delay = u64::MAX - 4;
    assert_eq!(game.play(Command::Nothing, Some(((5, 3), Fruit::Slow)), &mut draws), None);
    assert_eq!(game.delay, u64::MAX);
}

#[test]
fn quit_ends_the_session_and_changes_nothing() {
    let mut game = Game::new(10, 10);
    let mut draws = Vec::new();
    let ending = game.play(Command::Quit, Some(((1, 1), Fruit::Growth)), &mut draws);
    assert_eq!(ending, Some(Ending::Quit));
    assert_eq!(game.snake.0, vec![Segment { dir: Dir::N, pos: (5, 5) }]);
    assert_eq!(game.fruits.len(), 0);
    assert_eq!(game.dir, Dir::N);
    assert!(draws.is_empty());
}

#[test]
fn quit_key_ends_the_tick_before_anything_moves() {
    let mut game = Game::new(10, 10);
    let mut rng = rand::thread_rng();
    let mut draws = Vec::new();
    let ending = game.tick(&vec![Key::Left, Key::Char('q')], &mut rng, 1000, &mut draws);
    assert_eq!(ending, Some(Ending::Quit));
    assert_eq!(game.snake.0, vec![Segment { dir: Dir::N, pos: (5, 5) }]);
    assert_eq!(game.dir, Dir::N);
    assert_eq!(game.fruits.len(), 0);
    assert!(draws.is_empty());
}

#[test]
fn walking_off_the_top_ends_the_session() {
    let mut game = Game::new(10, 2);
    let mut draws = Vec::new();
    assert_eq!(game.play(Command::Nothing, None, &mut draws), None);
    assert_eq!(game.play(Command::Nothing, None, &mut draws), Some(Ending::OutOfBounds));
    assert_eq!(game.snake.0, vec![Segment { dir: Dir::N, pos: (5, 0) }]);
}

#[test]
fn self_collision_ends_the_session() {
    let mut game = Game::new(10, 10);
    let mut draws = Vec::new();
    let route = [
        (Dir::N, (5, 4)),
        (Dir::E, (6, 4)),
        (Dir::E, (7, 4)),
        (Dir::S, (7, 5)),
        (Dir::W, (6, 5)),
    ];
    for &(dir, cell) in &route {
        let ending = game.play(Command::Turn(dir), Some((cell, Fruit::Growth)), &mut draws);
        assert_eq!(ending, None);
    }
    assert_eq!(game.snake.0.len(), 6);
    assert_eq!(game.points, 50);
    let ending = game.play(Command::Turn(Dir::N), None, &mut draws);
    assert_eq!(ending, Some(Ending::SelfCollision));
}

#[test]
fn requested_reversal_is_kept_but_not_followed() {
    let mut game = Game::new(10, 10);
    let mut draws = Vec::new();
    assert_eq!(game.play(Command::Turn(Dir::S), None, &mut draws), None);
    assert_eq!(game.dir, Dir::S);
    assert_eq!(game.snake.0, vec![Segment { dir: Dir::N, pos: (5, 4) }]);
}

#[test]
fn several_keys_act_as_the_last_alone() {
    let mut many = Game::new(10, 10);
    let mut one = Game::new(10, 10);
    let mut rng = rand::thread_rng();
    let mut draws_many = Vec::new();
    let mut draws_one = Vec::new();
    let a = many.tick(&vec![Key::Up, Key::Right, Key::Char('a')], &mut rng, 0, &mut draws_many);
    let b = one.tick(&vec![Key::Char('a')], &mut rng, 0, &mut draws_one);
    assert_eq!(a, None);
    assert_eq!(a, b);
    assert_eq!(many.snake.0, one.snake.0);
    assert_eq!(many.snake.0, vec![Segment { dir: Dir::W, pos: (4, 5) }]);
    assert_eq!(many.dir, one.dir);
    assert_eq!(draws_many, draws_one);
}

#[test]
fn spawned_item_is_shown_before_the_snake() {
    let mut game = Game::new(10, 10);
    let mut draws = Vec::new();
    assert_eq!(game.play(Command::Nothing, Some(((2, 2), Fruit::Slow)), &mut draws), None);
    assert_eq!(draws[0], Draw { pos: (2, 2), glyph: '🍍', tint: Tint::Blue });
    assert_eq!(game.fruits.get((2, 2)), Some(Fruit::Slow));
    assert_eq!(game.fruits.len(), 1);
}

#[test]
fn spawn_die_grows_with_the_items_on_the_board() {
    assert_eq!(faces_for(0), 10);
    assert_eq!(faces_for(1), 20);
    assert_eq!(faces_for(4), 50);
    assert_eq!(faces_for(usize::MAX), 10 * (usize::MAX as u128 + 1));
}

#[test]
fn item_appears_only_on_face_zero_and_with_a_cell() {
    assert_eq!(spawn_from(0, 0, Some((3, 4))), Some(((3, 4), Fruit::Death)));
    assert_eq!(spawn_from(0, 1, Some((3, 4))), Some(((3, 4), Fruit::Speed)));
    assert_eq!(spawn_from(0, 2, Some((0, 0))), Some(((0, 0), Fruit::Slow)));
    assert_eq!(spawn_from(0, 7, Some((9, 1))), Some(((9, 1), Fruit::Growth)));
    assert_eq!(spawn_from(1, 7, Some((9, 1))), None);
    assert_eq!(spawn_from(9, 0, Some((9, 1))), None);
    assert_eq!(spawn_from(0, 7, None), None);
}

#[test]
fn endings_have_names() {
    assert_eq!(Ending::OutOfBounds.tag(), "OutOfBounds");
    assert_eq!(Ending::SelfCollision.tag(), "SelfCollision");
    assert_eq!(Ending::FruitDeath.tag(), "FruitDeath");
    assert_eq!(Ending::Quit.tag(), "Quit");
}
