use snake::{fold_pos, rand_pos, Direction, Game, Input, Pos};

fn cells_of(g: &Game) -> Vec<(u16, u16)> {
    g.snake().cells().iter().map(|p| (p.0, p.1)).collect()
}

#[test]
fn fold_pos_takes_each_number_modulo_the_extent() {
    assert_eq!(fold_pos(25, 7, 10, 5), Pos(5, 2));
    assert_eq!(fold_pos(0, 65535, 1, 80), Pos(0, 15));
    assert_eq!(fold_pos(9, 4, 10, 5), Pos(9, 4));
}

#[test]
fn rand_pos_stays_on_the_board() {
    let mut rng = rand::thread_rng();
    for _ in 0..500 {
        let p = rand_pos(&mut rng, 7, 3);
        assert!(p.0 < 7 && p.1 < 3);
    }
    assert_eq!(rand_pos(&mut rng, 1, 1), Pos(0, 0));
}

#[test]
fn rand_pos_reaches_more_than_one_cell() {
    let mut rng = rand::thread_rng();
    let first = rand_pos(&mut rng, 200, 200);
    let mut other = false;
    for _ in 0..200 {
        if rand_pos(&mut rng, 200, 200) != first {
            other = true;
        }
    }
    assert!(other);
}

#[test]
fn start_places_the_snake_by_the_shorter_side() {
    let g = Game::start(80, 24, Pos(3, 3));
    assert_eq!(cells_of(&g), vec![(6, 12)]);
    assert_eq!(g.snake().direction(), Direction::Right);
    assert_eq!(g.food(), Pos(3, 3));
    assert_eq!(g.score(), 0);
    assert_eq!(g.size(), (80, 24));
    assert!(!g.is_over());

    let g = Game::start(10, 40, Pos(0, 0));
    assert_eq!(cells_of(&g), vec![(2, 5)]);
}

#[test]
fn new_puts_the_food_in_the_square() {
    let mut rng = rand::thread_rng();
    for _ in 0..50 {
        let g = Game::new(80, 24, &mut rng);
        assert!(g.food().0 < 24 && g.food().1 < 24);
        assert_eq!(cells_of(&g), vec![(6, 12)]);
        assert_eq!(g.score(), 0);
        assert_eq!(g.size(), (80, 24));
    }
}

#[test]
fn quit_is_reported_and_changes_nothing() {
    let mut g = Game::start(20, 20, Pos(1, 1));
    assert!(g.handle(Input::Quit));
    assert_eq!(cells_of(&g), vec![(5, 10)]);
    assert_eq!(g.snake().direction(), Direction::Right);
    assert_eq!(g.food(), Pos(1, 1));
    assert_eq!(g.size(), (20, 20));
}

#[test]
fn other_input_is_ignored() {
    let mut g = Game::start(20, 20, Pos(1, 1));
    assert!(!g.handle(Input::Other));
    assert_eq!(g.snake().direction(), Direction::Right);
    assert_eq!(g.size(), (20, 20));
    assert_eq!(g.score(), 0);
}

#[test]
fn turn_reaches_the_snake() {
    let mut g = Game::start(20, 20, Pos(1, 1));
    assert!(!g.handle(Input::Turn(Direction::Down)));
    assert_eq!(g.snake().direction(), Direction::Down);
    assert_eq!(cells_of(&g), vec![(5, 10)]);
}

#[test]
fn resize_replaces_the_size_only() {
    let mut g = Game::start(20, 20, Pos(1, 1));
    assert!(!g.handle(Input::Resize(7, 9)));
    assert_eq!(g.size(), (7, 9));
    assert_eq!(cells_of(&g), vec![(5, 10)]);
    assert_eq!(g.food(), Pos(1, 1));
    let mut rng = rand::thread_rng();
    assert_eq!(g.tick(&mut rng), Ok(false));
    assert_eq!(cells_of(&g), vec![(6, 10)]);
    assert_eq!(g.tick(&mut rng), Ok(false));
    assert_eq!(cells_of(&g), vec![(0, 10)]);
}

#[test]
fn tick_without_food_keeps_score_and_food() {
    let mut rng = rand::thread_rng();
    let mut g = Game::start(20, 20, Pos(1, 1));
    assert_eq!(g.tick(&mut rng), Ok(false));
    assert_eq!(cells_of(&g), vec![(6, 10)]);
    assert_eq!(g.score(), 0);
    assert_eq!(g.food(), Pos(1, 1));
}

#[test]
fn tick_onto_food_scores_and_replaces_the_food() {
    let mut rng = rand::thread_rng();
    let mut g = Game::start(20, 12, Pos(4, 6));
    assert_eq!(cells_of(&g), vec![(3, 6)]);
    assert_eq!(g.tick(&mut rng), Ok(true));
    assert_eq!(cells_of(&g), vec![(4, 6), (3, 6)]);
    assert_eq!(g.score(), 1);
    assert!(g.food().0 < 12 && g.food().1 < 12);
    assert_eq!(g.snake().len(), g.score() + 1);
}

#[test]
fn refused_turn_at_the_game_level() {
    let mut rng = rand::thread_rng();
    let mut g = Game::start(20, 12, Pos(4, 6));
    assert_eq!(g.tick(&mut rng), Ok(true));
    assert!(!g.handle(Input::Turn(Direction::Left)));
    assert_eq!(g.snake().direction(), Direction::Right);
}

#[test]
fn collision_ends_the_game_with_the_score_kept() {
    let mut rng = rand::thread_rng();
    let mut g = Game::start(2, 1, Pos(1, 0));
    assert_eq!(cells_of(&g), vec![(0, 0)]);
    assert_eq!(g.tick(&mut rng), Ok(true));
    assert_eq!(cells_of(&g), vec![(1, 0), (0, 0)]);
    assert_eq!(g.score(), 1);
    assert_eq!(g.food(), Pos(0, 0));
    assert!(!g.is_over());
    assert_eq!(g.tick(&mut rng), Err(()));
    assert!(g.is_over());
    assert_eq!(g.score(), 1);
    assert_eq!(g.snake().len(), 2);
}

#[test]
fn advance_puts_the_food_where_told_when_eaten() {
    let mut g = Game::start(20, 12, Pos(4, 6));
    assert_eq!(g.advance(Pos(9, 9)), Ok(true));
    assert_eq!(cells_of(&g), vec![(4, 6), (3, 6)]);
    assert_eq!(g.score(), 1);
    assert_eq!(g.food(), Pos(9, 9));
    assert_eq!(g.size(), (20, 12));
}

#[test]
fn advance_keeps_the_food_when_not_eaten() {
    let mut g = Game::start(20, 12, Pos(8, 8));
    assert_eq!(g.advance(Pos(9, 9)), Ok(false));
    assert_eq!(cells_of(&g), vec![(4, 6)]);
    assert_eq!(g.score(), 0);
    assert_eq!(g.food(), Pos(8, 8));
}

#[test]
fn advance_into_the_body_ends_the_game() {
    let mut g = Game::start(2, 1, Pos(1, 0));
    assert_eq!(g.advance(Pos(1, 0)), Ok(true));
    assert_eq!(g.food(), Pos(1, 0));
    assert!(!g.is_over());
    assert_eq!(g.advance(Pos(0, 0)), Err(()));
    assert!(g.is_over());
    assert_eq!(cells_of(&g), vec![(0, 0), (0, 0)]);
    assert_eq!(g.score(), 1);
    assert_eq!(g.food(), Pos(1, 0));
}

#[test]
fn score_counts_every_meal() {
    let mut g = Game::start(40, 40, Pos(11, 20));
    assert_eq!(cells_of(&g), vec![(10, 20)]);
    assert_eq!(g.advance(Pos(12, 20)), Ok(true));
    assert_eq!(g.advance(Pos(13, 20)), Ok(true));
    assert_eq!(g.advance(Pos(0, 0)), Ok(true));
    assert_eq!(g.advance(Pos(0, 0)), Ok(false));
    assert_eq!(g.score(), 3);
    assert_eq!(cells_of(&g), vec![(14, 20), (13, 20), (12, 20), (11, 20)]);
    assert_eq!(g.snake().len(), g.score() + 1);
}

#[test]
fn ticks_come_fifteen_times_a_second() {
    assert_eq!(snake::FPS, 15);
    assert_eq!(snake::tick_millis(), 66);
}
