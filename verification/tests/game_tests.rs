use snake_game::game::{Game, Key};
use snake_game::snake::Block;

fn body(g: &Game) -> Vec<Block> {
    g.snake_body()
}

fn initial_body() -> Vec<Block> {
    vec![Block { x: 4, y: 2 }, Block { x: 3, y: 2 }, Block { x: 2, y: 2 }]
}

#[test]
fn game_initial_state() {
    let g = Game::new(20, 20);
    assert_eq!(body(&g), initial_body());
    assert!(g.food_exists());
    assert_eq!(g.food_position(), (6, 4));
    assert_eq!(g.size(), (20, 20));
    assert!(!g.is_game_over());
}

#[test]
fn reversal_key_rejected() {
    let mut g = Game::new(20, 20);
    // heading is Right; Left is its exact reverse and must change nothing
    g.key_pressed(Key::Left);
    assert_eq!(body(&g), initial_body());
    assert!(!g.is_game_over());
    // the heading is still Right: the next automatic tick moves right
    g.update(150);
    assert_eq!(body(&g)[0], Block { x: 5, y: 2 });
}

#[test]
fn other_key_ignored() {
    let mut g = Game::new(20, 20);
    g.key_pressed(Key::Other);
    assert_eq!(body(&g), initial_body());
    assert!(!g.is_game_over());
}

#[test]
fn direction_key_moves_immediately() {
    let mut g = Game::new(20, 20);
    g.key_pressed(Key::Down);
    assert_eq!(
        body(&g),
        vec![Block { x: 4, y: 3 }, Block { x: 4, y: 2 }, Block { x: 3, y: 2 }]
    );
}

#[test]
fn wall_collision_sets_game_over() {
    let mut g = Game::new(20, 20);
    // head starts at x = 4 heading Right; 14 movement ticks bring it to the
    // last interior column x = 18 = width - 2
    for _ in 0..14 {
        g.update(150);
        assert!(!g.is_game_over());
    }
    assert_eq!(body(&g)[0], Block { x: 18, y: 2 });
    let before = body(&g);
    // one more tick would put the head on the border: game over, body untouched
    g.update(150);
    assert!(g.is_game_over());
    assert_eq!(body(&g), before);
}

#[test]
fn keys_ignored_after_game_over() {
    let mut g = Game::new(20, 20);
    for _ in 0..15 {
        g.update(150);
    }
    assert!(g.is_game_over());
    let before = body(&g);
    g.key_pressed(Key::Down);
    assert_eq!(body(&g), before);
    assert!(g.is_game_over());
}

#[test]
fn eating_food_grows_snake() {
    let mut g = Game::new(20, 20);
    // steer the head from (4,2) onto the food at (6,4)
    g.key_pressed(Key::Down); // head (4,3)
    g.key_pressed(Key::Down); // head (4,4)
    g.key_pressed(Key::Right); // head (5,4)
    assert!(g.food_exists());
    assert_eq!(body(&g).len(), 3);
    g.key_pressed(Key::Right); // head (6,4): onto the food
    let b = body(&g);
    assert_eq!(b[0], Block { x: 6, y: 4 });
    assert_eq!(b.len(), 4);
    assert!(!g.food_exists());
    assert!(!g.is_game_over());
}

#[test]
fn food_respawns_off_the_snake() {
    let mut g = Game::new(20, 20);
    g.key_pressed(Key::Down);
    g.key_pressed(Key::Down);
    g.key_pressed(Key::Right);
    g.key_pressed(Key::Right);
    assert!(!g.food_exists());
    // the next tick spawns new food at a free random cell
    g.update(10);
    assert!(g.food_exists());
    let (fx, fy) = g.food_position();
    assert!((1..=20).contains(&fx));
    assert!((1..=20).contains(&fy));
    let b = body(&g);
    for cell in &b[..b.len() - 1] {
        assert!(!(cell.x == fx && cell.y == fy));
    }
}

#[test]
fn restart_after_delay() {
    let mut g = Game::new(20, 20);
    for _ in 0..15 {
        g.update(150);
    }
    assert!(g.is_game_over());
    // not yet past the restart delay of 1000 ms
    g.update(500);
    assert!(g.is_game_over());
    // 500 + 600 ms accumulated: just over the delay, the game resets
    g.update(600);
    assert!(!g.is_game_over());
    assert_eq!(body(&g), initial_body());
    assert!(g.food_exists());
    assert_eq!(g.food_position(), (6, 4));
    // and the reset game plays deterministically again
    g.update(150);
    assert_eq!(body(&g)[0], Block { x: 5, y: 2 });
}

#[test]
fn end_to_end_small_ticks() {
    let mut g = Game::new(20, 20);
    // three ticks that stay at or under the moving period: no movement
    g.update(30);
    g.update(30);
    g.update(30);
    assert_eq!(body(&g), initial_body());
    // the fourth tick brings the accumulated time over the period
    g.update(30);
    assert_eq!(
        body(&g),
        vec![Block { x: 5, y: 2 }, Block { x: 4, y: 2 }, Block { x: 3, y: 2 }]
    );
    assert!(!g.is_game_over());
}
