use snake_game::snake::{Block, Direction, Snake};

fn cells(s: &Snake) -> Vec<Block> {
    s.body_cells()
}

#[test]
fn snake_new_initial_body() {
    let s = Snake::new(2, 2);
    assert_eq!(
        cells(&s),
        vec![Block { x: 4, y: 2 }, Block { x: 3, y: 2 }, Block { x: 2, y: 2 }]
    );
    assert_eq!(s.head_position(), (4, 2));
    assert_eq!(s.head_direction(), Direction::Right);
}

#[test]
fn move_forward_keeps_length() {
    let mut s = Snake::new(2, 2);
    let dirs = [
        None,
        Some(Direction::Down),
        Some(Direction::Right),
        None,
        Some(Direction::Up),
    ];
    for d in dirs {
        s.move_forward(d);
        assert_eq!(cells(&s).len(), 3);
    }
}

#[test]
fn move_forward_translates_one_cell() {
    let mut s = Snake::new(2, 2);
    s.move_forward(None);
    assert_eq!(
        cells(&s),
        vec![Block { x: 5, y: 2 }, Block { x: 4, y: 2 }, Block { x: 3, y: 2 }]
    );
    s.move_forward(Some(Direction::Down));
    assert_eq!(
        cells(&s),
        vec![Block { x: 5, y: 3 }, Block { x: 5, y: 2 }, Block { x: 4, y: 2 }]
    );
    assert_eq!(s.head_direction(), Direction::Down);
}

#[test]
fn restore_tail_grows_by_one() {
    let mut s = Snake::new(2, 2);
    s.move_forward(None);
    assert_eq!(cells(&s).len(), 3);
    s.restore_tail();
    let body = cells(&s);
    assert_eq!(body.len(), 4);
    assert_eq!(body[3], Block { x: 2, y: 2 });
}

#[test]
fn next_head_is_pure() {
    let s = Snake::new(2, 2);
    let before = cells(&s);
    let a = s.next_head(None);
    let b = s.next_head(None);
    assert_eq!(a, b);
    assert_eq!(a, (5, 2));
    let c = s.next_head(Some(Direction::Up));
    let d = s.next_head(Some(Direction::Up));
    assert_eq!(c, d);
    assert_eq!(c, (4, 1));
    assert_eq!(cells(&s), before);
    assert_eq!(s.head_direction(), Direction::Right);
}

#[test]
fn overlap_excludes_tail_cell() {
    let s = Snake::new(2, 2);
    // body is (4,2),(3,2),(2,2): the tail (2,2) does not count as an overlap,
    // every other occupied cell does.
    assert!(s.overlap_tail(4, 2));
    assert!(s.overlap_tail(3, 2));
    assert!(!s.overlap_tail(2, 2));
    assert!(!s.overlap_tail(9, 9));
}

#[test]
fn overlap_follows_the_tail() {
    let mut s = Snake::new(2, 2);
    s.move_forward(None);
    // body is now (5,2),(4,2),(3,2): the vacated (2,2) is free, the new tail
    // (3,2) is excluded, and the rest overlap.
    assert!(!s.overlap_tail(2, 2));
    assert!(!s.overlap_tail(3, 2));
    assert!(s.overlap_tail(4, 2));
    assert!(s.overlap_tail(5, 2));
}

#[test]
fn overlap_after_growth() {
    let mut s = Snake::new(2, 2);
    s.move_forward(None);
    s.restore_tail();
    // body is (5,2),(4,2),(3,2),(2,2): only the tail (2,2) is excluded.
    assert!(s.overlap_tail(3, 2));
    assert!(s.overlap_tail(4, 2));
    assert!(s.overlap_tail(5, 2));
    assert!(!s.overlap_tail(2, 2));
}

#[test]
fn opposite_reverses_each_direction() {
    assert_eq!(Direction::Up.opposite(), Direction::Down);
    assert_eq!(Direction::Down.opposite(), Direction::Up);
    assert_eq!(Direction::Left.opposite(), Direction::Right);
    assert_eq!(Direction::Right.opposite(), Direction::Left);
}
