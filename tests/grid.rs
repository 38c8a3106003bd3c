use unfair_advantage_lib::grid::{leaves_arena, position_translation, step, wrap, Direction, Position};

#[test]
fn opposite_is_an_involution() {
    for d in [Direction::Left, Direction::Up, Direction::Right, Direction::Down] {
        assert_eq!(d.opposite().opposite(), d);
        assert_ne!(d.opposite(), d);
    }
    assert_eq!(Direction::Left.opposite(), Direction::Right);
    assert_eq!(Direction::Up.opposite(), Direction::Down);
}

#[test]
fn wrap_brings_coordinates_back() {
    assert_eq!(wrap(-1, 28), 27);
    assert_eq!(wrap(28, 28), 0);
    assert_eq!(wrap(13, 28), 13);
    assert_eq!(wrap(0, 14), 0);
}

#[test]
fn step_wraps_at_edges() {
    assert_eq!(step(Position { x: 0, y: 9 }, Direction::Left), Position { x: 27, y: 9 });
    assert_eq!(step(Position { x: 27, y: 9 }, Direction::Right), Position { x: 0, y: 9 });
    assert_eq!(step(Position { x: 4, y: 13 }, Direction::Up), Position { x: 4, y: 0 });
    assert_eq!(step(Position { x: 4, y: 0 }, Direction::Down), Position { x: 4, y: 13 });
}

#[test]
fn leaving_the_arena_is_detected() {
    assert!(leaves_arena(Position { x: 0, y: 9 }, Direction::Left));
    assert!(!leaves_arena(Position { x: 0, y: 9 }, Direction::Right));
    assert!(leaves_arena(Position { x: 27, y: 9 }, Direction::Right));
    assert!(leaves_arena(Position { x: 5, y: 13 }, Direction::Up));
    assert!(leaves_arena(Position { x: 5, y: 0 }, Direction::Down));
    assert!(!leaves_arena(Position { x: 5, y: 5 }, Direction::Down));
}

#[test]
fn translation_centres_cells() {
    // x: 0*64 - 64*28/2 + 32 = -864; y: 0*64 - 64*14/2 + 32 = -416
    assert_eq!(position_translation(Position { x: 0, y: 0 }), (-864, -416));
    assert_eq!(position_translation(Position { x: 27, y: 13 }), (864, 416));
    assert_eq!(position_translation(Position { x: 8, y: 9 }), (-352, 160));
}
