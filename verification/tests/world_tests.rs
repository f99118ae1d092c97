use game_of_life::world::HEIGHT;
use game_of_life::world::WIDTH;
use game_of_life::world::World;

#[test]
fn neighbours_in_the_middle() {
    let world = World::new();
    let neighbours: [(i16, i16); 8] = world.neighbours(4, 5);
    let expected: [(i16, i16); 8] = [
        (3, 4),
        (4, 4),
        (5, 4),
        (3, 5),
        (5, 5),
        (3, 6),
        (4, 6),
        (5, 6),
    ];

    assert_eq!(neighbours, expected);
}

#[test]
fn neighbours_in_the_top() {
    let world = World::new();
    let neighbours: [(i16, i16); 8] = world.neighbours(4, 0);
    let expected: [(i16, i16); 8] = [
        (3, (HEIGHT as i16) - 1),
        (4, (HEIGHT as i16) - 1),
        (5, (HEIGHT as i16) - 1),
        (3, 0),
        (5, 0),
        (3, 1),
        (4, 1),
        (5, 1),
    ];

    assert_eq!(neighbours, expected);
}

#[test]
fn neighbours_in_the_bottom() {
    let world = World::new();
    let neighbours: [(i16, i16); 8] = world.neighbours(4, (HEIGHT as i16) - 1);
    let expected: [(i16, i16); 8] = [
        (3, (HEIGHT as i16) - 2),
        (4, (HEIGHT as i16) - 2),
        (5, (HEIGHT as i16) - 2),
        (3, (HEIGHT as i16) - 1),
        (5, (HEIGHT as i16) - 1),
        (3, 0),
        (4, 0),
        (5, 0),
    ];

    assert_eq!(neighbours, expected);
}

#[test]
fn neighbours_in_the_left() {
    let world = World::new();
    let neighbours: [(i16, i16); 8] = world.neighbours(0, 5);
    let expected: [(i16, i16); 8] = [
        ((WIDTH as i16) - 1, 4),
        (0, 4),
        (1, 4),
        ((WIDTH as i16) - 1, 5),
        (1, 5),
        ((WIDTH as i16) - 1, 6),
        (0, 6),
        (1, 6),
    ];

    assert_eq!(neighbours, expected);
}

#[test]
fn neighbours_in_the_right() {
    let world = World::new();
    let neighbours: [(i16, i16); 8] = world.neighbours((WIDTH as i16) - 1, 5);
    let expected: [(i16, i16); 8] = [
        ((WIDTH as i16) - 2, 4),
        ((WIDTH as i16) - 1, 4),
        (0, 4),
        ((WIDTH as i16) - 2, 5),
        (0, 5),
        ((WIDTH as i16) - 2, 6),
        ((WIDTH as i16) - 1, 6),
        (0, 6),
    ];

    assert_eq!(neighbours, expected);
}

#[test]
fn count_live_neighbours_in_the_middle() {
    let mut world = World::new();
    world.set_cell(3, 4, true);
    world.set_cell(3, 5, true);
    world.set_cell(5, 4, true);
    world.set_cell(5, 5, true);

    let neighbours_count = world.count_live_neighbours(4, 5);
    let expected = 4;

    assert_eq!(neighbours_count, expected);
}

#[test]
fn check_star() {
    let mut world = World::new();
    world.set_cell(8, 7, true);
    world.set_cell(8, 8, true);
    world.set_cell(8, 9, true);

    assert_eq!(world.count_live_neighbours(7, 7), 2);
    assert_eq!(world.count_live_neighbours(7, 8), 3);
    assert_eq!(world.count_live_neighbours(7, 9), 2);

    assert_eq!(world.count_live_neighbours(8, 7), 1);
    assert_eq!(world.count_live_neighbours(8, 8), 2);
    assert_eq!(world.count_live_neighbours(8, 9), 1);

    assert_eq!(world.count_live_neighbours(9, 7), 2);
    assert_eq!(world.count_live_neighbours(9, 8), 3);
    assert_eq!(world.count_live_neighbours(9, 9), 2);
}

#[test]
fn neighbours_in_the_corner() {
    let world = World::new();
    let neighbours: [(i16, i16); 8] = world.neighbours(0, 0);
    let expected: [(i16, i16); 8] = [
        ((WIDTH as i16) - 1, (HEIGHT as i16) - 1),
        (0, (HEIGHT as i16) - 1),
        (1, (HEIGHT as i16) - 1),
        ((WIDTH as i16) - 1, 0),
        (1, 0),
        ((WIDTH as i16) - 1, 1),
        (0, 1),
        (1, 1),
    ];

    assert_eq!(neighbours, expected);
}

#[test]
fn new_world_is_dead() {
    let world = World::new();
    for x in 0..WIDTH as i16 {
        for y in 0..HEIGHT as i16 {
            assert!(!world.get_cell(x, y));
        }
    }
}

#[test]
fn set_get_and_flip_cell() {
    let mut world = World::new();
    assert!(!world.get_cell(12, 3));

    world.set_cell(12, 3, true);
    assert!(world.get_cell(12, 3));
    assert!(!world.get_cell(11, 3));
    assert!(!world.get_cell(12, 2));

    world.flip_cell(12, 3);
    assert!(!world.get_cell(12, 3));

    world.flip_cell(0, 0);
    assert!(world.get_cell(0, 0));
}

#[test]
fn replace_copies_contents() {
    let mut source = World::new();
    source.set_cell(1, 2, true);
    source.set_cell(37, 17, true);

    let mut target = World::new();
    target.set_cell(5, 5, true);
    target.replace(&source);

    for x in 0..WIDTH as i16 {
        for y in 0..HEIGHT as i16 {
            let expected = (x, y) == (1, 2) || (x, y) == (37, 17);
            assert_eq!(target.get_cell(x, y), expected);
        }
    }
}

#[test]
fn count_live_neighbours_wraps_around_edges() {
    let mut world = World::new();
    world.set_cell((WIDTH as i16) - 1, 0, true);
    world.set_cell((WIDTH as i16) - 1, (HEIGHT as i16) - 1, true);
    world.set_cell(0, (HEIGHT as i16) - 1, true);

    assert_eq!(world.count_live_neighbours(0, 0), 3);
}
