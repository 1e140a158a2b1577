use rsnake::colors::{random_vivid, Color, CHANNEL_FULL, VIVID_FLOOR};
use rsnake::physics::{Direction, Position};
use rsnake::snake::{Snake, INITIAL_SNAKE_TAIL_LENGTH};

fn at(x: i32, y: i32) -> Position {
    Position { x, y }
}

#[test]
fn opposite_pairs_up_the_headings() {
    assert_eq!(Direction::Up.opposite(), Direction::Down);
    assert_eq!(Direction::Down.opposite(), Direction::Up);
    assert_eq!(Direction::Left.opposite(), Direction::Right);
    assert_eq!(Direction::Right.opposite(), Direction::Left);
}

#[test]
fn new_snake_faces_down_with_trail_above() {
    let s = Snake::new(at(5, 5));
    assert_eq!(*s.get_head_pos(), at(5, 5));
    assert_eq!(s.direction(), Direction::Down);
    assert_eq!(s.body(), vec![at(5, 4), at(5, 3)]);
    assert_eq!(s.body().len(), INITIAL_SNAKE_TAIL_LENGTH);
    assert_eq!(s.get_len(), 0);
    assert_eq!(s.color(), Color { r: 100, g: 900, b: 100, a: 1000 });
    assert_eq!(s.color(), Color::snake());
}

#[test]
fn new_snake_near_the_top_has_trail_off_board() {
    let s = Snake::new(at(0, 0));
    assert_eq!(s.body(), vec![at(0, -1), at(0, -2)]);
    assert!(!s.is_tail_overlapping());
}

#[test]
fn update_shifts_trail_and_moves_head() {
    let mut s = Snake::new(at(5, 5));
    s.update(10, 10);
    assert_eq!(*s.get_head_pos(), at(5, 6));
    assert_eq!(s.body(), vec![at(5, 5), at(5, 4)]);
    s.update(10, 10);
    assert_eq!(*s.get_head_pos(), at(5, 7));
    assert_eq!(s.body(), vec![at(5, 6), at(5, 5)]);
}

#[test]
fn four_steps_down_reach_the_last_row() {
    let mut s = Snake::new(at(5, 5));
    for _ in 0..4 {
        assert!(!s.will_hit_wall(10, 10));
        s.update(10, 10);
    }
    assert_eq!(*s.get_head_pos(), at(5, 9));
    assert!(s.will_hit_wall(10, 10));
    assert_eq!(s.next_head_pos(), at(5, 10));
}

#[test]
fn next_head_follows_each_heading() {
    let mut s = Snake::new(at(5, 5));
    assert_eq!(s.next_head_pos(), at(5, 6));
    s.update(10, 10);
    s.set_dir(Direction::Right);
    assert_eq!(s.next_head_pos(), at(6, 6));
    s.update(10, 10);
    s.set_dir(Direction::Up);
    assert_eq!(s.next_head_pos(), at(6, 5));
    s.update(10, 10);
    s.set_dir(Direction::Left);
    assert_eq!(s.next_head_pos(), at(5, 5));
    // next_head_pos leaves the snake as it is
    assert_eq!(*s.get_head_pos(), at(6, 5));
}

#[test]
fn reversal_is_ignored_however_often() {
    let mut s = Snake::new(at(5, 5));
    s.update(10, 10);
    for _ in 0..50 {
        s.set_dir(Direction::Up);
        assert_eq!(s.direction(), Direction::Down);
    }
    // the ignored requests have not used up the turn
    s.set_dir(Direction::Left);
    assert_eq!(s.direction(), Direction::Left);
    s.update(10, 10);
    for _ in 0..50 {
        s.set_dir(Direction::Right);
        assert_eq!(s.direction(), Direction::Left);
    }
}

#[test]
fn first_request_of_a_new_snake_is_taken() {
    let mut s = Snake::new(at(0, 5));
    assert!(!s.will_hit_wall(10, 10));
    s.set_dir(Direction::Left);
    assert_eq!(s.direction(), Direction::Left);
    assert_eq!(s.next_head_pos(), at(-1, 5));
    assert!(s.will_hit_wall(10, 10));
    // and it is the one request taken before the first step
    s.set_dir(Direction::Down);
    assert_eq!(s.direction(), Direction::Left);
}

#[test]
fn new_snake_does_not_reverse() {
    let mut s = Snake::new(at(5, 5));
    s.set_dir(Direction::Up);
    assert_eq!(s.direction(), Direction::Down);
    // the request that was dropped has not used up the turn
    s.set_dir(Direction::Right);
    assert_eq!(s.direction(), Direction::Right);
}

#[test]
fn heading_after_tells_what_a_request_would_do() {
    let mut s = Snake::new(at(5, 5));
    assert_eq!(s.heading_after(Direction::Left), Direction::Left);
    assert_eq!(s.heading_after(Direction::Right), Direction::Right);
    assert_eq!(s.heading_after(Direction::Down), Direction::Down);
    assert_eq!(s.heading_after(Direction::Up), Direction::Down);
    // to ask changes nothing
    assert_eq!(s.direction(), Direction::Down);
    s.set_dir(Direction::Left);
    assert_eq!(s.heading_after(Direction::Down), Direction::Left);
    assert_eq!(s.heading_after(Direction::Up), Direction::Left);
    s.update(10, 10);
    assert_eq!(s.heading_after(Direction::Up), Direction::Up);
    assert_eq!(s.heading_after(Direction::Right), Direction::Left);
}

#[test]
fn trail_covers_the_cells_behind_the_head() {
    let mut s = Snake::new(at(5, 5));
    assert!(s.trail_covers(at(5, 4)));
    assert!(s.trail_covers(at(5, 3)));
    assert!(!s.trail_covers(at(5, 5)));
    assert!(!s.trail_covers(at(5, 2)));
    assert!(!s.trail_covers(at(4, 4)));
    s.update(10, 10);
    assert!(s.trail_covers(at(5, 5)));
    assert!(!s.trail_covers(at(5, 3)));
}

#[test]
fn one_turn_per_step() {
    let mut s = Snake::new(at(5, 5));
    s.update(10, 10);
    s.set_dir(Direction::Right);
    s.set_dir(Direction::Up);
    assert_eq!(s.direction(), Direction::Right);
    s.update(10, 10);
    assert_eq!(*s.get_head_pos(), at(6, 6));
    s.set_dir(Direction::Up);
    assert_eq!(s.direction(), Direction::Up);
}

#[test]
fn asking_for_the_present_heading_uses_up_the_turn() {
    let mut s = Snake::new(at(5, 5));
    s.update(10, 10);
    s.set_dir(Direction::Down);
    s.set_dir(Direction::Left);
    assert_eq!(s.direction(), Direction::Down);
}

#[test]
fn update_keeps_length() {
    let mut s = Snake::new(at(5, 5));
    for _ in 0..7 {
        s.update(100, 100);
        assert_eq!(s.body().len(), 2);
        assert_eq!(s.get_len(), 0);
    }
}

#[test]
fn grow_then_update_adds_one_cell() {
    let mut s = Snake::new(at(5, 5));
    s.update(100, 100);
    let before = s.body().len();
    let gained = s.get_len();
    s.grow();
    s.update(100, 100);
    assert_eq!(s.body().len(), before + 1);
    assert_eq!(s.get_len(), gained + 1);
    s.grow();
    s.update(100, 100);
    assert_eq!(s.body().len(), before + 2);
    assert_eq!(s.get_len(), 2);
}

#[test]
fn grow_doubles_the_tip_of_the_tail() {
    let mut s = Snake::new(at(5, 5));
    let c = Color { r: 300, g: 400, b: 500, a: 1000 };
    s.grow_with(c);
    assert_eq!(s.body(), vec![at(5, 4), at(5, 3), at(5, 3)]);
    assert_eq!(s.color(), c);
    assert_eq!(*s.get_head_pos(), at(5, 5));
    assert_eq!(s.direction(), Direction::Down);
    s.update(10, 10);
    assert_eq!(s.body(), vec![at(5, 5), at(5, 4), at(5, 3)]);
}

#[test]
fn grow_draws_a_vivid_colour() {
    for _ in 0..200 {
        let mut s = Snake::new(at(5, 5));
        s.grow();
        let c = s.color();
        assert!(200 <= c.r && c.r < 1000);
        assert!(200 <= c.g && c.g < 1000);
        assert!(200 <= c.b && c.b < 1000);
        assert_eq!(c.a, 1000);
    }
}

#[test]
fn wall_is_only_beyond_the_border_cells() {
    // heading down on a board of height 10
    let mut s = Snake::new(at(0, 7));
    assert!(!s.will_hit_wall(1, 10)); // next (0, 8)
    s.update(1, 10);
    assert!(!s.will_hit_wall(1, 10)); // next (0, 9): the last row is legal
    s.update(1, 10);
    assert!(s.will_hit_wall(1, 10)); // next (0, 10)
    assert!(!s.will_hit_wall(1, 11));
    // heading left towards x = 0
    s.set_dir(Direction::Left);
    assert!(s.will_hit_wall(1, 11)); // next (-1, 9)
    let mut t = Snake::new(at(1, 1));
    t.update(5, 5);
    t.set_dir(Direction::Left);
    assert!(!t.will_hit_wall(5, 5)); // next (0, 2): the first column is legal
    t.update(5, 5);
    assert!(t.will_hit_wall(5, 5)); // next (-1, 2)
    // heading right towards x = width - 1
    let mut u = Snake::new(at(3, 1));
    u.update(5, 5);
    u.set_dir(Direction::Right);
    assert!(!u.will_hit_wall(5, 5)); // next (4, 2): the last column is legal
    assert!(u.will_hit_wall(4, 5)); // the same cell is beyond a narrower board
    u.update(5, 5);
    assert!(u.will_hit_wall(5, 5)); // next (5, 2)
    // heading up towards y = 0
    let mut v = Snake::new(at(2, 0));
    v.update(5, 5);
    v.set_dir(Direction::Right);
    v.update(5, 5);
    v.set_dir(Direction::Up);
    assert!(!v.will_hit_wall(5, 5)); // next (3, 0): the first row is legal
    v.update(5, 5);
    assert!(v.will_hit_wall(5, 5)); // next (3, -1)
}

#[test]
fn wall_test_on_an_empty_board_is_always_true() {
    let s = Snake::new(at(0, 0));
    assert!(s.will_hit_wall(0, 0));
    assert!(s.will_hit_wall(0, 5));
    assert!(s.will_hit_wall(5, 0));
}

#[test]
fn wall_test_at_the_edge_of_the_integers() {
    let mut s = Snake::new(at(i32::MAX, i32::MAX - 1));
    assert!(!s.will_hit_wall(u32::MAX, u32::MAX));
    s.update(u32::MAX, u32::MAX);
    // the next head, (i32::MAX, i32::MAX + 1), fits no position but is a cell
    // of a board that large
    assert!(!s.will_hit_wall(u32::MAX, u32::MAX));
    assert!(s.will_hit_wall(u32::MAX, i32::MAX as u32 + 1));
    assert!(!s.will_tail_overlapp());
}

#[test]
fn straight_snake_never_overlaps() {
    let mut s = Snake::new(at(1, 0));
    for _ in 0..500 {
        assert!(!s.is_tail_overlapping());
        assert!(!s.will_tail_overlapp());
        s.update(3, 1000);
    }
}

#[test]
fn tight_circle_runs_into_the_trail() {
    let mut s = Snake::new(at(5, 5));
    let c = Color { r: 300, g: 400, b: 500, a: 1000 };
    // lengthen the trail to five cells
    for _ in 0..3 {
        s.update(20, 20);
        s.grow_with(c);
    }
    s.update(20, 20);
    assert_eq!(*s.get_head_pos(), at(5, 9));
    assert_eq!(s.body(), vec![at(5, 8), at(5, 7), at(5, 6), at(5, 5), at(5, 4)]);
    s.set_dir(Direction::Right);
    s.update(20, 20);
    s.set_dir(Direction::Up);
    s.update(20, 20);
    assert_eq!(*s.get_head_pos(), at(6, 8));
    assert!(!s.will_tail_overlapp());
    s.set_dir(Direction::Left);
    // next head (5, 8) is a cell of the trail
    assert_eq!(s.body(), vec![at(6, 9), at(5, 9), at(5, 8), at(5, 7), at(5, 6)]);
    assert!(s.will_tail_overlapp());
    assert!(!s.is_tail_overlapping());
    s.update(20, 20);
    assert!(s.is_tail_overlapping());
}

#[test]
fn get_len_counts_cells_gained() {
    let mut s = Snake::new(at(5, 5));
    let c = Color { r: 300, g: 400, b: 500, a: 1000 };
    assert_eq!(s.get_len(), 0);
    s.grow_with(c);
    assert_eq!(s.get_len(), 1);
    s.grow_with(c);
    s.grow_with(c);
    assert_eq!(s.get_len(), 3);
}

#[test]
fn vivid_colours_stay_in_range_and_vary() {
    assert_eq!(VIVID_FLOOR, 200);
    assert_eq!(CHANNEL_FULL, 1000);
    let first = random_vivid();
    let mut varied = false;
    for _ in 0..500 {
        let c = random_vivid();
        assert!(VIVID_FLOOR <= c.r && c.r < CHANNEL_FULL);
        assert!(VIVID_FLOOR <= c.g && c.g < CHANNEL_FULL);
        assert!(VIVID_FLOOR <= c.b && c.b < CHANNEL_FULL);
        assert_eq!(c.a, CHANNEL_FULL);
        if c != first {
            varied = true;
        }
    }
    assert!(varied);
}
