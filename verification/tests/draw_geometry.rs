use rsnake::draw::{block_rect, blocks_in_pixels, eye_rects, overlay_rect, Rect, BLOCK_SIZE};
use rsnake::physics::{Direction, Position};

fn eye(x: i64, y: i64) -> Rect {
    Rect { x, y, w: 5, h: 5 }
}

#[test]
fn block_size_is_twenty_five() {
    assert_eq!(BLOCK_SIZE, 25);
}

#[test]
fn blocks_in_pixels_scales_by_block_size() {
    assert_eq!(blocks_in_pixels(0), 0);
    assert_eq!(blocks_in_pixels(1), 25);
    assert_eq!(blocks_in_pixels(3), 75);
    assert_eq!(blocks_in_pixels(25), 625);
    assert_eq!(blocks_in_pixels(171_798_691), 4_294_967_275);
}

#[test]
fn block_rect_is_the_cell_square() {
    assert_eq!(block_rect(Position { x: 0, y: 0 }), Rect { x: 0, y: 0, w: 25, h: 25 });
    assert_eq!(block_rect(Position { x: 3, y: 7 }), Rect { x: 75, y: 175, w: 25, h: 25 });
    assert_eq!(block_rect(Position { x: 2, y: -2 }), Rect { x: 50, y: -50, w: 25, h: 25 });
    assert_eq!(
        block_rect(Position { x: i32::MAX, y: i32::MIN }),
        Rect { x: 53_687_091_175, y: -53_687_091_200, w: 25, h: 25 }
    );
}

#[test]
fn eyes_sit_in_the_corners_ahead() {
    let p = Position { x: 2, y: 4 };
    assert_eq!(eye_rects(p, Direction::Up), (eye(55, 105), eye(65, 105)));
    assert_eq!(eye_rects(p, Direction::Right), (eye(65, 105), eye(65, 115)));
    assert_eq!(eye_rects(p, Direction::Down), (eye(55, 115), eye(65, 115)));
    assert_eq!(eye_rects(p, Direction::Left), (eye(55, 105), eye(55, 115)));
}

#[test]
fn overlay_covers_the_board() {
    assert_eq!(overlay_rect((25, 25)), Rect { x: 0, y: 0, w: 625, h: 625 });
    assert_eq!(overlay_rect((10, 4)), Rect { x: 0, y: 0, w: 250, h: 100 });
    assert_eq!(
        overlay_rect((u32::MAX, 0)),
        Rect { x: 0, y: 0, w: 107_374_182_375, h: 0 }
    );
}
