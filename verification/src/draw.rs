//! Where things go on the screen, in whole pixels. To paint them is left to
//! whoever holds a window.

use crate::physics::{Direction, Position};
use vstd::prelude::*;

verus! {

/// Side of a grid cell, in pixels.
pub const BLOCK_SIZE: u32 = 25;

/// Side of an eye of the snake, in pixels.
pub const EYE_SIZE: u32 = 5;

/// Distance of an eye from the two nearest sides of the head's cell.
pub const EYE_INSET: u32 = 5;

/// A rectangle on the screen: its top left corner, its width and its height.
#[derive(Clone, Copy, Debug, PartialEq, Eq, Structural)]
pub struct Rect {
    pub x: i64,
    pub y: i64,
    pub w: i64,
    pub h: i64,
}

/// The square that the cell at `pos` takes up.
pub open spec fn spec_block_rect(pos: Position) -> Rect {
    Rect {
        x: (pos.x * BLOCK_SIZE) as i64,
        y: (pos.y * BLOCK_SIZE) as i64,
        w: BLOCK_SIZE as i64,
        h: BLOCK_SIZE as i64,
    }
}

/// An eye whose top left corner lies `dx` to the right of and `dy` below the
/// top left corner of the cell at `pos`.
pub open spec fn eye_at(pos: Position, dx: int, dy: int) -> Rect {
    Rect {
        x: (pos.x * BLOCK_SIZE + dx) as i64,
        y: (pos.y * BLOCK_SIZE + dy) as i64,
        w: EYE_SIZE as i64,
        h: EYE_SIZE as i64,
    }
}

/// The two eyes of a snake whose head is at `pos` and which looks along
/// `dir`: they sit in the two corners of the cell that lie ahead.
pub open spec fn spec_eye_rects(pos: Position, dir: Direction) -> (Rect, Rect) {
    let near = EYE_INSET as int;
    let far = BLOCK_SIZE - EYE_SIZE - EYE_INSET;
    match dir {
        Direction::Up => (eye_at(pos, near, near), eye_at(pos, far, near)),
        Direction::Right => (eye_at(pos, far, near), eye_at(pos, far, far)),
        Direction::Down => (eye_at(pos, near, far), eye_at(pos, far, far)),
        Direction::Left => (eye_at(pos, near, near), eye_at(pos, near, far)),
    }
}

/// The length in pixels of `n` grid cells in a row.
pub fn blocks_in_pixels(n: u32) -> (pixels: u32)
    requires
        n * BLOCK_SIZE <= u32::MAX,
    ensures
        pixels == n * BLOCK_SIZE,
{
    n * BLOCK_SIZE
}

#[verifier::when_used_as_spec(spec_block_rect)]
pub fn block_rect(pos: Position) -> (rect: Rect)
    ensures
        rect == spec_block_rect(pos),
{
    Rect {
        x: pos.x as i64 * BLOCK_SIZE as i64,
        y: pos.y as i64 * BLOCK_SIZE as i64,
        w: BLOCK_SIZE as i64,
        h: BLOCK_SIZE as i64,
    }
}

#[verifier::when_used_as_spec(spec_eye_rects)]
pub fn eye_rects(pos: Position, dir: Direction) -> (eyes: (Rect, Rect))
    ensures
        eyes == spec_eye_rects(pos, dir),
{
    let x = pos.x as i64 * BLOCK_SIZE as i64;
    let y = pos.y as i64 * BLOCK_SIZE as i64;
    let near = EYE_INSET as i64;
    let far = (BLOCK_SIZE - EYE_SIZE - EYE_INSET) as i64;
    let side = EYE_SIZE as i64;
    match dir {
        Direction::Up => (
            Rect { x: x + near, y: y + near, w: side, h: side },
            Rect { x: x + far, y: y + near, w: side, h: side },
        ),
        Direction::Right => (
            Rect { x: x + far, y: y + near, w: side, h: side },
            Rect { x: x + far, y: y + far, w: side, h: side },
        ),
        Direction::Down => (
            Rect { x: x + near, y: y + far, w: side, h: side },
            Rect { x: x + far, y: y + far, w: side, h: side },
        ),
        Direction::Left => (
            Rect { x: x + near, y: y + near, w: side, h: side },
            Rect { x: x + near, y: y + far, w: side, h: side },
        ),
    }
}

/// The rectangle that covers a board of `size.0` by `size.1` cells.
pub fn overlay_rect(size: (u32, u32)) -> (rect: Rect)
    ensures
        rect == (Rect { x: 0, y: 0, w: (size.0 * BLOCK_SIZE) as i64, h: (size.1 * BLOCK_SIZE) as i64 }),
{
    Rect { x: 0, y: 0, w: size.0 as i64 * BLOCK_SIZE as i64, h: size.1 as i64 * BLOCK_SIZE as i64 }
}

} // verus!
