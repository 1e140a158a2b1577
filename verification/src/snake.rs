//! The snake: a head, the trail of cells behind it, and a heading.

use crate::colors::{random_vivid, Color};
use crate::physics::{Cell, Direction, Position};
use std::collections::VecDeque;
use vstd::prelude::*;

verus! {

/// Number of trailing cells of a freshly made snake.
pub const INITIAL_SNAKE_TAIL_LENGTH: usize = 2;

/// The cells that a sequence of stored positions stands for.
pub open spec fn cells(s: Seq<Position>) -> Seq<Cell> {
    s.map_values(|p: Position| p@)
}

/// What a snake is, mathematically.
pub struct SnakeView {
    /// Where the next step leads.
    pub direction: Direction,
    pub head: Cell,
    /// The trail, from the cell next to the head to the tip of the tail.
    pub body: Seq<Cell>,
    /// Whether a request for a heading can still be taken: so it is for a new
    /// snake and after every step, until one request has been taken.
    pub may_turn: bool,
    pub color: Color,
}

impl SnakeView {
    /// A new snake: heading down, its trail straight above the head, and
    /// ready to turn.
    pub open spec fn spawn(head: Cell) -> SnakeView {
        SnakeView {
            direction: Direction::Down,
            head,
            body: Seq::new(
                INITIAL_SNAKE_TAIL_LENGTH as nat,
                |i: int| Cell { x: head.x, y: head.y - (i + 1) },
            ),
            may_turn: true,
            color: Color::spec_snake(),
        }
    }

    /// The trail is at least as long as that of a new snake.
    pub open spec fn wf(self) -> bool {
        self.body.len() >= INITIAL_SNAKE_TAIL_LENGTH
    }

    /// The cell the head moves to on the next step.
    pub open spec fn next_head(self) -> Cell {
        self.head.step(self.direction)
    }

    /// The next step leaves a board of `width` by `height` cells.
    pub open spec fn hits_wall(self, width: int, height: int) -> bool {
        !self.next_head().on_board(width, height)
    }

    /// The head lies on the trail.
    pub open spec fn overlaps(self) -> bool {
        self.body.contains(self.head)
    }

    /// The next step leads onto the trail as it is now.
    pub open spec fn will_overlap(self) -> bool {
        self.body.contains(self.next_head())
    }

    /// A request for heading `dir`. It is dropped if `dir` points backwards
    /// or if a request has been taken already since the last step.
    pub open spec fn turn(self, dir: Direction) -> SnakeView {
        if dir == self.direction.spec_opposite() || !self.may_turn {
            self
        } else {
            SnakeView { direction: dir, may_turn: false, ..self }
        }
    }

    /// One step: the old head becomes the first cell of the trail, the tip of
    /// the tail is given up, the head moves one cell along the heading. A
    /// snake without a trail only moves its head.
    pub open spec fn advance(self) -> SnakeView {
        SnakeView {
            head: self.next_head(),
            body: if self.body.len() == 0 {
                self.body
            } else {
                (seq![self.head] + self.body).drop_last()
            },
            may_turn: true,
            ..self
        }
    }

    /// Growth: the tip of the tail is doubled (for a snake without a trail the
    /// head's cell starts one), and the snake takes the colour `color`.
    pub open spec fn grow(self, color: Color) -> SnakeView {
        SnakeView {
            body: self.body.push(
                if self.body.len() == 0 {
                    self.head
                } else {
                    self.body.last()
                },
            ),
            color,
            ..self
        }
    }

    /// How many cells the trail has gained since the start.
    pub open spec fn net_growth(self) -> int {
        self.body.len() - INITIAL_SNAKE_TAIL_LENGTH
    }

    /// The snake after `n` requests for heading `dir` with no step between
    /// them.
    pub open spec fn turn_times(self, dir: Direction, n: nat) -> SnakeView
        decreases n,
    {
        if n == 0 {
            self
        } else {
            self.turn_times(dir, (n - 1) as nat).turn(dir)
        }
    }

    /// The snake after `n` steps along its heading.
    pub open spec fn advance_times(self, n: nat) -> SnakeView
        decreases n,
    {
        if n == 0 {
            self
        } else {
            self.advance_times((n - 1) as nat).advance()
        }
    }

    /// The cell lies on the line through the head along the heading, and
    /// strictly behind the head.
    pub open spec fn is_behind_head(self, c: Cell) -> bool {
        match self.direction {
            Direction::Up => c.x == self.head.x && c.y > self.head.y,
            Direction::Down => c.x == self.head.x && c.y < self.head.y,
            Direction::Left => c.y == self.head.y && c.x > self.head.x,
            Direction::Right => c.y == self.head.y && c.x < self.head.x,
        }
    }

    /// No cell is taken twice by head and trail, except that the tip of the
    /// tail may lie on the cell before it, as it does after growth.
    pub open spec fn is_simple(self) -> bool {
        &&& !self.overlaps()
        &&& forall|i: int, j: int|
            0 <= i < j < self.body.len() && self.body[i] == self.body[j] ==> i + 1 == j && j + 1
                == self.body.len()
    }

    /// The whole trail lies straight behind the head: the shape of a snake
    /// that has kept its heading for at least as many steps as it is long.
    pub open spec fn trails_straight(self) -> bool {
        forall|i: int| 0 <= i < self.body.len() ==> self.is_behind_head(#[trigger] self.body[i])
    }
}

pub struct Snake {
    direction: Direction,
    head: Position,
    /// The trail, newest cell first.
    tail: VecDeque<Position>,
    /// Set at the start and by every step, cleared by an accepted request
    /// for a heading.
    updated_tail_pos: bool,
    color: Color,
}

impl View for Snake {
    type V = SnakeView;

    closed spec fn view(&self) -> SnakeView {
        SnakeView {
            direction: self.direction,
            head: self.head@,
            body: cells(self.tail@),
            may_turn: self.updated_tail_pos,
            color: self.color,
        }
    }
}

impl Snake {
    pub fn new(head: Position) -> (s: Snake)
        requires
            head.y - INITIAL_SNAKE_TAIL_LENGTH >= i32::MIN,
        ensures
            s@ == SnakeView::spawn(head@),
    {
        let (x, y) = (head.x, head.y);
        let mut tail: VecDeque<Position> = VecDeque::new();
        let mut i: usize = 1;
        while i <= INITIAL_SNAKE_TAIL_LENGTH
            invariant
                1 <= i <= INITIAL_SNAKE_TAIL_LENGTH + 1,
                y - INITIAL_SNAKE_TAIL_LENGTH >= i32::MIN,
                tail@.len() == i - 1,
                forall|j: int| 0 <= j < i - 1 ==> tail@[j] == (Position { x, y: (y - (j + 1)) as i32 }),
            decreases INITIAL_SNAKE_TAIL_LENGTH + 1 - i,
        {
            tail.push_back(Position { x, y: y - i as i32 });
            i += 1;
        }
        let s = Snake {
            direction: Direction::Down,
            head: Position { x, y },
            tail,
            updated_tail_pos: true,
            color: Color::snake(),
        };
        assert(s@.body =~= SnakeView::spawn(head@).body);
        s
    }

    /// Moves the snake one cell along its heading. The board's size plays no
    /// part: whether the step is allowed is for the caller to ask first.
    pub fn update(&mut self, _width: u32, _height: u32)
        requires
            old(self)@.next_head().fits(),
        ensures
            final(self)@ == old(self)@.advance(),
    {
        if self.tail.len() > 0 {
            self.tail.push_front(self.head);
            self.tail.pop_back();
        }
        match self.direction {
            Direction::Up => self.head.y = self.head.y - 1,
            Direction::Right => self.head.x = self.head.x + 1,
            Direction::Down => self.head.y = self.head.y + 1,
            Direction::Left => self.head.x = self.head.x - 1,
        }
        self.updated_tail_pos = true;
        assert(self@.body =~= old(self)@.advance().body);
    }

    /// Whether the next step leaves the board.
    pub fn will_hit_wall(&self, width: u32, height: u32) -> (hit: bool)
        ensures
            hit == self@.hits_wall(width as int, height as int),
    {
        let (x, y) = self.next_head_wide();
        x < 0 || x >= width as i64 || y < 0 || y >= height as i64
    }

    pub fn set_dir(&mut self, dir: Direction)
        ensures
            final(self)@ == old(self)@.turn(dir),
    {
        if dir == self.direction.opposite() || !self.updated_tail_pos {
            return ;
        }
        self.direction = dir;
        self.updated_tail_pos = false;
    }

    /// The heading the snake has once it has been asked for `dir`.
    pub fn heading_after(&self, dir: Direction) -> (heading: Direction)
        ensures
            heading == self@.turn(dir).direction,
    {
        if dir == self.direction.opposite() || !self.updated_tail_pos {
            self.direction
        } else {
            dir
        }
    }

    /// Grows by one cell and takes on a colour drawn at random.
    pub fn grow(&mut self)
        ensures
            final(self)@ == old(self)@.grow(final(self)@.color),
            final(self)@.color.is_vivid(),
    {
        let color = random_vivid();
        self.grow_with(color);
    }

    /// Grows by one cell and takes on `color`.
    pub fn grow_with(&mut self, color: Color)
        ensures
            final(self)@ == old(self)@.grow(color),
    {
        let n = self.tail.len();
        let last = if n > 0 {
            self.tail[n - 1]
        } else {
            self.head
        };
        self.tail.push_back(last);
        self.color = color;
        assert(self@.body =~= old(self)@.grow(color).body);
    }

    pub fn get_head_pos(&self) -> (head: &Position)
        ensures
            head@ == self@.head,
    {
        &self.head
    }

    /// Whether the head lies on the trail.
    pub fn is_tail_overlapping(&self) -> (overlapping: bool)
        ensures
            overlapping == self@.overlaps(),
    {
        self.tail_contains(self.head.x as i64, self.head.y as i64)
    }

    /// Whether `pos` is a cell of the trail.
    pub fn trail_covers(&self, pos: Position) -> (covered: bool)
        ensures
            covered == self@.body.contains(pos@),
    {
        self.tail_contains(pos.x as i64, pos.y as i64)
    }

    /// The cell the head moves to on the next step.
    pub fn next_head_pos(&self) -> (next: Position)
        requires
            self@.next_head().fits(),
        ensures
            next@ == self@.next_head(),
    {
        let mut pos = self.head;
        match self.direction {
            Direction::Up => pos.y = pos.y - 1,
            Direction::Left => pos.x = pos.x - 1,
            Direction::Down => pos.y = pos.y + 1,
            Direction::Right => pos.x = pos.x + 1,
        }
        pos
    }

    /// Whether the next step leads onto the trail.
    pub fn will_tail_overlapp(&self) -> (overlapping: bool)
        ensures
            overlapping == self@.will_overlap(),
    {
        let (x, y) = self.next_head_wide();
        self.tail_contains(x, y)
    }

    /// Number of cells gained since the start.
    pub fn get_len(&self) -> (n: usize)
        requires
            self@.wf(),
        ensures
            n == self@.net_growth(),
    {
        self.tail.len() - INITIAL_SNAKE_TAIL_LENGTH
    }

    pub fn direction(&self) -> (d: Direction)
        ensures
            d == self@.direction,
    {
        self.direction
    }

    pub fn color(&self) -> (c: Color)
        ensures
            c == self@.color,
    {
        self.color
    }

    /// The trail as a vector, from the cell next to the head to the tip.
    pub fn body(&self) -> (trail: Vec<Position>)
        ensures
            cells(trail@) == self@.body,
    {
        let mut trail: Vec<Position> = Vec::new();
        let mut i: usize = 0;
        while i < self.tail.len()
            invariant
                i <= self.tail@.len(),
                trail@ == self.tail@.subrange(0, i as int),
            decreases self.tail@.len() - i,
        {
            trail.push(self.tail[i]);
            assert(trail@ =~= self.tail@.subrange(0, i + 1));
            i += 1;
        }
        assert(trail@ =~= self.tail@);
        trail
    }

    /// The next head in integers wide enough for a step off the edge of `i32`.
    fn next_head_wide(&self) -> (next: (i64, i64))
        ensures
            (Cell { x: next.0 as int, y: next.1 as int }) == self@.next_head(),
    {
        let x = self.head.x as i64;
        let y = self.head.y as i64;
        match self.direction {
            Direction::Up => (x, y - 1),
            Direction::Left => (x - 1, y),
            Direction::Down => (x, y + 1),
            Direction::Right => (x + 1, y),
        }
    }

    fn tail_contains(&self, x: i64, y: i64) -> (found: bool)
        ensures
            found == self@.body.contains(Cell { x: x as int, y: y as int }),
    {
        let ghost target = Cell { x: x as int, y: y as int };
        let mut i: usize = 0;
        while i < self.tail.len()
            invariant
                i <= self.tail@.len(),
                target == (Cell { x: x as int, y: y as int }),
                forall|j: int| 0 <= j < i ==> cells(self.tail@)[j] != target,
            decreases self.tail@.len() - i,
        {
            let p = self.tail[i];
            if p.x as i64 == x && p.y as i64 == y {
                assert(cells(self.tail@)[i as int] == target);
                return true;
            }
            i += 1;
        }
        false
    }
}

} // verus!
