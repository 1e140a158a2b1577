//! What follows from the snake's rules: how long the trail is, when a request
//! for a heading counts, and which shapes keep the snake off its own trail.

use crate::colors::Color;
use crate::physics::{Cell, Direction};
use crate::snake::{SnakeView, INITIAL_SNAKE_TAIL_LENGTH};
use vstd::prelude::*;

verus! {

/// A new snake trails straight behind its head, with a trail of the initial
/// length and nothing gained.
pub proof fn lemma_spawn_is_straight(head: Cell)
    ensures
        SnakeView::spawn(head).wf(),
        SnakeView::spawn(head).trails_straight(),
        SnakeView::spawn(head).body.len() == INITIAL_SNAKE_TAIL_LENGTH,
        SnakeView::spawn(head).net_growth() == 0,
{
}

/// A new snake takes no cell twice.
pub proof fn lemma_spawn_is_simple(head: Cell)
    ensures
        SnakeView::spawn(head).is_simple(),
{
}

/// A request for a heading moves nothing.
pub proof fn lemma_turn_keeps_simple(s: SnakeView, dir: Direction)
    requires
        s.is_simple(),
    ensures
        s.turn(dir).is_simple(),
        s.turn(dir).head == s.head,
        s.turn(dir).body == s.body,
{
}

/// A snake that takes no cell twice, but for a doubled tip, and whose next
/// step does not lead onto its trail, takes no cell twice after that step,
/// also if it grows right after it.
pub proof fn lemma_step_keeps_simple(s: SnakeView, color: Color)
    requires
        s.is_simple(),
        !s.will_overlap(),
        s.body.len() > 0,
    ensures
        s.advance().is_simple(),
        s.advance().grow(color).is_simple(),
{
    let a = s.advance();
    let n = s.body.len() as int;
    assert forall|i: int| 1 <= i < n implies #[trigger] a.body[i] == s.body[i - 1] by {}
    assert forall|i: int, j: int| 0 <= i < j < n implies a.body[i] != a.body[j] by {
        assert(a.body[j] == s.body[j - 1]);
    }
    assert(!a.overlaps()) by {
        assert forall|i: int| 0 <= i < n implies #[trigger] a.body[i] != a.head by {
            if i > 0 {
                assert(s.body[i - 1] != s.next_head());
            }
        }
    }
    let g = a.grow(color);
    assert forall|i: int| 0 <= i < n implies #[trigger] g.body[i] == a.body[i] by {}
    assert(g.body[n] == a.body[n - 1]);
}

/// A snake whose trail lies straight behind its head neither lies on its
/// trail nor steps onto it, and it keeps that shape when it steps ahead, when
/// it grows, and when it is asked for the heading it has or for the opposite
/// one.
pub proof fn lemma_straight_snake_is_safe(s: SnakeView, color: Color)
    requires
        s.wf(),
        s.trails_straight(),
    ensures
        !s.overlaps(),
        !s.will_overlap(),
        s.advance().trails_straight(),
        s.grow(color).trails_straight(),
        s.turn(s.direction).trails_straight(),
        s.turn(s.direction.spec_opposite()).trails_straight(),
{
    let a = s.advance();
    assert forall|i: int| 0 <= i < a.body.len() implies a.is_behind_head(#[trigger] a.body[i]) by {
        if i > 0 {
            assert(a.body[i] == s.body[i - 1]);
            assert(s.is_behind_head(s.body[i - 1]));
        }
    }
    let g = s.grow(color);
    assert forall|i: int| 0 <= i < g.body.len() implies g.is_behind_head(#[trigger] g.body[i]) by {
        if i < s.body.len() {
            assert(g.body[i] == s.body[i]);
        } else {
            assert(g.body[i] == s.body[s.body.len() - 1]);
        }
    }
}

/// A snake that starts with its trail straight behind its head and only ever
/// steps ahead never runs into itself, however far it goes.
pub proof fn lemma_straight_line_never_self_collides(s: SnakeView, n: nat)
    requires
        s.wf(),
        s.trails_straight(),
    ensures
        s.advance_times(n).wf(),
        s.advance_times(n).trails_straight(),
        !s.advance_times(n).overlaps(),
        !s.advance_times(n).will_overlap(),
    decreases n,
{
    if n > 0 {
        lemma_straight_line_never_self_collides(s, (n - 1) as nat);
        lemma_straight_snake_is_safe(s.advance_times((n - 1) as nat), s.color);
    }
    lemma_straight_snake_is_safe(s.advance_times(n), s.color);
}

/// A request for the heading opposite to the present one changes nothing,
/// however often it is made.
pub proof fn lemma_reversal_is_ignored(s: SnakeView, n: nat)
    ensures
        s.turn(s.direction.spec_opposite()) == s,
        s.turn_times(s.direction.spec_opposite(), n) == s,
    decreases n,
{
    if n > 0 {
        lemma_reversal_is_ignored(s, (n - 1) as nat);
    }
}

/// A new snake takes the first request made of it, unless it asks the snake
/// to reverse.
pub proof fn lemma_new_snake_takes_first_request(head: Cell, dir: Direction)
    ensures
        SnakeView::spawn(head).may_turn,
        dir != Direction::Up ==> SnakeView::spawn(head).turn(dir).direction == dir,
        dir == Direction::Up ==> SnakeView::spawn(head).turn(dir) == SnakeView::spawn(head),
{
}

/// Between two steps at most one request for a heading is taken: after the
/// first one taken, any further one changes nothing.
pub proof fn lemma_one_turn_per_step(s: SnakeView, first: Direction, second: Direction)
    ensures
        s.turn(first) != s ==> s.turn(first).turn(second) == s.turn(first),
        s.advance().may_turn,
{
}

/// A step keeps the length of the trail. Growth followed by a step leaves the
/// trail one cell longer than before, and the gain one higher.
pub proof fn lemma_length_accounting(s: SnakeView, color: Color)
    ensures
        s.advance().body.len() == s.body.len(),
        s.advance().net_growth() == s.net_growth(),
        s.grow(color).advance().body.len() == s.body.len() + 1,
        s.grow(color).advance().net_growth() == s.net_growth() + 1,
{
}

/// Whatever a snake does, its trail stays at least as long as that of a new
/// snake.
pub proof fn lemma_trail_never_shrinks(s: SnakeView, color: Color, dir: Direction)
    requires
        s.wf(),
    ensures
        s.advance().wf(),
        s.grow(color).wf(),
        s.turn(dir).wf(),
        s.advance().body.len() >= s.body.len(),
        s.grow(color).body.len() >= s.body.len(),
        s.turn(dir).body.len() >= s.body.len(),
{
}

} // verus!
