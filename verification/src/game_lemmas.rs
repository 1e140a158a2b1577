//! What follows from the rules of a session: what holds of every session,
//! what a pause, a restart and a meal do, and how a game can end.

use crate::colors::Color;
use crate::game::{GameStatus, GameView, Key, POINTS_PER_CELL};
use crate::physics::{Cell, Direction};
use crate::snake::{SnakeView, INITIAL_SNAKE_TAIL_LENGTH};
use crate::snake_lemmas::{
    lemma_spawn_is_simple, lemma_step_keeps_simple, lemma_straight_snake_is_safe,
    lemma_turn_keeps_simple,
};
use vstd::prelude::*;

verus! {

/// A fresh session is well formed if the head and the fruit are on its board.
pub proof fn lemma_fresh_is_wf(width: int, height: int, head: Cell, fruit: Cell)
    requires
        1 <= width <= i32::MAX,
        1 <= height <= i32::MAX,
        head.on_board(width, height),
        fruit.on_board(width, height),
    ensures
        GameView::fresh(width, height, head, fruit).wf(),
{
    lemma_spawn_is_simple(head);
}

/// A tick keeps a session well formed and its board as it is.
pub proof fn lemma_tick_keeps_wf(g: GameView, fruit: Cell, color: Color)
    requires
        g.wf(),
        g.eats() ==> fruit.on_board(g.width, g.height),
    ensures
        g.tick(fruit, color).wf(),
        g.tick(fruit, color).width == g.width && g.tick(fruit, color).height == g.height,
{
    if !g.halted() {
        match g.pending_direction {
            Some(d) => lemma_turn_keeps_simple(g.snake, d),
            None => {},
        }
        if !g.crashes() {
            lemma_step_keeps_simple(g.steered(), color);
        }
    }
}

/// Nothing that can happen to a session breaks what holds of every session:
/// the snake keeps at least its initial length and takes no cell twice but
/// for a doubled tip, its head and the fruit stay on the board, and the score
/// is ten points for each cell gained.
pub proof fn lemma_wf_is_invariant(
    g: GameView,
    fruit: Cell,
    color: Color,
    dir: Direction,
    key: Key,
    head: Cell,
)
    requires
        g.wf(),
        fruit.on_board(g.width, g.height),
        head.on_board(g.width, g.height),
    ensures
        g.tick(fruit, color).wf(),
        g.start().wf(),
        g.pause().wf(),
        g.request_stop().wf(),
        g.apply_input(dir).wf(),
        g.key_down(key).wf(),
        g.drained().wf(),
        g.restart(head, fruit).wf(),
{
    lemma_spawn_is_simple(head);
    lemma_tick_keeps_wf(g, fruit, color);
}

/// The board of a session never changes.
pub proof fn lemma_board_is_fixed(
    g: GameView,
    fruit: Cell,
    color: Color,
    dir: Direction,
    key: Key,
    head: Cell,
)
    ensures
        g.tick(fruit, color).width == g.width && g.tick(fruit, color).height == g.height,
        g.start().width == g.width && g.start().height == g.height,
        g.pause().width == g.width && g.pause().height == g.height,
        g.request_stop().width == g.width && g.request_stop().height == g.height,
        g.apply_input(dir).width == g.width && g.apply_input(dir).height == g.height,
        g.key_down(key).width == g.width && g.key_down(key).height == g.height,
        g.drained().width == g.width && g.drained().height == g.height,
        g.restart(head, fruit).width == g.width && g.restart(head, fruit).height == g.height,
{
}

/// Once the game is over, no tick, key or request for a heading changes the
/// snake, the fruit, the score or the status; only a restart does.
pub proof fn lemma_game_over_is_terminal(
    g: GameView,
    fruit: Cell,
    color: Color,
    dir: Direction,
    key: Key,
)
    requires
        g.status == GameStatus::GameOver,
    ensures
        g.tick(fruit, color) == (GameView { loop_running: g.loop_running && !g.stop_requested, ..g }),
        g.apply_input(dir) == g,
        g.key_down(key) == g,
        g.start().status == GameStatus::GameOver,
        g.pause().status == GameStatus::GameOver,
{
}

/// Ticks keep a session well formed, however many there are, as long as
/// each fruit is drawn on the board.
pub proof fn lemma_run_keeps_wf(g: GameView, draws: Seq<(Cell, Color)>)
    requires
        g.wf(),
        g.draws_on_board(draws),
    ensures
        g.run(draws).wf(),
        g.run(draws).width == g.width && g.run(draws).height == g.height,
    decreases draws.len(),
{
    if draws.len() > 0 {
        let earlier = draws.drop_last();
        assert forall|i: int| 0 <= i < earlier.len() implies (#[trigger] earlier[i]).0.on_board(
            g.width,
            g.height,
        ) by {
            assert(earlier[i] == draws[i]);
        }
        lemma_run_keeps_wf(g, earlier);
        assert(draws.last() == draws[draws.len() - 1]);
        lemma_tick_keeps_wf(g.run(earlier), draws.last().0, draws.last().1);
    }
}

/// While a session is paused, ticks change nothing, however many there are.
pub proof fn lemma_pause_freezes(g: GameView, draws: Seq<(Cell, Color)>)
    requires
        !g.stop_requested,
    ensures
        g.pause().run(draws) == g.pause(),
    decreases draws.len(),
{
    if draws.len() > 0 {
        lemma_pause_freezes(g, draws.drop_last());
    }
}

/// To start a paused session undoes the pause and nothing else, and at the
/// next tick the snake moves on, unless it crashes at that tick.
pub proof fn lemma_start_resumes(g: GameView, fruit: Cell, color: Color)
    requires
        g.status == GameStatus::Playing,
        g.loop_running,
        !g.stop_requested,
        !g.paused,
    ensures
        g.pause().start() == g,
        !g.crashes() ==> g.pause().start().tick(fruit, color).snake.head == g.steered().next_head(),
        g.crashes() ==> g.pause().start().tick(fruit, color).status == GameStatus::GameOver,
{
}

/// A restart leaves a session as new on the same board, but for running at
/// once: nothing scored, status playing, a snake of the initial length that
/// has gained nothing, no request and no notice pending.
pub proof fn lemma_restart_is_fresh(g: GameView, head: Cell, fruit: Cell)
    ensures
        g.restart(head, fruit) == GameView::fresh(g.width, g.height, head, fruit).start(),
        g.restart(head, fruit).snake == SnakeView::spawn(head),
        g.restart(head, fruit).fruit == fruit,
        g.restart(head, fruit).pending_direction is None,
        g.restart(head, fruit).fruit_eaten is None,
        !g.restart(head, fruit).paused,
        g.restart(head, fruit).score == 0,
        g.restart(head, fruit).status == GameStatus::Playing,
        g.restart(head, fruit).snake.body.len() == INITIAL_SNAKE_TAIL_LENGTH,
        g.restart(head, fruit).snake.net_growth() == 0,
{
}

/// At a tick at which the snake eats, the score becomes ten points for each
/// cell gained, the meal included; the notice holds the cell the fruit was
/// on; the fruit moves to the cell drawn for it. The notice can be taken
/// once.
pub proof fn lemma_meal(g: GameView, fruit: Cell, color: Color)
    requires
        g.eats(),
    ensures
        g.tick(fruit, color).score == POINTS_PER_CELL * (g.snake.net_growth() + 1),
        g.tick(fruit, color).fruit_eaten == Some(g.fruit),
        g.tick(fruit, color).fruit == fruit,
        g.tick(fruit, color).snake.head == g.fruit,
        g.tick(fruit, color).snake.color == color,
        g.tick(fruit, color).snake.body.len() == g.snake.body.len() + 1,
        g.tick(fruit, color).drained().fruit_eaten is None,
{
}

/// To take the notice of a meal leaves none behind, so that taking it again
/// finds nothing and changes nothing.
pub proof fn lemma_drain_is_idempotent(g: GameView)
    ensures
        g.drained().fruit_eaten is None,
        g.drained().drained() == g.drained(),
        g.fruit_eaten is None ==> g.drained() == g,
{
}

/// A tick that finds the session running takes up the pending request, so
/// that a request counts at one tick only.
pub proof fn lemma_tick_takes_request(g: GameView, fruit: Cell, color: Color)
    requires
        !g.halted(),
    ensures
        g.tick(fruit, color).pending_direction is None,
        g.pending_direction is None ==> g.tick(fruit, color).snake.direction == g.snake.direction,
{
}

/// The first tick of a session takes up a request made before it: the snake
/// heads where it was asked to, unless that is backwards.
pub proof fn lemma_first_tick_takes_request(
    width: int,
    height: int,
    head: Cell,
    fruit: Cell,
    dir: Direction,
    next_fruit: Cell,
    color: Color,
)
    requires
        dir != Direction::Up,
    ensures
        GameView::fresh(width, height, head, fruit).start().apply_input(dir).tick(
            next_fruit,
            color,
        ).snake.direction == dir,
{
}

/// Of the requests for a heading made between two ticks, the last one wins.
pub proof fn lemma_last_input_wins(g: GameView, first: Direction, second: Direction)
    ensures
        g.apply_input(first).apply_input(second) == g.apply_input(second),
{
}

/// A request for the heading opposite to the snake's never turns the snake.
pub proof fn lemma_reversal_never_turns(g: GameView, fruit: Cell, color: Color)
    ensures
        g.apply_input(g.snake.direction.spec_opposite()).tick(fruit, color).snake.direction
            == g.snake.direction,
{
}

/// A session whose snake trails straight behind its head, and in which no
/// request turns the snake, never ends by the snake running into itself:
/// through any number of ticks the snake keeps its shape and its heading, and
/// if the game is over after them and was not before, the snake stands in
/// front of a wall.
pub proof fn lemma_straight_run_ends_only_at_wall(g: GameView, draws: Seq<(Cell, Color)>)
    requires
        g.wf(),
        g.snake.trails_straight(),
        g.steered().direction == g.snake.direction,
    ensures
        g.run(draws).snake.wf(),
        g.run(draws).snake.trails_straight(),
        g.run(draws).snake.direction == g.snake.direction,
        g.run(draws).steered().direction == g.snake.direction,
        g.run(draws).width == g.width && g.run(draws).height == g.height,
        !g.run(draws).snake.overlaps() && !g.run(draws).snake.will_overlap(),
        g.run(draws).status == GameStatus::GameOver ==> g.status == GameStatus::GameOver
            || g.run(draws).snake.hits_wall(g.width, g.height),
    decreases draws.len(),
{
    if draws.len() > 0 {
        let before = g.run(draws.drop_last());
        lemma_straight_run_ends_only_at_wall(g, draws.drop_last());
        lemma_straight_snake_is_safe(before.snake, draws.last().1);
        lemma_straight_snake_is_safe(before.steered(), draws.last().1);
        lemma_straight_snake_is_safe(before.steered().advance(), draws.last().1);
    }
    lemma_straight_snake_is_safe(g.run(draws).snake, g.snake.color);
}

} // verus!
