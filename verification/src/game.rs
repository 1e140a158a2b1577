//! A game session as a state machine. One call of [`Game::tick`] is one
//! step of the simulation; whoever owns the clock calls it at a fixed rate
//! and stops when it answers [`LoopControl::Stop`].

use crate::colors::{random_vivid, Color};
use crate::physics::{Cell, Direction, Position};
use crate::random::random_in_range;
use crate::game_lemmas::{lemma_fresh_is_wf, lemma_tick_keeps_wf};
use crate::snake::{cells, Snake, SnakeView};
use vstd::prelude::*;

verus! {

/// Simulation steps per second.
pub const FPS: u32 = 10;

/// Points for each cell the snake has gained.
pub const POINTS_PER_CELL: u32 = 10;

#[derive(Debug, Clone, Copy, PartialEq, Eq, Structural)]
pub enum GameStatus {
    Playing,
    GameOver,
}

/// What the timed loop does after a tick.
#[derive(Debug, Clone, Copy, PartialEq, Eq, Structural)]
pub enum LoopControl {
    Continue,
    Stop,
}

/// The keys the game tells apart.
#[derive(Debug, Clone, Copy, PartialEq, Eq, Structural)]
pub enum Key {
    A,
    W,
    D,
    S,
    Left,
    Up,
    Right,
    Down,
    R,
    Other,
}

impl Key {
    /// The heading the key asks for, if it is one of the eight steering keys.
    pub open spec fn spec_direction(self) -> Option<Direction> {
        match self {
            Key::A | Key::Left => Some(Direction::Left),
            Key::W | Key::Up => Some(Direction::Up),
            Key::D | Key::Right => Some(Direction::Right),
            Key::S | Key::Down => Some(Direction::Down),
            _ => None,
        }
    }

    #[verifier::when_used_as_spec(spec_direction)]
    pub fn direction(self) -> (dir: Option<Direction>)
        ensures
            dir == self.spec_direction(),
    {
        match self {
            Key::A | Key::Left => Some(Direction::Left),
            Key::W | Key::Up => Some(Direction::Up),
            Key::D | Key::Right => Some(Direction::Right),
            Key::S | Key::Down => Some(Direction::Down),
            _ => None,
        }
    }
}

/// The cell of a stored position, if there is one.
pub open spec fn cell_of(p: Option<Position>) -> Option<Cell> {
    match p {
        Some(p) => Some(p@),
        None => None,
    }
}

/// What a game session is, mathematically.
pub struct GameView {
    pub snake: SnakeView,
    pub fruit: Cell,
    pub width: int,
    pub height: int,
    pub score: int,
    pub status: GameStatus,
    pub paused: bool,
    /// The latest heading asked for and not yet handed to the snake.
    pub pending_direction: Option<Direction>,
    /// Set to make the timed loop end at its next tick.
    pub stop_requested: bool,
    /// Whether a timed loop has been asked for and has not ended.
    pub loop_running: bool,
    /// Where the snake last ate, until somebody takes the notice.
    pub fruit_eaten: Option<Cell>,
}

impl GameView {
    /// A session before its first tick: paused, nothing scored, no loop.
    pub open spec fn fresh(width: int, height: int, head: Cell, fruit: Cell) -> GameView {
        GameView {
            snake: SnakeView::spawn(head),
            fruit,
            width,
            height,
            score: 0,
            status: GameStatus::Playing,
            paused: true,
            pending_direction: None,
            stop_requested: false,
            loop_running: false,
            fruit_eaten: None,
        }
    }

    /// What holds of every session at every moment.
    pub open spec fn wf(self) -> bool {
        &&& self.snake.wf()
        &&& self.snake.is_simple()
        &&& 1 <= self.width <= i32::MAX
        &&& 1 <= self.height <= i32::MAX
        &&& self.snake.head.on_board(self.width, self.height)
        &&& self.fruit.on_board(self.width, self.height)
        &&& self.score == POINTS_PER_CELL * self.snake.net_growth()
    }

    /// A tick of this session moves nothing.
    pub open spec fn halted(self) -> bool {
        self.stop_requested || self.status == GameStatus::GameOver || self.paused
    }

    /// The snake once the pending heading, if any, has been handed to it.
    pub open spec fn steered(self) -> SnakeView {
        match self.pending_direction {
            Some(dir) => self.snake.turn(dir),
            None => self.snake,
        }
    }

    /// The steered snake cannot take its next step: it would leave the board
    /// or run into its trail, or it lies on its trail already.
    pub open spec fn crashes(self) -> bool {
        let snake = self.steered();
        snake.hits_wall(self.width, self.height) || snake.overlaps() || snake.will_overlap()
    }

    /// The next tick moves the snake onto the fruit.
    pub open spec fn eats(self) -> bool {
        !self.halted() && !self.crashes() && self.steered().next_head() == self.fruit
    }

    /// One simulation step. `fruit` and `color` are used only if the snake
    /// eats: they are where the next fruit appears and the snake's new colour.
    pub open spec fn tick(self, fruit: Cell, color: Color) -> GameView {
        if self.stop_requested {
            GameView { loop_running: false, ..self }
        } else if self.status == GameStatus::GameOver || self.paused {
            self
        } else {
            let g = GameView { snake: self.steered(), pending_direction: None, ..self };
            if self.crashes() {
                GameView { status: GameStatus::GameOver, ..g }
            } else if g.snake.next_head() != g.fruit {
                GameView { snake: g.snake.advance(), ..g }
            } else {
                let snake = g.snake.advance().grow(color);
                GameView {
                    snake,
                    score: POINTS_PER_CELL * snake.net_growth(),
                    fruit_eaten: Some(g.fruit),
                    fruit,
                    ..g
                }
            }
        }
    }

    /// What the timed loop is told after a tick of this session.
    pub open spec fn tick_control(self) -> LoopControl {
        if self.stop_requested {
            LoopControl::Stop
        } else {
            LoopControl::Continue
        }
    }

    pub open spec fn start(self) -> GameView {
        GameView { paused: false, stop_requested: false, loop_running: true, ..self }
    }

    pub open spec fn pause(self) -> GameView {
        GameView { paused: true, ..self }
    }

    pub open spec fn request_stop(self) -> GameView {
        GameView { stop_requested: true, ..self }
    }

    /// A new session on the same board, started at once.
    pub open spec fn restart(self, head: Cell, fruit: Cell) -> GameView {
        GameView::fresh(self.width, self.height, head, fruit).start()
    }

    /// A request for heading `dir`. The latest one before a tick wins; after
    /// the game is over none is taken.
    pub open spec fn apply_input(self, dir: Direction) -> GameView {
        if self.status == GameStatus::GameOver {
            self
        } else {
            GameView { pending_direction: Some(dir), ..self }
        }
    }

    /// A key press: a steering key leaves a request for its heading, any
    /// other key leaves the session as it is.
    pub open spec fn key_down(self, key: Key) -> GameView {
        match key.spec_direction() {
            Some(dir) => self.apply_input(dir),
            None => self,
        }
    }

    /// The key asks for a new session: `R`, once the game is over.
    pub open spec fn asks_restart(self, key: Key) -> bool {
        key == Key::R && self.status == GameStatus::GameOver
    }

    /// The session once the notice of the last meal has been taken.
    pub open spec fn drained(self) -> GameView {
        GameView { fruit_eaten: None, ..self }
    }

    /// The session after one tick for each entry of `draws`, in order, with
    /// nothing else happening in between. An entry holds the cell of the next
    /// fruit and the snake's next colour, should the snake eat at that tick.
    pub open spec fn run(self, draws: Seq<(Cell, Color)>) -> GameView
        decreases draws.len(),
    {
        if draws.len() == 0 {
            self
        } else {
            self.run(draws.drop_last()).tick(draws.last().0, draws.last().1)
        }
    }

    /// Every entry of `draws` puts the fruit on this session's board.
    pub open spec fn draws_on_board(self, draws: Seq<(Cell, Color)>) -> bool {
        forall|i: int| 0 <= i < draws.len() ==> (#[trigger] draws[i]).0.on_board(self.width, self.height)
    }
}

/// Draws a cell of a board of `width` by `height` cells.
pub fn calc_random_pos(width: u32, height: u32) -> (pos: Position)
    requires
        1 <= width <= i32::MAX,
        1 <= height <= i32::MAX,
    ensures
        pos@.on_board(width as int, height as int),
{
    let x: i32 = random_in_range(0, width as i32);
    let y: i32 = random_in_range(0, height as i32);
    Position { x, y }
}

pub struct Game {
    snake: Snake,
    fruit: Position,
    /// Width and height of the board, in cells.
    size: (u32, u32),
    score: u32,
    status: GameStatus,
    paused: bool,
    /// The latest heading asked for that no tick has taken up.
    pending_direction: Option<Direction>,
    /// Makes the next tick answer [`LoopControl::Stop`].
    should_stop_thread: bool,
    /// Set when a timed loop is asked for, cleared when it is told to stop.
    loop_running: bool,
    /// The cell of the last meal, until it is taken.
    apple_eaten_at: Option<Position>,
}

/// All that is needed to paint a session, copied out of it.
pub struct RenderSnapshot {
    pub fruit: Position,
    pub head: Position,
    /// The snake's trail, from the cell next to the head to the tip.
    pub body: Vec<Position>,
    pub direction: Direction,
    pub color: Color,
    pub status: GameStatus,
    pub size: (u32, u32),
}

impl View for Game {
    type V = GameView;

    closed spec fn view(&self) -> GameView {
        GameView {
            snake: self.snake@,
            fruit: self.fruit@,
            width: self.size.0 as int,
            height: self.size.1 as int,
            score: self.score as int,
            status: self.status,
            paused: self.paused,
            pending_direction: self.pending_direction,
            stop_requested: self.should_stop_thread,
            loop_running: self.loop_running,
            fruit_eaten: cell_of(self.apple_eaten_at),
        }
    }
}

impl Game {
    /// A paused session on a board of `width` by `height` cells, with the
    /// snake's head and the fruit on cells drawn at random.
    pub fn new(width: u32, height: u32) -> (g: Game)
        requires
            1 <= width <= i32::MAX,
            1 <= height <= i32::MAX,
        ensures
            g@ == GameView::fresh(width as int, height as int, g@.snake.head, g@.fruit),
            g@.wf(),
    {
        let head = calc_random_pos(width, height);
        let fruit = calc_random_pos(width, height);
        Game::with_positions(width, height, head, fruit)
    }

    /// A paused session with the snake's head on `head` and the fruit on
    /// `fruit`.
    pub fn with_positions(width: u32, height: u32, head: Position, fruit: Position) -> (g: Game)
        requires
            1 <= width <= i32::MAX,
            1 <= height <= i32::MAX,
            head@.on_board(width as int, height as int),
            fruit@.on_board(width as int, height as int),
        ensures
            g@ == GameView::fresh(width as int, height as int, head@, fruit@),
            g@.wf(),
    {
        proof {
            lemma_fresh_is_wf(width as int, height as int, head@, fruit@);
        }
        Game {
            snake: Snake::new(head),
            fruit,
            size: (width, height),
            score: 0,
            status: GameStatus::Playing,
            paused: true,
            pending_direction: None,
            should_stop_thread: false,
            loop_running: false,
            apple_eaten_at: None,
        }
    }

    /// Lets the session run. Answers whether the caller has to start a timed
    /// loop: it has, unless one is running already.
    pub fn start(&mut self) -> (spawn_loop: bool)
        ensures
            final(self)@ == old(self)@.start(),
            spawn_loop == !old(self)@.loop_running,
    {
        self.paused = false;
        self.should_stop_thread = false;
        let spawn_loop = !self.loop_running;
        self.loop_running = true;
        spawn_loop
    }

    /// Asks the timed loop to end at its next tick.
    pub fn request_stop(&mut self)
        ensures
            final(self)@ == old(self)@.request_stop(),
    {
        self.should_stop_thread = true;
    }

    /// Begins a new session on the same board, with the snake's head and the
    /// fruit on cells drawn at random, and lets it run. Answers as
    /// [`Game::start`] does.
    pub fn restart(&mut self) -> (spawn_loop: bool)
        requires
            old(self)@.wf(),
        ensures
            final(self)@ == old(self)@.restart(final(self)@.snake.head, final(self)@.fruit),
            final(self)@.wf(),
            spawn_loop == !old(self)@.loop_running,
    {
        let (width, height) = self.size;
        let head = calc_random_pos(width, height);
        let fruit = calc_random_pos(width, height);
        self.restart_with(head, fruit)
    }

    /// Begins a new session on the same board with the snake's head on `head`
    /// and the fruit on `fruit`, and lets it run.
    pub fn restart_with(&mut self, head: Position, fruit: Position) -> (spawn_loop: bool)
        requires
            old(self)@.wf(),
            head@.on_board(old(self)@.width, old(self)@.height),
            fruit@.on_board(old(self)@.width, old(self)@.height),
        ensures
            final(self)@ == old(self)@.restart(head@, fruit@),
            final(self)@.wf(),
            spawn_loop == !old(self)@.loop_running,
    {
        proof {
            lemma_fresh_is_wf(self@.width, self@.height, head@, fruit@);
        }
        self.snake = Snake::new(head);
        self.fruit = fruit;
        self.score = 0;
        self.status = GameStatus::Playing;
        self.paused = false;
        self.pending_direction = None;
        self.should_stop_thread = false;
        self.apple_eaten_at = None;
        self.start()
    }

    pub fn pause(&mut self)
        ensures
            final(self)@ == old(self)@.pause(),
    {
        self.paused = true;
    }

    pub fn get_status(&self) -> (status: GameStatus)
        ensures
            status == self@.status,
    {
        self.status
    }

    /// Whether the next tick moves the snake onto the fruit.
    pub fn will_eat(&self) -> (eats: bool)
        ensures
            eats == self@.eats(),
    {
        if self.should_stop_thread || self.status == GameStatus::GameOver || self.paused {
            return false;
        }
        let heading = match self.pending_direction {
            Some(dir) => self.snake.heading_after(dir),
            None => self.snake.direction(),
        };
        let head = self.snake.get_head_pos();
        let (x, y) = match heading {
            Direction::Up => (head.x as i64, head.y as i64 - 1),
            Direction::Right => (head.x as i64 + 1, head.y as i64),
            Direction::Down => (head.x as i64, head.y as i64 + 1),
            Direction::Left => (head.x as i64 - 1, head.y as i64),
        };
        x == self.fruit.x as i64 && y == self.fruit.y as i64 && 0 <= x && x < self.size.0 as i64
            && 0 <= y && y < self.size.1 as i64 && !self.snake.is_tail_overlapping()
            && !self.snake.trail_covers(self.fruit)
    }

    /// One simulation step. Where the snake eats, the next fruit's cell and
    /// the snake's new colour are drawn at random. A tick at which the snake
    /// eats needs room for the points in the score.
    pub fn tick(&mut self) -> (control: LoopControl)
        requires
            old(self)@.wf(),
            old(self)@.eats() ==> old(self)@.score + POINTS_PER_CELL <= u32::MAX,
        ensures
            final(self)@ == old(self)@.tick(final(self)@.fruit, final(self)@.snake.color),
            final(self)@.wf(),
            old(self)@.eats() ==> final(self)@.snake.color.is_vivid(),
            control == old(self)@.tick_control(),
    {
        if self.should_stop_thread {
            self.loop_running = false;
            return LoopControl::Stop;
        }
        if self.move_snake() {
            let (width, height) = self.size;
            let color = random_vivid();
            let fruit = calc_random_pos(width, height);
            self.eat(fruit, color);
        }
        proof {
            lemma_tick_keeps_wf(old(self)@, self@.fruit, self@.snake.color);
        }
        LoopControl::Continue
    }

    /// One simulation step in which, if the snake eats, the next fruit
    /// appears on `fruit` and the snake takes the colour `color`.
    pub fn tick_with(&mut self, fruit: Position, color: Color) -> (control: LoopControl)
        requires
            old(self)@.wf(),
            old(self)@.eats() ==> old(self)@.score + POINTS_PER_CELL <= u32::MAX,
            fruit@.on_board(old(self)@.width, old(self)@.height),
        ensures
            final(self)@ == old(self)@.tick(fruit@, color),
            final(self)@.wf(),
            control == old(self)@.tick_control(),
    {
        if self.should_stop_thread {
            self.loop_running = false;
            return LoopControl::Stop;
        }
        if self.move_snake() {
            self.eat(fruit, color);
        }
        proof {
            lemma_tick_keeps_wf(old(self)@, fruit@, color);
        }
        LoopControl::Continue
    }

    /// The part of a tick that comes before the meal: hands the pending
    /// heading to the snake and moves it, or ends the game.
    fn move_snake(&mut self) -> (ate: bool)
        requires
            old(self)@.wf(),
            !old(self)@.stop_requested,
        ensures
            ate == old(self)@.eats(),
            !ate ==> forall|fruit: Cell, color: Color|
                final(self)@ == #[trigger] old(self)@.tick(fruit, color),
            ate ==> final(self)@ == (GameView {
                snake: old(self)@.steered().advance(),
                pending_direction: None,
                ..old(self)@
            }),
    {
        if self.status == GameStatus::GameOver || self.paused {
            return false;
        }
        match self.pending_direction {
            Some(dir) => {
                self.snake.set_dir(dir);
                self.pending_direction = None;
            },
            None => {},
        }
        if self.snake.will_hit_wall(self.size.0, self.size.1) {
            self.status = GameStatus::GameOver;
            return false;
        }
        if self.snake.is_tail_overlapping() || self.snake.will_tail_overlapp() {
            self.status = GameStatus::GameOver;
            return false;
        }
        let ate = self.snake.next_head_pos() == self.fruit;
        self.snake.update(self.size.0, self.size.1);
        ate
    }

    /// The meal: the snake grows, the score follows, the notice is left, and
    /// the fruit moves to `fruit`.
    fn eat(&mut self, fruit: Position, color: Color)
        requires
            old(self)@.snake.wf(),
            POINTS_PER_CELL * (old(self)@.snake.net_growth() + 1) <= u32::MAX,
        ensures
            final(self)@ == (GameView {
                snake: old(self)@.snake.grow(color),
                score: POINTS_PER_CELL * old(self)@.snake.grow(color).net_growth(),
                fruit_eaten: Some(old(self)@.fruit),
                fruit: fruit@,
                ..old(self)@
            }),
    {
        self.snake.grow_with(color);
        self.score = POINTS_PER_CELL * (self.snake.get_len() as u32);
        self.apple_eaten_at = Some(self.fruit);
        self.fruit = fruit;
    }

    /// Takes a key press. Steering keys leave a request for their heading.
    /// Answers whether the key asks for a new session; to begin one is left
    /// to the caller, who may have a timed loop to end first.
    pub fn key_down(&mut self, key: Key) -> (restart: bool)
        ensures
            final(self)@ == old(self)@.key_down(key),
            restart == old(self)@.asks_restart(key),
    {
        if key == Key::R && self.status == GameStatus::GameOver {
            return true;
        }
        if let Some(dir) = key.direction() {
            self.apply_input(dir);
        }
        false
    }

    /// Leaves a request for heading `dir`, in place of an earlier one that no
    /// tick has taken up. Does nothing once the game is over.
    pub fn apply_input(&mut self, dir: Direction)
        ensures
            final(self)@ == old(self)@.apply_input(dir),
    {
        if self.status == GameStatus::GameOver {
            return ;
        }
        self.pending_direction = Some(dir);
    }

    /// Copies out what a painter needs: fruit, snake, status and board size.
    pub fn render_snapshot(&self) -> (snap: RenderSnapshot)
        ensures
            snap.fruit@ == self@.fruit,
            snap.head@ == self@.snake.head,
            cells(snap.body@) == self@.snake.body,
            snap.direction == self@.snake.direction,
            snap.color == self@.snake.color,
            snap.status == self@.status,
            snap.size.0 == self@.width && snap.size.1 == self@.height,
    {
        RenderSnapshot {
            fruit: self.fruit,
            head: *self.snake.get_head_pos(),
            body: self.snake.body(),
            direction: self.snake.direction(),
            color: self.snake.color(),
            status: self.status,
            size: self.size,
        }
    }

    pub fn snake(&self) -> (snake: &Snake)
        ensures
            snake@ == self@.snake,
    {
        &self.snake
    }

    pub fn fruit(&self) -> (fruit: Position)
        ensures
            fruit@ == self@.fruit,
    {
        self.fruit
    }

    pub fn is_paused(&self) -> (paused: bool)
        ensures
            paused == self@.paused,
    {
        self.paused
    }

    pub fn get_score(&self) -> (score: u32)
        ensures
            score == self@.score,
    {
        self.score
    }

    /// Takes the notice of the last meal, if one is there.
    pub fn take_apple_eaten(&mut self) -> (eaten_at: Option<Position>)
        ensures
            cell_of(eaten_at) == old(self)@.fruit_eaten,
            final(self)@ == old(self)@.drained(),
    {
        let eaten_at = self.apple_eaten_at;
        self.apple_eaten_at = None;
        eaten_at
    }
}

} // verus!
