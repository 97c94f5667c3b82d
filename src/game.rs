//! The game session: snake, fruit, score and pace, advanced one cell per tick.
use vstd::prelude::*;

use std::collections::VecDeque;

use crate::gesture::{latched, requested, GestureTracker, ScreenPoint, Touch, TouchPhase};
use crate::grid::{in_grid, lemma_distinct_cells_fit, Direction, Position};
use crate::random::random_cell;

verus! {

/// Microseconds between ticks at the start of a session.
pub const INITIAL_SPEED_MICROS: u64 = 500_000;

/// Points awarded for each fruit eaten.
pub const FRUIT_POINTS: u32 = 100;

/// Coarse state of a session.
#[derive(Clone, Copy, Debug, PartialEq, Eq, Structural)]
pub enum Mode {
    Playing,
    GameOver,
}

/// The snake: its head, the cells behind it (front is the cell just behind
/// the head, back is the tail) and its heading.
pub struct Snake {
    pub head: Position,
    pub body: VecDeque<Position>,
    pub direction: Direction,
}

/// Everything one game holds between frames. Times are in microseconds.
pub struct GameSession {
    pub snake: Snake,
    pub fruit: Position,
    pub score: u32,
    /// Time between ticks; shrinks to nine tenths (rounded up) per fruit.
    pub speed_micros: u64,
    pub mode: Mode,
    pub last_update_micros: u64,
    /// A heading requested by a gesture and not yet applied.
    pub intent: Option<Direction>,
}

/// The mathematical content of a [`GameSession`].
pub struct SessionView {
    pub head: Position,
    pub body: Seq<Position>,
    pub direction: Direction,
    pub fruit: Position,
    pub score: int,
    pub speed: int,
    pub mode: Mode,
    pub last_update: int,
    pub intent: Option<Direction>,
}

impl View for GameSession {
    type V = SessionView;

    open spec fn view(&self) -> SessionView {
        SessionView {
            head: self.snake.head,
            body: self.snake.body@,
            direction: self.snake.direction,
            fruit: self.fruit,
            score: self.score as int,
            speed: self.speed_micros as int,
            mode: self.mode,
            last_update: self.last_update_micros as int,
            intent: self.intent,
        }
    }
}

/// The heading after applying `intent` to `dir`: a request for the reverse
/// of the current heading is ignored.
pub open spec fn steered(dir: Direction, intent: Option<Direction>) -> Direction {
    match intent {
        Some(d) => if d == dir.spec_opposite() {
            dir
        } else {
            d
        },
        None => dir,
    }
}

/// The pace after eating a fruit: nine tenths, rounded up, so it stays positive.
pub open spec fn quickened(speed: int) -> int {
    speed - speed / 10
}

impl SessionView {
    /// Head first, then the body from front to tail.
    pub open spec fn occupied(self) -> Seq<Position> {
        seq![self.head] + self.body
    }

    /// The snake lies on the field and does not overlap itself.
    pub open spec fn snake_fits(self) -> bool {
        &&& self.occupied().no_duplicates()
        &&& forall|i: int| 0 <= i < self.occupied().len() ==> in_grid(#[trigger] self.occupied()[i])
    }

    /// Invariant of a session: each fruit added one body cell and 100 points,
    /// the pace is positive, and while playing the snake fits on the field.
    pub open spec fn wf(self) -> bool {
        &&& self.score == FRUIT_POINTS * self.body.len()
        &&& self.speed > 0
        &&& self.mode == Mode::Playing ==> self.snake_fits()
    }

    /// What a tick needs: play is on, the snake fits on the field, and the
    /// score is at most 100 per body cell.
    pub open spec fn can_advance(self) -> bool {
        &&& self.mode == Mode::Playing
        &&& self.snake_fits()
        &&& self.score <= FRUIT_POINTS * self.body.len()
    }

    /// A fresh session started at time `now` with the fruit at `fruit`.
    pub open spec fn fresh(fruit: Position, now: int) -> SessionView {
        SessionView {
            head: Position { x: 0, y: 0 },
            body: Seq::empty(),
            direction: Direction::Right,
            fruit,
            score: 0,
            speed: INITIAL_SPEED_MICROS as int,
            mode: Mode::Playing,
            last_update: now,
            intent: None,
        }
    }

    /// The pending intent applied to the heading, and cleared.
    pub open spec fn steer(self) -> SessionView {
        SessionView { direction: steered(self.direction, self.intent), intent: None, ..self }
    }

    /// Whether more than one interval of `speed` has passed since the last tick.
    pub open spec fn tick_due(self, now: int) -> bool {
        now - self.last_update > self.speed
    }

    /// One tick: the head moves one cell; on the fruit the body keeps its
    /// tail, the fruit goes to `respawn`, the score gains 100 and the pace
    /// quickens; otherwise the tail is dropped. Leaving the field or running
    /// into the body ends the game.
    pub open spec fn advance(self, respawn: Position) -> SessionView {
        let head = self.head.spec_moved(self.direction);
        let grown = seq![self.head] + self.body;
        let eaten = head == self.fruit;
        let body = if eaten {
            grown
        } else {
            grown.drop_last()
        };
        SessionView {
            head,
            body,
            fruit: if eaten {
                respawn
            } else {
                self.fruit
            },
            score: if eaten {
                self.score + FRUIT_POINTS
            } else {
                self.score
            },
            speed: if eaten {
                quickened(self.speed)
            } else {
                self.speed
            },
            mode: if !in_grid(head) || body.contains(head) {
                Mode::GameOver
            } else {
                self.mode
            },
            ..self
        }
    }
}

/// Whether `body` holds the cell `p`.
fn body_contains(body: &VecDeque<Position>, p: Position) -> (r: bool)
    ensures
        r == body@.contains(p),
{
    let mut i: usize = 0;
    while i < body.len()
        invariant
            i <= body@.len(),
            forall|j: int| 0 <= j < i ==> body@[j] != p,
        decreases body@.len() - i,
    {
        if body[i] == p {
            return true;
        }
        i = i + 1;
    }
    false
}

impl GameSession {
    /// A session started at time `now` with the fruit at `fruit`.
    pub fn new_with(fruit: Position, now: u64) -> (s: GameSession)
        ensures
            s@ == SessionView::fresh(fruit, now as int),
            s@.wf(),
    {
        let s = GameSession {
            snake: Snake {
                head: Position { x: 0, y: 0 },
                body: VecDeque::new(),
                direction: Direction::Right,
            },
            fruit,
            score: 0,
            speed_micros: INITIAL_SPEED_MICROS,
            mode: Mode::Playing,
            last_update_micros: now,
            intent: None,
        };
        assert(s@.occupied() =~= seq![Position { x: 0, y: 0 }]);
        s
    }

    /// Applies the pending intent, unless it reverses the heading, and clears it.
    pub fn steer(&mut self)
        ensures
            final(self)@ == old(self)@.steer(),
            old(self).intent == Some(old(self).snake.direction.spec_opposite())
                ==> final(self).snake.direction == old(self).snake.direction,
    {
        if let Some(d) = self.intent {
            if d != self.snake.direction.opposite() {
                self.snake.direction = d;
            }
        }
        self.intent = None;
    }

    /// Whether a tick is due at time `now`.
    pub fn tick_due(&self, now: u64) -> (r: bool)
        ensures
            r == self@.tick_due(now as int),
    {
        now > self.last_update_micros && now - self.last_update_micros > self.speed_micros
    }

    /// Moves the snake one cell; if it lands on the fruit, the fruit is put
    /// at `respawn`.
    pub fn advance_with(&mut self, respawn: Position)
        requires
            old(self)@.can_advance(),
        ensures
            final(self)@ == old(self)@.advance(respawn),
            old(self)@.wf() ==> final(self)@.wf(),
            final(self).snake.head.x == old(self).snake.head.x + old(self).snake.direction.spec_dx(),
            final(self).snake.head.y == old(self).snake.head.y + old(self).snake.direction.spec_dy(),
            final(self).snake.body@.len() == old(self).snake.body@.len() + if final(self).snake.head
                == old(self).fruit {
                1int
            } else {
                0int
            },
            !in_grid(final(self).snake.head) ==> final(self).mode == Mode::GameOver,
            final(self).snake.body@.contains(final(self).snake.head) ==> final(self).mode
                == Mode::GameOver,
    {
        let ghost pre = self@;
        proof {
            assert(in_grid(pre.occupied()[0]));
            lemma_distinct_cells_fit(pre.occupied());
        }
        let old_head = self.snake.head;
        self.snake.body.push_front(old_head);
        let head = old_head.moved(self.snake.direction);
        self.snake.head = head;
        if head == self.fruit {
            self.fruit = respawn;
            self.score = self.score + FRUIT_POINTS;
            self.speed_micros = self.speed_micros - self.speed_micros / 10;
        } else {
            self.snake.body.pop_back();
        }
        if !head.is_in_grid() || body_contains(&self.snake.body, head) {
            self.mode = Mode::GameOver;
        }
        proof {
            let post = self@;
            let grown = pre.occupied();
            assert(post.body == grown || post.body == grown.drop_last());
            assert(post.body.len() <= grown.len());
            assert forall|i: int, j: int|
                0 <= i < post.body.len() && 0 <= j < post.body.len() && i != j implies post.body[i]
                != post.body[j] by {
                assert(post.body[i] == grown[i] && post.body[j] == grown[j]);
            }
            if post.mode == Mode::Playing {
                assert forall|i: int| 0 <= i < post.occupied().len() implies in_grid(
                    #[trigger] post.occupied()[i],
                ) by {
                    if i > 0 {
                        assert(post.occupied()[i] == grown[i - 1]);
                    }
                }
                assert forall|i: int, j: int|
                    0 <= i < post.occupied().len() && 0 <= j < post.occupied().len() && i != j
                        implies post.occupied()[i] != post.occupied()[j] by {
                    if i > 0 && j > 0 {
                        assert(post.occupied()[i] == post.body[i - 1]);
                        assert(post.occupied()[j] == post.body[j - 1]);
                    } else if i == 0 {
                        assert(post.occupied()[j] == post.body[j - 1]);
                    } else {
                        assert(post.occupied()[i] == post.body[i - 1]);
                    }
                }
            }
            assert(self@ == pre.advance(respawn));
        }
    }
}

/// A session together with the gesture tracker that steers it.
pub struct Game {
    pub session: GameSession,
    pub gesture: GestureTracker,
}

/// The mathematical content of a [`Game`].
pub struct GameView {
    pub session: SessionView,
    pub touch_start: ScreenPoint,
}

impl View for Game {
    type V = GameView;

    open spec fn view(&self) -> GameView {
        GameView { session: self.session@, touch_start: self.gesture.start }
    }
}

/// Whether the frame's first touch has just been lifted.
pub open spec fn touch_ended(touch: Option<Touch>) -> bool {
    match touch {
        Some(t) => t.phase == TouchPhase::Ended,
        None => false,
    }
}

impl GameView {
    /// One frame at time `now` with first touch `touch`. While playing, the
    /// pending intent is applied and, if due, one tick runs (a fruit eaten
    /// moves to `respawn`). If the game is then over and the touch has just
    /// been lifted, a fresh session starts with its fruit at `fresh_fruit`.
    /// Last, the touch is classified and a heading it requests becomes the
    /// pending intent.
    pub open spec fn frame(
        self,
        touch: Option<Touch>,
        now: int,
        respawn: Position,
        fresh_fruit: Position,
    ) -> GameView {
        let s0 = self.session;
        let s1 = if s0.mode == Mode::Playing {
            let s = s0.steer();
            if s.tick_due(now) {
                SessionView { last_update: now, ..s }.advance(respawn)
            } else {
                s
            }
        } else {
            s0
        };
        let s2 = if s1.mode == Mode::GameOver && touch_ended(touch) {
            SessionView::fresh(fresh_fruit, now)
        } else {
            s1
        };
        match touch {
            Some(t) => {
                let session = match requested(self.touch_start, t) {
                    Some(d) => SessionView { intent: Some(d), ..s2 },
                    None => s2,
                };
                GameView { session, touch_start: latched(self.touch_start, t) }
            },
            None => GameView { session: s2, touch_start: self.touch_start },
        }
    }
}

impl Game {
    /// A new game at time `now`, its fruit on a random cell.
    pub fn new(now: u64) -> (g: Game)
        ensures
            in_grid(g.session.fruit),
            g.session@ == SessionView::fresh(g.session.fruit, now as int),
            g.session@.wf(),
            g.gesture.start == (ScreenPoint { x: 0, y: 0 }),
    {
        let fruit = random_cell();
        Game { session: GameSession::new_with(fruit, now), gesture: GestureTracker::new() }
    }

    /// Runs one frame at time `now` with the frame's first touch, drawing a
    /// random cell for each fruit that has to be placed.
    pub fn frame(&mut self, touch: Option<Touch>, now: u64)
        requires
            old(self).session@.wf(),
        ensures
            final(self).session@.wf(),
            exists|respawn: Position, fresh_fruit: Position|
                in_grid(respawn) && in_grid(fresh_fruit) && final(self)@ == #[trigger] old(
                    self,
                )@.frame(touch, now as int, respawn, fresh_fruit),
    {
        let ghost pre = self@;
        let ghost mut respawn_drawn = Position { x: 0, y: 0 };
        let ghost mut fresh_drawn = Position { x: 0, y: 0 };
        let ended = match touch {
            Some(t) => t.phase == TouchPhase::Ended,
            None => false,
        };
        if self.session.mode == Mode::Playing {
            self.session.steer();
            if self.session.tick_due(now) {
                self.session.last_update_micros = now;
                proof {
                    assert(self.session@.occupied()[0] == self.session.snake.head);
                }
                let next = self.session.snake.head.moved(self.session.snake.direction);
                let respawn = if next == self.session.fruit {
                    let cell = random_cell();
                    proof {
                        respawn_drawn = cell;
                    }
                    cell
                } else {
                    self.session.fruit
                };
                self.session.advance_with(respawn);
            }
        }
        if self.session.mode == Mode::GameOver && ended {
            let fruit = random_cell();
            proof {
                fresh_drawn = fruit;
            }
            self.session = GameSession::new_with(fruit, now);
        }
        if let Some(t) = touch {
            if let Some(d) = self.gesture.observe(t) {
                self.session.intent = Some(d);
            }
        }
        proof {
            assert(self@ == pre.frame(touch, now as int, respawn_drawn, fresh_drawn));
        }
    }
}

/// A game that is over restarts on a lifted touch: whatever drags or draws
/// come with that frame, the snake is back at the top-left cell heading right
/// with no body, the score is 0, the pace is back to its start and play resumes.
pub proof fn restart_resets(
    g: GameView,
    touch: Option<Touch>,
    now: int,
    respawn: Position,
    fresh_fruit: Position,
)
    requires
        g.session.mode == Mode::GameOver,
        touch_ended(touch),
    ensures
        ({
            let s = g.frame(touch, now, respawn, fresh_fruit).session;
            &&& s.score == 0
            &&& s.speed == INITIAL_SPEED_MICROS
            &&& s.body == Seq::<Position>::empty()
            &&& s.head == (Position { x: 0, y: 0 })
            &&& s.direction == Direction::Right
            &&& s.mode == Mode::Playing
            &&& s.fruit == fresh_fruit
        }),
{
}

} // verus!
