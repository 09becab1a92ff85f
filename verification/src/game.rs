//! The game state machine: per-tick ordering of direction commit, move,
//! collision check, eating, food placement, the Playing/GameOver
//! transition, restart, and the read-only entity snapshot a presenter
//! renders from.

use vstd::prelude::*;

use crate::collision::{Verdict, check, verdict_of};
use crate::food::place;
use crate::grid::{Cell, Heading, cell_step, is_interior, is_wall, opposite_of, wall_cells};
use crate::snake::{SnakeBody, shift_segments};

verus! {

/// How many host frames make one movement tick: the snake advances only
/// once per interval, while input sampling runs every frame.
pub const TICK_INTERVAL: u32 = 20;

/// The two states of a play session. Playing turns into GameOver on any
/// wall or self collision; only the explicit restart signal goes back.
#[derive(Clone, Copy, PartialEq, Eq, Structural, Debug)]
pub enum GameState {
    Playing,
    GameOver,
}

/// Category tag of a snapshot entity.
#[derive(Clone, Copy, PartialEq, Eq, Structural, Debug)]
pub enum EntityKind {
    Wall,
    SnakeHead,
    SnakeSegment,
    Food,
}

/// One renderable entity of the snapshot: a grid cell and what stands on
/// it.
#[derive(Clone, Copy, PartialEq, Eq, Structural, Debug)]
pub struct Entity {
    pub cell: Cell,
    pub kind: EntityKind,
}

/// The whole simulation state: game state, snake, the at-most-one food
/// cell, and the fixed-tick accumulator that decouples movement from the
/// host's frame rate.
pub struct GameLoop {
    pub state: GameState,
    pub snake: SnakeBody,
    pub food: Option<Cell>,
    pub tick_counter: u32,
}

/// Whether the snapshot of game `g` must list entity `e`: wall entities
/// always; head, segment and food entities only while Playing (game over
/// tears the snake's and the food's entities down).
pub open spec fn entity_live(g: GameLoop, e: Entity) -> bool {
    ||| (e.kind == EntityKind::Wall && is_wall(e.cell))
    ||| (g.state == GameState::Playing && ((e.kind == EntityKind::SnakeHead && e.cell
        == g.snake.head) || (e.kind == EntityKind::SnakeSegment && g.snake.segments@.contains(
        e.cell,
    )) || (e.kind == EntityKind::Food && g.food == Option::Some(e.cell))))
}

/// Union of the wall cells and every snake cell: exactly what food
/// placement must avoid.
pub fn occupied_cells(snake: &SnakeBody) -> (r: Vec<Cell>)
    ensures
        forall|c: Cell| #[trigger] r@.contains(c) <==> (is_wall(c) || snake.occupies(c)),
{
    let mut r = wall_cells();
    let ghost walls = r@;
    r.push(snake.head);
    proof {
        assert(r@[r@.len() - 1] == snake.head);
        assert forall|c: Cell| walls.contains(c) implies r@.contains(c) by {
            let j = choose|j: int| 0 <= j < walls.len() && walls[j] == c;
            assert(r@[j] == c);
        }
        assert forall|c: Cell| r@.contains(c) implies (is_wall(c) || c == snake.head) by {
            let j = choose|j: int| 0 <= j < r@.len() && r@[j] == c;
            if j < walls.len() {
                assert(walls[j] == c);
            }
        }
    }
    let mut i: usize = 0;
    while i < snake.segments.len()
        invariant
            i <= snake.segments@.len(),
            forall|c: Cell|
                r@.contains(c) ==> (is_wall(c) || c == snake.head || snake.segments@.contains(c)),
            forall|c: Cell| is_wall(c) ==> r@.contains(c),
            r@.contains(snake.head),
            forall|j: int| 0 <= j < i ==> r@.contains(#[trigger] snake.segments@[j]),
        decreases snake.segments@.len() - i,
    {
        let s = snake.segments[i];
        let ghost r0 = r@;
        r.push(s);
        proof {
            assert(r@[r@.len() - 1] == s);
            assert(snake.segments@.contains(s));
            assert forall|c: Cell| r0.contains(c) implies r@.contains(c) by {
                let j = choose|j: int| 0 <= j < r0.len() && r0[j] == c;
                assert(r@[j] == c);
            }
            assert forall|c: Cell| r@.contains(c) implies (is_wall(c) || c == snake.head
                || snake.segments@.contains(c)) by {
                let j = choose|j: int| 0 <= j < r@.len() && r@[j] == c;
                if j < r0.len() {
                    assert(r0[j] == c);
                }
            }
        }
        i = i + 1;
    }
    proof {
        assert forall|c: Cell| (is_wall(c) || snake.occupies(c)) implies r@.contains(c) by {
            if snake.segments@.contains(c) {
                let j = choose|j: int| 0 <= j < snake.segments@.len() && snake.segments@[j] == c;
                assert(r@.contains(snake.segments@[j]));
            }
        }
    }
    r
}

impl GameLoop {
    /// Every state the library constructs satisfies this. While Playing,
    /// the head is interior and off every body segment; food, when
    /// present, exists only while Playing, on an interior cell disjoint
    /// from the whole snake. The frame accumulator stays below the tick
    /// interval.
    pub open spec fn wf(self) -> bool {
        &&& self.snake.wf()
        &&& self.state == GameState::Playing ==> (is_interior(self.snake.head)
            && !self.snake.segments@.contains(self.snake.head))
        &&& match self.food {
            Option::Some(c) => self.state == GameState::Playing && is_interior(c)
                && !self.snake.occupies(c),
            Option::None => true,
        }
        &&& self.tick_counter < TICK_INTERVAL
    }

    /// One simulation tick as a relation between the state before and
    /// after. It is a relation, not a function: the cell that food
    /// placement installs is random. While GameOver nothing is simulated.
    /// While Playing: the buffered heading is committed, the snake
    /// advances, a wall or self collision tears everything down and ends
    /// the session; otherwise eating grows the snake by one segment at the
    /// just-vacated head cell, and absent food is re-placed on a free
    /// interior cell whenever one exists.
    pub open spec fn tick_rel(pre: GameLoop, post: GameLoop) -> bool {
        if pre.state == GameState::GameOver {
            &&& post.state == GameState::GameOver
            &&& post.snake == pre.snake
            &&& post.food == pre.food
        } else {
            let new_head = cell_step(pre.snake.head, pre.snake.pending_heading);
            let moved = shift_segments(pre.snake.head, pre.snake.segments@);
            let ate = pre.food == Option::Some(new_head);
            if verdict_of(new_head, moved) != Verdict::Clear {
                &&& post.state == GameState::GameOver
                &&& post.food == Option::<Cell>::None
                &&& post.snake.is_spawn_state()
            } else {
                &&& post.state == GameState::Playing
                &&& post.snake.head == new_head
                &&& post.snake.heading == pre.snake.pending_heading
                &&& post.snake.pending_heading == pre.snake.pending_heading
                &&& post.snake.segments@ == (if ate {
                    moved.push(pre.snake.head)
                } else {
                    moved
                })
                &&& ((!ate && pre.food != Option::<Cell>::None) ==> post.food == pre.food)
                &&& (post.food == Option::<Cell>::None ==> (forall|c: Cell|
                    is_interior(c) ==> post.snake.occupies(c)))
            }
        }
    }

    /// A fresh session: Playing, snake at spawn, no food yet (the first
    /// tick's placement step installs it), accumulator at zero.
    pub fn new() -> (r: GameLoop)
        ensures
            r.wf(),
            r.state == GameState::Playing,
            r.snake.is_spawn_state(),
            r.food == Option::<Cell>::None,
            r.tick_counter == 0,
    {
        GameLoop {
            state: GameState::Playing,
            snake: SnakeBody::spawn(),
            food: Option::None,
            tick_counter: 0,
        }
    }

    /// Feeds the host's direction intent to the snake, only while Playing
    /// (a finished session takes no direction input). The no-reversal rule
    /// applies against the heading currently travelled: an intent opposite
    /// to it leaves the buffered heading unchanged.
    pub fn set_intent(&mut self, h: Heading)
        requires
            old(self).wf(),
        ensures
            final(self).wf(),
            final(self).state == old(self).state,
            final(self).food == old(self).food,
            final(self).tick_counter == old(self).tick_counter,
            final(self).snake.head == old(self).snake.head,
            final(self).snake.segments == old(self).snake.segments,
            final(self).snake.heading == old(self).snake.heading,
            final(self).snake.pending_heading == (if old(self).state == GameState::Playing && h
                != opposite_of(old(self).snake.heading) {
                h
            } else {
                old(self).snake.pending_heading
            }),
    {
        match self.state {
            GameState::Playing => self.snake.set_intent(h),
            GameState::GameOver => {},
        }
    }

    /// Runs one simulation tick: commit the buffered heading, advance the
    /// snake, judge collisions on the post-move positions, apply eating,
    /// and re-place absent food. Growth is by exactly one segment on an
    /// eating tick and by none otherwise, as long as the session stays in
    /// Playing.
    pub fn simulate_tick(&mut self)
        requires
            old(self).wf(),
        ensures
            final(self).wf(),
            Self::tick_rel(*old(self), *final(self)),
            final(self).tick_counter == old(self).tick_counter,
            (old(self).state == GameState::Playing && final(self).state == GameState::Playing)
                ==> final(self).snake.segments@.len() == old(self).snake.segments@.len() + (
            if old(self).food == Option::Some(
                cell_step(old(self).snake.head, old(self).snake.pending_heading),
            ) {
                1int
            } else {
                0int
            }),
    {
        match self.state {
            GameState::GameOver => {},
            GameState::Playing => {
                let prev_head = self.snake.head;
                let new_head = self.snake.tick();
                let verdict = check(new_head, &self.snake.segments);
                match verdict {
                    Verdict::HitWall | Verdict::HitSelf => {
                        self.snake.reset();
                        self.food = Option::None;
                        self.state = GameState::GameOver;
                    },
                    Verdict::Clear => {
                        proof {
                            let pre = *old(self);
                            let moved = shift_segments(pre.snake.head, pre.snake.segments@);
                            assert forall|c: Cell| moved.contains(c) implies (c == pre.snake.head
                                || pre.snake.segments@.contains(c)) by {
                                let j = choose|j: int| 0 <= j < moved.len() && moved[j] == c;
                                if j > 0 {
                                    assert(pre.snake.segments@[j - 1] == c);
                                }
                            }
                        }
                        let ate = match self.food {
                            Option::Some(f) => f == new_head,
                            Option::None => false,
                        };
                        if ate {
                            self.food = Option::None;
                            self.snake.grow(prev_head);
                            proof {
                                let pre = *old(self);
                                let moved = shift_segments(pre.snake.head, pre.snake.segments@);
                                crate::grid::lemma_step_changes(
                                    pre.snake.head,
                                    pre.snake.pending_heading,
                                );
                                assert forall|c: Cell| self.snake.segments@.contains(c) implies (c
                                    == pre.snake.head || moved.contains(c)) by {
                                    let j = choose|j: int|
                                        0 <= j < self.snake.segments@.len()
                                            && self.snake.segments@[j] == c;
                                    if j < moved.len() {
                                        assert(moved[j] == c);
                                    }
                                }
                            }
                        }
                        let need_food = match self.food {
                            Option::None => true,
                            Option::Some(_) => false,
                        };
                        if need_food {
                            let occupied = occupied_cells(&self.snake);
                            match place(&occupied) {
                                Option::Some(c) => {
                                    self.food = Option::Some(c);
                                },
                                Option::None => {
                                    proof {
                                        assert forall|c: Cell| is_interior(c) implies self
                                            .snake.occupies(c) by {
                                            assert(occupied@.contains(c));
                                        }
                                    }
                                },
                            }
                        }
                    },
                }
            },
        }
    }

    /// Advances one host frame: bumps the fixed-tick accumulator and, when
    /// it reaches the tick interval, runs one simulation tick and resets
    /// it. Frames in between change nothing but the accumulator, which
    /// keeps movement on its own cadence while input stays per-frame.
    pub fn advance_frame(&mut self)
        requires
            old(self).wf(),
        ensures
            final(self).wf(),
            (old(self).tick_counter + 1 >= TICK_INTERVAL) ==> (Self::tick_rel(
                *old(self),
                *final(self),
            ) && final(self).tick_counter == 0),
            (old(self).tick_counter + 1 < TICK_INTERVAL) ==> (final(self).state == old(self).state
                && final(self).snake == old(self).snake && final(self).food == old(self).food
                && final(self).tick_counter == old(self).tick_counter + 1),
    {
        if self.tick_counter + 1 >= TICK_INTERVAL {
            self.simulate_tick();
            self.tick_counter = 0;
        } else {
            self.tick_counter = self.tick_counter + 1;
        }
    }

    /// The read-only per-frame snapshot a presenter renders from: one
    /// entity per wall cell always, and — only while Playing — one for
    /// the head, one per body segment cell, and one for the food cell
    /// when food is present. Nothing else is exposed; a finished session
    /// shows walls alone.
    pub fn snapshot(&self) -> (r: Vec<Entity>)
        ensures
            forall|e: Entity| #[trigger] r@.contains(e) <==> entity_live(*self, e),
    {
        broadcast use vstd::seq_lib::lemma_seq_contains_after_push;

        let walls = wall_cells();
        let mut r: Vec<Entity> = Vec::new();
        let mut i: usize = 0;
        while i < walls.len()
            invariant
                i <= walls@.len(),
                forall|c: Cell| #[trigger] walls@.contains(c) <==> is_wall(c),
                forall|e: Entity| #[trigger] r@.contains(e) ==> (e.kind == EntityKind::Wall
                    && is_wall(e.cell)),
                forall|j: int| 0 <= j < i ==> r@.contains(
                    (Entity { cell: #[trigger] walls@[j], kind: EntityKind::Wall }),
                ),
            decreases walls@.len() - i,
        {
            broadcast use vstd::seq_lib::lemma_seq_contains_after_push;

            let w = walls[i];
            proof {
                assert(walls@.contains(walls@[i as int]));
            }
            r.push(Entity { cell: w, kind: EntityKind::Wall });
            i = i + 1;
        }
        proof {
            assert forall|e: Entity| (e.kind == EntityKind::Wall && is_wall(e.cell)) implies r@
                .contains(e) by {
                let j = choose|j: int| 0 <= j < walls@.len() && walls@[j] == e.cell;
                assert(r@.contains((Entity { cell: walls@[j], kind: EntityKind::Wall })));
            }
        }
        let ghost rwalls = r@;
        match self.state {
            GameState::GameOver => r,
            GameState::Playing => {
                let head_entity = Entity { cell: self.snake.head, kind: EntityKind::SnakeHead };
                r.push(head_entity);
                let ghost segs = self.snake.segments@;
                let ghost rw = r@;
                let mut k: usize = 0;
                while k < self.snake.segments.len()
                    invariant
                        k <= segs.len(),
                        segs == self.snake.segments@,
                        forall|e: Entity| #[trigger] rw.contains(e) ==> r@.contains(e),
                        forall|e: Entity| #[trigger] r@.contains(e) ==> (rw.contains(e) || (
                        e.kind == EntityKind::SnakeSegment && segs.contains(e.cell))),
                        forall|j: int| 0 <= j < k ==> r@.contains(
                            (Entity { cell: #[trigger] segs[j], kind: EntityKind::SnakeSegment }),
                        ),
                    decreases segs.len() - k,
                {
                    broadcast use vstd::seq_lib::lemma_seq_contains_after_push;

                    let s = self.snake.segments[k];
                    proof {
                        assert(segs.contains(segs[k as int]));
                    }
                    r.push(Entity { cell: s, kind: EntityKind::SnakeSegment });
                    k = k + 1;
                }
                let ghost rsegs = r@;
                match self.food {
                    Option::None => {},
                    Option::Some(f) => {
                        r.push(Entity { cell: f, kind: EntityKind::Food });
                    },
                }
                proof {
                    assert forall|e: Entity| entity_live(*self, e) implies r@.contains(e) by {
                        if e.kind == EntityKind::Wall && is_wall(e.cell) {
                            assert(rwalls.contains(e));
                            assert(rw.contains(e));
                            assert(rsegs.contains(e));
                        } else if e.kind == EntityKind::SnakeHead && e.cell == self.snake.head {
                            assert(e == head_entity);
                            assert(rw.contains(e));
                            assert(rsegs.contains(e));
                        } else if e.kind == EntityKind::SnakeSegment && segs.contains(e.cell) {
                            let j = choose|j: int| 0 <= j < segs.len() && segs[j] == e.cell;
                            assert(rsegs.contains(
                                (Entity { cell: segs[j], kind: EntityKind::SnakeSegment }),
                            ));
                        }
                    }
                }
                r
            },
        }
    }

    /// Applies the single-shot restart signal: from GameOver the session
    /// re-enters Playing with the snake back at spawn, no food (the next
    /// tick's placement step repopulates it) and a fresh accumulator.
    /// While Playing the signal is ignored.
    pub fn request_restart(&mut self)
        requires
            old(self).wf(),
        ensures
            final(self).wf(),
            old(self).state == GameState::GameOver ==> (final(self).state == GameState::Playing
                && final(self).snake.is_spawn_state() && final(self).food
                == Option::<Cell>::None && final(self).tick_counter == 0),
            old(self).state == GameState::Playing ==> *final(self) == *old(self),
    {
        match self.state {
            GameState::GameOver => {
                self.snake.reset();
                self.food = Option::None;
                self.tick_counter = 0;
                self.state = GameState::Playing;
            },
            GameState::Playing => {},
        }
    }
}

/// Law: in every well-formed state — and every state the library
/// constructs is well formed — the head never coincides with a body
/// segment while Playing, and either food is absent or it sits on a cell
/// disjoint from every wall cell and every snake cell.
pub proof fn lemma_playing_invariants(g: GameLoop)
    requires
        g.wf(),
    ensures
        g.state == GameState::Playing ==> !g.snake.segments@.contains(g.snake.head),
        match g.food {
            Option::Some(c) => !is_wall(c) && c != g.snake.head && !g.snake.segments@.contains(c),
            Option::None => true,
        },
{
}

} // verus!
