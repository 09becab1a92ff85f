use snake_core::collision::{check, Verdict};
use snake_core::food::place;
use snake_core::game::{occupied_cells, EntityKind, GameLoop, GameState, TICK_INTERVAL};
use snake_core::grid::{cell_is_interior, cell_is_wall, wall_cells, Arena, Cell, Heading};
use snake_core::snake::{SnakeBody, SPAWN_COL, SPAWN_ROW};

fn playing(snake: SnakeBody, food: Option<Cell>) -> GameLoop {
    GameLoop {
        state: GameState::Playing,
        snake,
        food,
        tick_counter: 0,
    }
}

fn lone_snake(col: u32, row: u32, heading: Heading) -> SnakeBody {
    SnakeBody {
        head: Cell { col, row },
        segments: Vec::new(),
        heading,
        pending_heading: heading,
    }
}

#[test]
fn new_game_initial_state() {
    let g = GameLoop::new();
    assert_eq!(g.state, GameState::Playing);
    assert_eq!(g.snake.head, Cell { col: SPAWN_COL, row: SPAWN_ROW });
    assert_eq!(g.snake.segments.len(), 0);
    assert_eq!(g.snake.heading, Heading::Up);
    assert_eq!(g.food, None);
    assert_eq!(g.tick_counter, 0);
}

#[test]
fn eats_food_and_grows() {
    let mut g = playing(lone_snake(5, 5, Heading::Right), Some(Cell { col: 6, row: 5 }));
    g.simulate_tick();
    assert_eq!(g.state, GameState::Playing);
    assert_eq!(g.snake.head, Cell { col: 6, row: 5 });
    assert_eq!(g.snake.segments, vec![Cell { col: 5, row: 5 }]);
    let f = g.food.expect("food must be re-placed on a far-from-full board");
    assert!(cell_is_interior(f));
    assert_ne!(f, Cell { col: 5, row: 5 });
    assert_ne!(f, Cell { col: 6, row: 5 });
    assert!(!wall_cells().contains(&f));
}

#[test]
fn wall_collision_ends_game() {
    let mut g = playing(lone_snake(1, 5, Heading::Left), None);
    g.simulate_tick();
    assert_eq!(g.state, GameState::GameOver);
    assert_eq!(g.food, None);
    assert_eq!(g.snake.segments.len(), 0);
    let snap = g.snapshot();
    assert!(snap.iter().all(|e| e.kind == EntityKind::Wall));
}

#[test]
fn self_collision_ends_game() {
    let snake = SnakeBody {
        head: Cell { col: 5, row: 5 },
        segments: vec![Cell { col: 6, row: 5 }, Cell { col: 7, row: 5 }],
        heading: Heading::Right,
        pending_heading: Heading::Right,
    };
    let mut g = playing(snake, None);
    g.simulate_tick();
    assert_eq!(g.state, GameState::GameOver);
    assert_eq!(g.food, None);
}

#[test]
fn no_reversal_against_current_heading() {
    let mut g = playing(lone_snake(10, 10, Heading::Right), None);
    g.set_intent(Heading::Left);
    g.simulate_tick();
    assert_eq!(g.snake.heading, Heading::Right);
    assert_eq!(g.snake.head, Cell { col: 11, row: 10 });
}

#[test]
fn queued_turns_cannot_reverse() {
    let mut g = playing(lone_snake(10, 10, Heading::Right), None);
    g.set_intent(Heading::Up);
    g.set_intent(Heading::Left);
    g.simulate_tick();
    assert_eq!(g.snake.heading, Heading::Up);
    assert_eq!(g.snake.head, Cell { col: 10, row: 11 });
}

#[test]
fn perpendicular_turn_is_taken() {
    let mut g = playing(lone_snake(10, 10, Heading::Right), None);
    g.set_intent(Heading::Down);
    g.simulate_tick();
    assert_eq!(g.snake.heading, Heading::Down);
    assert_eq!(g.snake.head, Cell { col: 10, row: 9 });
}

#[test]
fn set_intent_ignored_when_game_over() {
    let mut g = playing(lone_snake(1, 5, Heading::Left), None);
    g.simulate_tick();
    assert_eq!(g.state, GameState::GameOver);
    let pending_before = g.snake.pending_heading;
    g.set_intent(Heading::Right);
    assert_eq!(g.snake.pending_heading, pending_before);
}

#[test]
fn restart_resets_to_spawn() {
    let mut g = playing(lone_snake(1, 5, Heading::Left), None);
    g.simulate_tick();
    assert_eq!(g.state, GameState::GameOver);
    g.request_restart();
    assert_eq!(g.state, GameState::Playing);
    assert_eq!(g.snake.head, Cell { col: SPAWN_COL, row: SPAWN_ROW });
    assert_eq!(g.snake.segments.len(), 0);
    assert_eq!(g.food, None);
    assert_eq!(g.tick_counter, 0);
}

#[test]
fn restart_ignored_while_playing() {
    let mut g = playing(lone_snake(10, 10, Heading::Right), None);
    g.request_restart();
    assert_eq!(g.state, GameState::Playing);
    assert_eq!(g.snake.head, Cell { col: 10, row: 10 });
}

#[test]
fn advance_frame_moves_only_on_the_tick() {
    let mut g = GameLoop::new();
    let spawn = g.snake.head;
    for _ in 0..(TICK_INTERVAL - 1) {
        g.advance_frame();
        assert_eq!(g.snake.head, spawn);
    }
    g.advance_frame();
    assert_eq!(g.snake.head, Cell { col: spawn.col, row: spawn.row + 1 });
    assert_eq!(g.tick_counter, 0);
}

#[test]
fn collision_verdict_priorities() {
    let segments = vec![Cell { col: 0, row: 5 }, Cell { col: 4, row: 4 }];
    assert_eq!(check(Cell { col: 0, row: 5 }, &segments), Verdict::HitWall);
    assert_eq!(check(Cell { col: 4, row: 4 }, &segments), Verdict::HitSelf);
    assert_eq!(check(Cell { col: 10, row: 10 }, &segments), Verdict::Clear);
}

#[test]
fn wall_ring_shape() {
    let walls = wall_cells();
    assert_eq!(walls.len(), 196);
    assert!(walls.contains(&Cell { col: 0, row: 0 }));
    assert!(walls.contains(&Cell { col: 63, row: 35 }));
    assert!(walls.contains(&Cell { col: 0, row: 17 }));
    assert!(walls.contains(&Cell { col: 31, row: 0 }));
    assert!(!walls.contains(&Cell { col: 1, row: 1 }));
    assert!(!walls.contains(&Cell { col: 32, row: 18 }));
    for w in walls.iter() {
        assert!(cell_is_wall(*w));
        assert!(!cell_is_interior(*w));
    }
}

#[test]
fn food_placement_avoids_occupied_cells() {
    let free = place(&Vec::new()).expect("an empty board has free cells");
    assert!(cell_is_interior(free));

    // every interior cell but one is occupied: placement must pick that one
    let mut occupied = Vec::new();
    let hole = Cell { col: 33, row: 20 };
    for col in 1..63 {
        for row in 1..35 {
            let c = Cell { col, row };
            if c != hole {
                occupied.push(c);
            }
        }
    }
    assert_eq!(place(&occupied), Some(hole));

    occupied.push(hole);
    assert_eq!(place(&occupied), None);
}

#[test]
fn occupied_cells_cover_walls_and_snake() {
    let snake = SnakeBody {
        head: Cell { col: 6, row: 5 },
        segments: vec![Cell { col: 5, row: 5 }],
        heading: Heading::Right,
        pending_heading: Heading::Right,
    };
    let occ = occupied_cells(&snake);
    assert!(occ.contains(&Cell { col: 6, row: 5 }));
    assert!(occ.contains(&Cell { col: 5, row: 5 }));
    assert!(occ.contains(&Cell { col: 0, row: 0 }));
    assert!(occ.contains(&Cell { col: 0, row: 5 }));
    assert!(!occ.contains(&Cell { col: 10, row: 10 }));
}

#[test]
fn snapshot_lists_live_entities() {
    let mut g = playing(lone_snake(5, 5, Heading::Right), Some(Cell { col: 6, row: 5 }));
    g.simulate_tick();
    let snap = g.snapshot();
    assert!(snap
        .iter()
        .any(|e| e.kind == EntityKind::SnakeHead && e.cell == Cell { col: 6, row: 5 }));
    assert!(snap
        .iter()
        .any(|e| e.kind == EntityKind::SnakeSegment && e.cell == Cell { col: 5, row: 5 }));
    assert!(snap.iter().any(|e| e.kind == EntityKind::Food));
    assert!(snap
        .iter()
        .any(|e| e.kind == EntityKind::Wall && e.cell == Cell { col: 0, row: 0 }));
    for e in snap.iter() {
        if e.kind == EntityKind::Wall {
            assert!(cell_is_wall(e.cell));
        } else {
            assert!(cell_is_interior(e.cell));
        }
    }
}

#[test]
fn growth_is_one_segment_per_meal() {
    let mut g = playing(lone_snake(5, 5, Heading::Right), Some(Cell { col: 6, row: 5 }));
    g.simulate_tick();
    assert_eq!(g.snake.segments.len(), 1);
    // no food on the path: length stays the same
    g.food = None;
    g.simulate_tick();
    assert_eq!(g.snake.segments.len(), 1);
    assert_eq!(g.snake.head, Cell { col: 7, row: 5 });
    assert_eq!(g.snake.segments, vec![Cell { col: 6, row: 5 }]);
}

#[test]
fn body_follows_head() {
    let snake = SnakeBody {
        head: Cell { col: 10, row: 10 },
        segments: vec![Cell { col: 9, row: 10 }, Cell { col: 8, row: 10 }],
        heading: Heading::Right,
        pending_heading: Heading::Up,
    };
    let mut g = playing(snake, None);
    g.simulate_tick();
    assert_eq!(g.snake.head, Cell { col: 10, row: 11 });
    assert_eq!(
        g.snake.segments,
        vec![Cell { col: 10, row: 10 }, Cell { col: 9, row: 10 }]
    );
}

#[test]
fn arena_bounds_and_boundary() {
    let arena = Arena::new();
    assert_eq!(arena.bounds(), (64, 36));
    assert!(arena.is_boundary(Cell::new(0, 0)));
    assert!(arena.is_boundary(Cell::new(63, 17)));
    assert!(arena.is_boundary(Cell::new(20, 35)));
    assert!(!arena.is_boundary(Cell::new(1, 1)));
    assert!(!arena.is_boundary(Cell::new(64, 10)));
}

#[test]
fn snake_tick_and_grow() {
    let mut snake = SnakeBody::spawn();
    let new_head = snake.tick();
    assert_eq!(new_head, Cell::new(SPAWN_COL, SPAWN_ROW + 1));
    assert_eq!(snake.head, new_head);
    snake.grow(Cell::new(SPAWN_COL, SPAWN_ROW));
    assert_eq!(snake.segments, vec![Cell::new(SPAWN_COL, SPAWN_ROW)]);
    let mut snake2 = snake;
    snake2.reset();
    assert_eq!(snake2.head, Cell::new(SPAWN_COL, SPAWN_ROW));
    assert_eq!(snake2.segments.len(), 0);
    assert_eq!(snake2.heading, Heading::Up);
}

#[test]
fn heading_opposites() {
    assert_eq!(Heading::Up.opposite(), Heading::Down);
    assert_eq!(Heading::Down.opposite(), Heading::Up);
    assert_eq!(Heading::Left.opposite(), Heading::Right);
    assert_eq!(Heading::Right.opposite(), Heading::Left);
}

#[test]
fn invariants_hold_across_many_frames() {
    let mut g = GameLoop::new();
    let intents = [Heading::Up, Heading::Right, Heading::Down, Heading::Left];
    for i in 0..4000usize {
        g.set_intent(intents[(i / 7) % 4]);
        g.advance_frame();
        if g.state == GameState::Playing {
            assert!(!g.snake.segments.contains(&g.snake.head));
            if let Some(f) = g.food {
                assert!(cell_is_interior(f));
                assert_ne!(f, g.snake.head);
                assert!(!g.snake.segments.contains(&f));
            }
        } else {
            assert_eq!(g.food, None);
            g.request_restart();
            assert_eq!(g.state, GameState::Playing);
        }
    }
}

#[test]
fn game_over_snapshot_is_walls_only() {
    let mut g = playing(lone_snake(1, 5, Heading::Left), None);
    g.simulate_tick();
    let snap = g.snapshot();
    assert_eq!(snap.len(), 196);
    assert!(snap.iter().all(|e| e.kind == EntityKind::Wall));
}

#[test]
fn game_over_tick_changes_nothing() {
    let mut g = playing(lone_snake(1, 5, Heading::Left), None);
    g.simulate_tick();
    assert_eq!(g.state, GameState::GameOver);
    let head = g.snake.head;
    g.simulate_tick();
    assert_eq!(g.state, GameState::GameOver);
    assert_eq!(g.snake.head, head);
    assert_eq!(g.food, None);
}
