use futures::channel::mpsc::unbounded;
use walk_the_dog::engine::{DrawCommand, GameLoop, ImageHandle, Point, Rect, Renderer, Sheet};
use walk_the_dog::engine::{Cell, Game, SheetRect, FRAME_SIZE};
use walk_the_dog::game::WalkTheDog;
use walk_the_dog::input::{process_input, KeyEvent, KeyPress, KeyState};
use walk_the_dog::loader::{into_load_result, LoadOutcome, LoadSlot};

fn key_down(code: &str) -> KeyPress {
    KeyPress::KeyDown(KeyEvent {
        code: code.to_string(),
    })
}

fn key_up(code: &str) -> KeyPress {
    KeyPress::KeyUp(KeyEvent {
        code: code.to_string(),
    })
}

fn complete_sheet() -> Sheet {
    let mut sheet = Sheet::new();
    for (i, name) in [
        "Run (1).png",
        "Run (2).png",
        "Run (3).png",
        "Run (4).png",
        "Run (5).png",
        "Run (6).png",
        "Run (7).png",
        "Run (8).png",
    ]
    .iter()
    .enumerate()
    {
        sheet.add_frame(
            name.to_string(),
            Cell {
                frame: SheetRect {
                    x: 10 * i as i16,
                    y: 20,
                    w: 30,
                    h: 40,
                },
            },
        );
    }
    sheet
}

fn ready_game() -> WalkTheDog {
    WalkTheDog::new().with_assets(complete_sheet(), ImageHandle { id: 7 })
}

#[test]
fn drain_applies_events_in_order() {
    let (tx, mut rx) = unbounded::<KeyPress>();
    let mut state = KeyState::new();
    tx.unbounded_send(key_down("KeyA")).unwrap();
    tx.unbounded_send(key_down("KeyB")).unwrap();
    tx.unbounded_send(key_up("KeyA")).unwrap();
    process_input(&mut state, &mut rx);
    assert!(!state.is_pressed("KeyA"));
    assert!(state.is_pressed("KeyB"));
}

#[test]
fn rapid_transitions_collapse_to_final_state() {
    let (tx, mut rx) = unbounded::<KeyPress>();
    let mut state = KeyState::new();
    tx.unbounded_send(key_down("KeyA")).unwrap();
    tx.unbounded_send(key_up("KeyA")).unwrap();
    tx.unbounded_send(key_down("KeyA")).unwrap();
    process_input(&mut state, &mut rx);
    assert!(state.is_pressed("KeyA"));
}

#[test]
fn draining_empty_queue_twice_keeps_state() {
    let (tx, mut rx) = unbounded::<KeyPress>();
    let mut state = KeyState::new();
    tx.unbounded_send(key_down("ArrowUp")).unwrap();
    process_input(&mut state, &mut rx);
    assert!(state.is_pressed("ArrowUp"));
    process_input(&mut state, &mut rx);
    assert!(state.is_pressed("ArrowUp"));
    process_input(&mut state, &mut rx);
    assert!(state.is_pressed("ArrowUp"));
    drop(tx);
}

#[test]
fn closed_queue_reads_as_empty() {
    let (tx, mut rx) = unbounded::<KeyPress>();
    let mut state = KeyState::new();
    tx.unbounded_send(key_down("KeyQ")).unwrap();
    drop(tx);
    process_input(&mut state, &mut rx);
    assert!(state.is_pressed("KeyQ"));
    process_input(&mut state, &mut rx);
    assert!(state.is_pressed("KeyQ"));
}

#[test]
fn key_state_lookup_reflects_presses() {
    let mut state = KeyState::new();
    assert!(!state.is_pressed("ArrowLeft"));
    state.set_pressed(
        "ArrowLeft",
        KeyEvent {
            code: "ArrowLeft".to_string(),
        },
    );
    assert!(state.is_pressed("ArrowLeft"));
    state.set_released("ArrowLeft");
    assert!(!state.is_pressed("ArrowLeft"));
}

#[test]
fn first_signal_wins_success_then_error() {
    let mut slot = LoadSlot::new();
    slot.deliver_success(ImageHandle { id: 42 });
    slot.deliver_error("late failure".to_string());
    match slot.take() {
        Some(LoadOutcome::Success(handle)) => assert_eq!(handle, ImageHandle { id: 42 }),
        _ => panic!("the first delivery should stand"),
    }
}

#[test]
fn first_signal_wins_error_then_success() {
    let mut slot = LoadSlot::new();
    slot.deliver_error("no such image".to_string());
    slot.deliver_success(ImageHandle { id: 9 });
    match slot.take() {
        Some(LoadOutcome::Failure(payload)) => assert_eq!(payload, "no such image"),
        _ => panic!("the first delivery should stand"),
    }
}

#[test]
fn successful_load_resolves_to_the_handle() {
    let mut slot = LoadSlot::new();
    assert!(!slot.is_resolved());
    slot.deliver_success(ImageHandle { id: 11 });
    assert!(slot.is_resolved());
    let outcome = slot.take().expect("resolved");
    match into_load_result(outcome) {
        Ok(handle) => assert_eq!(handle, ImageHandle { id: 11 }),
        Err(_) => panic!("a success signal should resolve to the handle"),
    }
}

#[test]
fn failed_load_resolves_to_wrapped_payload() {
    let mut slot = LoadSlot::new();
    slot.deliver_error("404 Not Found".to_string());
    let outcome = slot.take().expect("resolved");
    match into_load_result(outcome) {
        Err(error) => assert_eq!(error.message, "Error Loading Image: 404 Not Found"),
        Ok(_) => panic!("an error signal should resolve to a failure"),
    }
}

#[test]
fn renderer_records_commands_in_order() {
    let mut renderer = Renderer::new();
    let whole = Rect {
        x: 0,
        y: 0,
        width: 600,
        height: 600,
    };
    let source = Rect {
        x: 1,
        y: 2,
        width: 3,
        height: 4,
    };
    let destination = Rect {
        x: 5,
        y: 6,
        width: 3,
        height: 4,
    };
    renderer.clear(&whole);
    renderer.draw_image(ImageHandle { id: 3 }, &source, &destination);
    let commands = renderer.take_commands();
    assert_eq!(
        commands,
        vec![
            DrawCommand::Clear(whole),
            DrawCommand::DrawImage {
                image: ImageHandle { id: 3 },
                frame: source,
                destination,
            },
        ]
    );
    assert!(renderer.take_commands().is_empty());
}

#[test]
fn sheet_completeness_check() {
    assert!(WalkTheDog::sheet_is_complete(&complete_sheet()));
    let mut partial = Sheet::new();
    partial.add_frame(
        "Run (1).png".to_string(),
        Cell {
            frame: SheetRect {
                x: 0,
                y: 0,
                w: 1,
                h: 1,
            },
        },
    );
    assert!(!WalkTheDog::sheet_is_complete(&partial));
}

#[test]
fn update_moves_by_held_arrows() {
    let mut game = ready_game();
    let mut state = KeyState::new();
    state.set_pressed(
        "ArrowRight",
        KeyEvent {
            code: "ArrowRight".to_string(),
        },
    );
    state.set_pressed(
        "ArrowDown",
        KeyEvent {
            code: "ArrowDown".to_string(),
        },
    );
    game.update(&state);
    assert_eq!(game.position, Point { x: 3, y: 3 });
    assert_eq!(game.frame, 1);
    state.set_pressed(
        "ArrowLeft",
        KeyEvent {
            code: "ArrowLeft".to_string(),
        },
    );
    game.update(&state);
    assert_eq!(game.position, Point { x: 3, y: 6 });
    assert_eq!(game.frame, 2);
}

#[test]
fn animation_frame_wraps_after_full_cycle() {
    let mut game = ready_game();
    let state = KeyState::new();
    for _ in 0..23 {
        game.update(&state);
    }
    assert_eq!(game.frame, 23);
    game.update(&state);
    assert_eq!(game.frame, 0);
}

#[test]
fn draw_emits_one_clear_and_one_blit() {
    let mut game = ready_game();
    game.position = Point { x: 50, y: 60 };
    let mut renderer = Renderer::new();
    game.draw(&mut renderer);
    let commands = renderer.take_commands();
    assert_eq!(
        commands,
        vec![
            DrawCommand::Clear(Rect {
                x: 0,
                y: 0,
                width: 600,
                height: 600,
            }),
            DrawCommand::DrawImage {
                image: ImageHandle { id: 7 },
                frame: Rect {
                    x: 0,
                    y: 20,
                    width: 30,
                    height: 40,
                },
                destination: Rect {
                    x: 50,
                    y: 60,
                    width: 30,
                    height: 40,
                },
            },
        ]
    );
}

#[test]
fn refresh_schedule_runs_floor_division_updates() {
    let mut game = ready_game();
    let mut state = KeyState::new();
    let (_tx, mut rx) = unbounded::<KeyPress>();
    let mut renderer = Renderer::new();
    let mut game_loop = GameLoop::new(0);

    // Timestamps in microseconds, mirroring callbacks near 0, 16, 33 and
    // 50 milliseconds; one fixed step is FRAME_SIZE = 16667 microseconds.
    let mut frames_before = game.frame;
    let expected_updates = [0u8, 0, 1, 1];
    for (perf, expected) in [0u64, 16000, 33000, 50000].iter().zip(expected_updates.iter()) {
        game_loop.frame(&mut game, &mut state, &mut rx, &mut renderer, *perf);
        let ran = game.frame - frames_before;
        assert_eq!(ran, *expected, "at callback time {perf}");
        frames_before = game.frame;
        // Exactly one draw per callback, whatever the update count: the
        // game draws one clear and one blit each time it is asked.
        assert_eq!(renderer.take_commands().len(), 2);
    }
}

#[test]
fn long_pause_runs_catch_up_updates() {
    let mut game = ready_game();
    let mut state = KeyState::new();
    let (_tx, mut rx) = unbounded::<KeyPress>();
    let mut renderer = Renderer::new();
    let mut game_loop = GameLoop::new(0);
    let pause: u64 = 5 * FRAME_SIZE + 123;
    game_loop.frame(&mut game, &mut state, &mut rx, &mut renderer, pause);
    assert_eq!(game.frame, 5);
    assert_eq!(renderer.take_commands().len(), 2);
}

#[test]
fn drain_happens_before_updates_within_a_callback() {
    let mut game = ready_game();
    let mut state = KeyState::new();
    let (tx, mut rx) = unbounded::<KeyPress>();
    let mut renderer = Renderer::new();
    let mut game_loop = GameLoop::new(0);
    tx.unbounded_send(key_down("ArrowRight")).unwrap();
    // One full step has accumulated, and the press sits in the queue:
    // the drain must land before the update reads the key state.
    game_loop.frame(&mut game, &mut state, &mut rx, &mut renderer, FRAME_SIZE);
    assert_eq!(game.frame, 1);
    assert_eq!(game.position, Point { x: 3, y: 0 });
    assert!(state.is_pressed("ArrowRight"));
}
