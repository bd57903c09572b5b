use musical_cars_lib::ai::{car_move_agent, observed_rectangles, Direction, PlayerState};
use musical_cars_lib::game::collision::{build_collision, car_rectangle, Rectangle, CAR_HEIGHT_PX, CAR_WIDTH_PX};
use musical_cars_lib::game::debug::{
    axis_increment_values, draw_collision_rectangles, DrawToggleResource, AXIS_HEIGHT, NUM_INCREMENTS,
};
use musical_cars_lib::game::map::{
    car_sprite_index, on_car_loaded, wait_for_level_spawned, LevelEventKind, MapData, NUM_CAR_SPRITES,
};
use musical_cars_lib::game::player::{
    check_graphics_setup, get_keyboard_input, tick_input, PlayerInput, PlayerLoadState,
};
use musical_cars_lib::game::state::AppState;
use musical_cars_lib::game::GameOverEvent;

fn input(throttle: i8, steering: i8) -> PlayerInput {
    PlayerInput { throttle, steering }
}

#[test]
fn app_state_flow() {
    assert_eq!(AppState::Loading.next(), Some(AppState::Loaded));
    assert_eq!(AppState::Loaded.next(), Some(AppState::InGame));
    assert_eq!(AppState::InGame.next(), None);
}

#[test]
fn player_load_state_flow() {
    assert_eq!(PlayerLoadState::Setup.next(), Some(PlayerLoadState::GraphicsLoaded));
    assert_eq!(PlayerLoadState::GraphicsLoaded.next(), Some(PlayerLoadState::Finished));
    assert_eq!(PlayerLoadState::Finished.next(), None);
}

#[test]
fn graphics_setup_start() {
    assert_eq!(check_graphics_setup(true), PlayerLoadState::Setup);
    assert_eq!(check_graphics_setup(false), PlayerLoadState::GraphicsLoaded);
}

#[test]
fn keyboard_single_keys() {
    assert_eq!(get_keyboard_input(false, false, false, false), input(0, 0));
    assert_eq!(get_keyboard_input(true, false, false, false), input(1, 0));
    assert_eq!(get_keyboard_input(false, true, false, false), input(-1, 0));
    assert_eq!(get_keyboard_input(false, false, true, false), input(0, 1));
    assert_eq!(get_keyboard_input(false, false, false, true), input(0, -1));
}

#[test]
fn keyboard_opposite_keys() {
    // Down is checked after Up, Right after Left: the later one wins.
    assert_eq!(get_keyboard_input(true, true, false, false), input(-1, 0));
    assert_eq!(get_keyboard_input(false, false, true, true), input(0, -1));
    assert_eq!(get_keyboard_input(true, true, true, true), input(-1, -1));
    assert_eq!(get_keyboard_input(true, false, true, false), input(1, 1));
}

#[test]
fn default_input_is_neutral() {
    assert_eq!(PlayerInput::default(), input(0, 0));
}

#[test]
fn tick_input_picks_source() {
    assert_eq!(tick_input(true, input(1, -1), false, true, true, false), input(1, -1));
    assert_eq!(tick_input(false, input(1, -1), false, true, true, false), input(-1, 1));
}

#[test]
fn agent_no_action_exits() {
    let mut i = input(1, 1);
    assert!(car_move_agent(&mut i, None));
    assert_eq!(i, input(1, 1));
}

#[test]
fn agent_actions_applied_in_order() {
    let mut i = input(0, 0);
    assert!(!car_move_agent(&mut i, Some(vec![Direction::Left])));
    assert_eq!(i, input(0, -1));

    let mut i = input(0, 0);
    assert!(!car_move_agent(&mut i, Some(vec![Direction::Right])));
    assert_eq!(i, input(0, 1));

    let mut i = input(0, 0);
    assert!(!car_move_agent(&mut i, Some(vec![Direction::Up])));
    assert_eq!(i, input(1, 0));

    let mut i = input(0, 0);
    assert!(!car_move_agent(&mut i, Some(vec![Direction::Down])));
    assert_eq!(i, input(-1, 0));

    let mut i = input(1, 1);
    assert!(!car_move_agent(&mut i, Some(vec![])));
    assert_eq!(i, input(1, 1));

    let mut i = input(0, 0);
    assert!(!car_move_agent(
        &mut i,
        Some(vec![Direction::Left, Direction::Up, Direction::Right, Direction::Down])
    ));
    assert_eq!(i, input(-1, 1));
}

#[test]
fn agent_actions_compose() {
    let a = vec![Direction::Up, Direction::Left];
    let b = vec![Direction::Down, Direction::Right, Direction::Left];
    let mut whole = input(0, 0);
    let mut ab = a.clone();
    ab.extend(b.iter().copied());
    car_move_agent(&mut whole, Some(ab));
    let mut split = input(0, 0);
    car_move_agent(&mut split, Some(a));
    car_move_agent(&mut split, Some(b));
    assert_eq!(whole, split);
}

#[test]
fn agent_observes_box_centres() {
    let rects = vec![
        Rectangle { x: 3, y: 4, width: 44, height: 74 },
        Rectangle { x: -7, y: 100, width: 1, height: 2 },
    ];
    let obs = observed_rectangles(&rects);
    assert_eq!(obs.len(), 2);
    assert_eq!((obs[0].x, obs[0].y), (3, 4));
    assert_eq!((obs[1].x, obs[1].y), (-7, 100));
    assert!(observed_rectangles(&vec![]).is_empty());
}

#[test]
fn player_state_holds_fields() {
    let s = PlayerState { x: 1, y: 2, x_velocity: 3, y_velocity: 4, x_heading: 0, y_heading: -1 };
    assert_eq!(s.y_heading, -1);
}

#[test]
fn car_box_size() {
    assert_eq!(car_rectangle(450, 250), Rectangle { x: 450, y: 250, width: 44, height: 74 });
    assert_eq!((CAR_WIDTH_PX, CAR_HEIGHT_PX), (44, 74));
}

#[test]
fn build_collision_appends_in_order() {
    let mut rects = vec![Rectangle { x: 0, y: 0, width: 1, height: 1 }];
    build_collision(&mut rects, &vec![(10, 20), (-5, 7)]);
    assert_eq!(
        rects,
        vec![
            Rectangle { x: 0, y: 0, width: 1, height: 1 },
            Rectangle { x: 10, y: 20, width: 44, height: 74 },
            Rectangle { x: -5, y: 7, width: 44, height: 74 },
        ]
    );
    let mut batches = Vec::new();
    build_collision(&mut batches, &vec![(1, 2)]);
    build_collision(&mut batches, &vec![(3, 4)]);
    let mut whole = Vec::new();
    build_collision(&mut whole, &vec![(1, 2), (3, 4)]);
    assert_eq!(batches, whole);
}

#[test]
fn overlay_toggle() {
    let rects = vec![car_rectangle(1, 1), car_rectangle(2, 2)];
    let mut toggle = DrawToggleResource::default();
    assert!(!toggle.draw_collision_rectangles);

    // No key: nothing changes.
    assert!(draw_collision_rectangles(&rects, &mut toggle, false).is_empty());
    assert!(!toggle.draw_collision_rectangles);

    // Key: switched on, every box drawn.
    assert_eq!(draw_collision_rectangles(&rects, &mut toggle, true), rects);
    assert!(toggle.draw_collision_rectangles);

    // Held on: still on, nothing new drawn.
    assert!(draw_collision_rectangles(&rects, &mut toggle, false).is_empty());
    assert!(toggle.draw_collision_rectangles);

    // Key again: switched off, nothing drawn.
    assert!(draw_collision_rectangles(&rects, &mut toggle, true).is_empty());
    assert!(!toggle.draw_collision_rectangles);
}

#[test]
fn axis_ticks() {
    let v = axis_increment_values();
    assert_eq!(v.len() as i32, NUM_INCREMENTS);
    assert_eq!(v.len(), 40);
    assert_eq!(v[0], 50);
    assert_eq!(v[1], 100);
    assert_eq!(*v.last().unwrap(), AXIS_HEIGHT);
}

#[test]
fn sprite_index_in_range() {
    assert_eq!(car_sprite_index(0), 0);
    assert_eq!(car_sprite_index(7), 2);
    assert_eq!(car_sprite_index(usize::MAX), usize::MAX % 5);
    let indices = on_car_loaded(50);
    assert_eq!(indices.len(), 50);
    assert!(indices.iter().all(|&i| i < NUM_CAR_SPRITES));
    assert!(on_car_loaded(0).is_empty());
}

#[test]
fn map_center() {
    assert_eq!(MapData { width: 512, height: 300 }.center(), (256, 150));
    assert_eq!(MapData { width: 513, height: 1 }.center(), (256, 0));
    assert_eq!(MapData { width: -3, height: -4 }.center(), (-1, -2));
}

#[test]
fn level_events() {
    assert_eq!(wait_for_level_spawned(&vec![]), None);
    assert_eq!(
        wait_for_level_spawned(&vec![LevelEventKind::SpawnTriggered, LevelEventKind::Transformed]),
        None
    );
    assert_eq!(
        wait_for_level_spawned(&vec![LevelEventKind::SpawnTriggered, LevelEventKind::Spawned]),
        Some(AppState::Loaded)
    );
    assert_eq!(
        wait_for_level_spawned(&vec![LevelEventKind::Spawned, LevelEventKind::Despawned]),
        Some(AppState::Loaded)
    );
}

#[test]
fn game_over_event_is_plain() {
    assert_eq!(GameOverEvent, GameOverEvent);
}
