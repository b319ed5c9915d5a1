use snake_game::game::{Game, first_free_cell, random_free_cell};
use snake_game::snake::{MovementDirection, Snake};

fn body_cells(game: &Game) -> Vec<(i32, i32)> {
    let mut cells = Vec::new();
    let mut i = 0;
    while i < game.snake_body_len() {
        cells.push(game.snake_body_cell(i));
        i += 1;
    }
    cells
}

#[test]
fn new_game_snapshot() {
    let game = Game::new(30, 30);
    assert_eq!(game.window_width(), 30);
    assert_eq!(game.window_height(), 30);
    assert!(!game.game_over());
    assert_eq!(game.waiting_time_ms(), 0);
    assert_eq!(game.food_position(), Some((6, 4)));
    assert_eq!(game.snake_direction(), MovementDirection::Right);
    assert_eq!(body_cells(&game), vec![(4, 2), (3, 2), (2, 2)]);
}

#[test]
fn reversal_press_is_ignored() {
    let mut game = Game::new(30, 30);
    // Heading Right; Left is its opposite, so the press is a no-op.
    game.key_pressed(Some(MovementDirection::Left));
    assert_eq!(game.snake_direction(), MovementDirection::Right);
    assert_eq!(body_cells(&game), vec![(4, 2), (3, 2), (2, 2)]);
    assert!(!game.game_over());
}

#[test]
fn non_directional_press_forces_a_step() {
    let mut game = Game::new(30, 30);
    game.update(50);
    assert_eq!(game.waiting_time_ms(), 50);
    game.key_pressed(None);
    assert_eq!(body_cells(&game), vec![(5, 2), (4, 2), (3, 2)]);
    assert_eq!(game.snake_direction(), MovementDirection::Right);
    assert_eq!(game.waiting_time_ms(), 0);
}

#[test]
fn directional_press_steps_with_override() {
    let mut game = Game::new(30, 30);
    game.key_pressed(Some(MovementDirection::Up));
    assert_eq!(body_cells(&game), vec![(4, 1), (4, 2), (3, 2)]);
    assert_eq!(game.snake_direction(), MovementDirection::Up);
    assert!(!game.game_over());
}

#[test]
fn hitting_the_top_border_ends_the_game() {
    let mut game = Game::new(30, 30);
    game.key_pressed(Some(MovementDirection::Up));
    assert_eq!(game.snake_body_cell(0), (4, 1));
    // The next head cell would be (4, 0): on the border.
    game.key_pressed(Some(MovementDirection::Up));
    assert!(game.game_over());
    assert_eq!(body_cells(&game), vec![(4, 1), (4, 2), (3, 2)]);
}

#[test]
fn hitting_the_left_border_ends_the_game() {
    let mut game = Game::new(30, 30);
    game.key_pressed(Some(MovementDirection::Up));
    game.key_pressed(Some(MovementDirection::Left));
    game.key_pressed(Some(MovementDirection::Left));
    game.key_pressed(Some(MovementDirection::Left));
    assert_eq!(game.snake_body_cell(0), (1, 1));
    assert!(!game.game_over());
    // The next head cell would be (0, 1): on the border.
    game.key_pressed(Some(MovementDirection::Left));
    assert!(game.game_over());
    assert_eq!(game.snake_body_cell(0), (1, 1));
}

#[test]
fn hitting_the_right_border_ends_the_game() {
    let mut game = Game::new(30, 30);
    for _ in 0..25 {
        game.key_pressed(Some(MovementDirection::Right));
    }
    assert_eq!(game.snake_body_cell(0), (29, 2));
    assert!(!game.game_over());
    // The next head cell would be (30, 2): on the border of a 30-wide window.
    game.key_pressed(Some(MovementDirection::Right));
    assert!(game.game_over());
    assert_eq!(game.snake_body_cell(0), (29, 2));
}

#[test]
fn stepping_into_the_body_ends_the_game() {
    let mut game = Game::new(30, 30);
    // A direct movement step may carry any override, reversal included;
    // (3, 2) is the cell right behind the head.
    game.update_snake(Some(MovementDirection::Left));
    assert!(game.game_over());
    assert_eq!(body_cells(&game), vec![(4, 2), (3, 2), (2, 2)]);
    assert_eq!(game.waiting_time_ms(), 0);
}

#[test]
fn eating_food_clears_the_flag_and_grows_the_body() {
    let mut game = Game::new(30, 30);
    game.key_pressed(Some(MovementDirection::Down));
    game.key_pressed(Some(MovementDirection::Down));
    game.key_pressed(Some(MovementDirection::Right));
    assert_eq!(body_cells(&game), vec![(5, 4), (4, 4), (4, 3)]);
    assert_eq!(game.food_position(), Some((6, 4)));
    // The tick-driven move reaches the food at (6, 4).
    game.update(101);
    assert_eq!(game.food_position(), None);
    assert_eq!(body_cells(&game), vec![(6, 4), (5, 4), (4, 4), (4, 3)]);
    assert!(!game.game_over());
}

#[test]
fn stepping_onto_the_vacating_tail_cell_is_not_a_collision() {
    let mut game = Game::new(30, 30);
    game.key_pressed(Some(MovementDirection::Down));
    game.key_pressed(Some(MovementDirection::Down));
    game.key_pressed(Some(MovementDirection::Right));
    game.update(101);
    // Four cells now: [(6,4), (5,4), (4,4), (4,3)].
    game.key_pressed(Some(MovementDirection::Down));
    game.key_pressed(Some(MovementDirection::Left));
    assert_eq!(body_cells(&game), vec![(5, 5), (6, 5), (6, 4), (5, 4)]);
    // (5, 4) is the current tail cell; moving onto it is allowed,
    // because the same step vacates it.
    game.key_pressed(Some(MovementDirection::Up));
    assert!(!game.game_over());
    assert_eq!(body_cells(&game), vec![(5, 4), (5, 5), (6, 5), (6, 4)]);
}

#[test]
fn tick_cadence_moves_only_past_the_moving_period() {
    let mut game = Game::new(30, 30);
    game.update(100);
    // 100 ms does not exceed the 100 ms moving period.
    assert_eq!(game.waiting_time_ms(), 100);
    assert_eq!(game.snake_body_cell(0), (4, 2));
    game.update(1);
    assert_eq!(game.snake_body_cell(0), (5, 2));
    assert_eq!(game.waiting_time_ms(), 0);
}

#[test]
fn game_over_ignores_input_until_restart() {
    let mut game = Game::new(30, 30);
    game.key_pressed(Some(MovementDirection::Up));
    game.key_pressed(Some(MovementDirection::Up));
    assert!(game.game_over());
    let frozen = body_cells(&game);

    // Input of every kind is ignored while in game-over.
    game.key_pressed(Some(MovementDirection::Down));
    game.key_pressed(Some(MovementDirection::Right));
    game.key_pressed(None);
    assert_eq!(body_cells(&game), frozen);
    assert!(game.game_over());

    // Idle time accumulates without a movement step.
    game.update(500);
    assert_eq!(game.waiting_time_ms(), 500);
    assert!(game.game_over());
    game.update(400);
    assert_eq!(game.waiting_time_ms(), 900);
    assert!(game.game_over());

    // Exceeding the one-second restart delay resets everything.
    game.update(101);
    assert!(!game.game_over());
    assert_eq!(body_cells(&game), vec![(4, 2), (3, 2), (2, 2)]);
    assert_eq!(game.snake_direction(), MovementDirection::Right);
    assert_eq!(game.food_position(), Some((5, 5)));
    assert_eq!(game.waiting_time_ms(), 0);
    assert_eq!(game.window_width(), 30);
    assert_eq!(game.window_height(), 30);
}

#[test]
fn food_reappears_on_the_tick_after_eating() {
    let mut game = Game::new(30, 30);
    game.key_pressed(Some(MovementDirection::Down));
    game.key_pressed(Some(MovementDirection::Down));
    game.key_pressed(Some(MovementDirection::Right));
    game.update(101);
    assert_eq!(game.food_position(), None);

    game.update(1);
    let food = game.food_position().expect("food should be placed again");
    assert!(1 <= food.0 && food.0 <= 28);
    assert!(1 <= food.1 && food.1 <= 28);
    // On no cell the body occupies, the tail included.
    for cell in body_cells(&game) {
        assert_ne!(food, cell);
    }
    // Placement alone: no movement step at 1 ms of waiting.
    assert_eq!(body_cells(&game), vec![(6, 4), (5, 4), (4, 4), (4, 3)]);
}

#[test]
fn add_food_places_food_inside_the_interior() {
    let mut game = Game::new(30, 30);
    game.add_food();
    let food = game.food_position().expect("food should exist");
    assert!(1 <= food.0 && food.0 <= 28);
    assert!(1 <= food.1 && food.1 <= 28);
    assert_ne!(food, (4, 2));
    assert_ne!(food, (3, 2));
    assert_ne!(food, (2, 2));
    assert_eq!(body_cells(&game), vec![(4, 2), (3, 2), (2, 2)]);
}

#[test]
fn restart_resets_to_the_initial_state() {
    let mut game = Game::new(12, 9);
    game.key_pressed(Some(MovementDirection::Down));
    game.restart();
    assert_eq!(body_cells(&game), vec![(4, 2), (3, 2), (2, 2)]);
    assert_eq!(game.snake_direction(), MovementDirection::Right);
    assert_eq!(game.food_position(), Some((5, 5)));
    assert!(!game.game_over());
    assert_eq!(game.waiting_time_ms(), 0);
    assert_eq!(game.window_width(), 12);
    assert_eq!(game.window_height(), 9);
}

#[test]
fn check_if_snake_alive_looks_ahead_without_moving() {
    let mut game = Game::new(30, 30);
    assert!(game.check_if_snake_alive(None));
    assert!(game.check_if_snake_alive(Some(MovementDirection::Up)));
    // Reversing into the neck would collide.
    assert!(!game.check_if_snake_alive(Some(MovementDirection::Left)));
    game.key_pressed(Some(MovementDirection::Up));
    assert_eq!(game.snake_body_cell(0), (4, 1));
    // One more step up would reach the border.
    assert!(!game.check_if_snake_alive(Some(MovementDirection::Up)));
    assert!(!game.game_over());
}

#[test]
fn first_free_cell_scans_in_row_order() {
    let snake = Snake::new(2, 2);
    assert_eq!(first_free_cell(&snake, 30, 30), Some((1, 1)));
    // On a 4x4 board the interior is only {1, 2} x {1, 2}; the snake's
    // tail cell (2, 2) occupies part of it (food placement avoids the
    // whole body, the tail included), and (1, 1) is the first free cell.
    assert_eq!(first_free_cell(&snake, 4, 4), Some((1, 1)));
}

#[test]
fn random_free_cell_avoids_the_snake() {
    let snake = Snake::new(2, 2);
    for _ in 0..50 {
        let cell = random_free_cell(&snake, 30, 30).expect("interior is mostly free");
        assert!(1 <= cell.0 && cell.0 <= 28);
        assert!(1 <= cell.1 && cell.1 <= 28);
        assert_ne!(cell, (4, 2));
        assert_ne!(cell, (3, 2));
        assert_ne!(cell, (2, 2));
    }
}

#[test]
fn smallest_window_holds_the_starting_configuration() {
    // Width 7 fits the initial food at x = 6; height 6 fits the
    // restart food at y = 5.
    let mut game = Game::new(7, 6);
    assert_eq!(game.food_position(), Some((6, 4)));
    assert_eq!(body_cells(&game), vec![(4, 2), (3, 2), (2, 2)]);
    game.key_pressed(Some(MovementDirection::Down));
    assert_eq!(game.snake_body_cell(0), (4, 3));
    assert!(!game.game_over());
    game.restart();
    assert_eq!(game.food_position(), Some((5, 5)));
    assert!(!game.game_over());
}
