use tagger::controlls::{control_rows, handle_controlls_menu_interactions, key_label};
use tagger::game::Rgb;
use tagger::menu::{handle_menu_interactions, paint_button, play_button_label, Interaction};
use tagger::player::Keys;
use tagger::player::Key;
use tagger::{AppState, GameState};

fn base_purple() -> Rgb {
    Rgb { r: 149, g: 53, b: 184 }
}

fn hover_purple() -> Rgb {
    Rgb { r: 138, g: 30, b: 97 }
}

#[test]
fn clicking_play_enters_the_game() {
    let mut app = AppState::new(GameState::MainMenu);
    let mut play_color = base_purple();
    let mut controlls_color = base_purple();
    handle_menu_interactions(
        &mut app,
        Interaction::Clicked,
        Interaction::Idle,
        &mut play_color,
        &mut controlls_color,
    );
    assert_eq!(app.current(), GameState::Game);
}

#[test]
fn clicking_controlls_opens_the_binding_screen() {
    let mut app = AppState::new(GameState::MainMenu);
    let mut play_color = base_purple();
    let mut controlls_color = base_purple();
    handle_menu_interactions(
        &mut app,
        Interaction::Idle,
        Interaction::Clicked,
        &mut play_color,
        &mut controlls_color,
    );
    assert_eq!(app.current(), GameState::ControllsMenu);
}

#[test]
fn hovering_repaints_a_button() {
    let mut app = AppState::new(GameState::MainMenu);
    let mut play_color = base_purple();
    let mut controlls_color = hover_purple();
    handle_menu_interactions(
        &mut app,
        Interaction::Hovered,
        Interaction::Idle,
        &mut play_color,
        &mut controlls_color,
    );
    assert_eq!(app.current(), GameState::MainMenu);
    assert_eq!(play_color, hover_purple());
    assert_eq!(controlls_color, base_purple());

    let mut c = base_purple();
    paint_button(Interaction::Clicked, &mut c);
    assert_eq!(c, base_purple());
}

#[test]
fn the_back_button_returns_to_the_menu() {
    let mut app = AppState::new(GameState::MainMenu);
    app.push(GameState::ControllsMenu);
    let mut back_color = base_purple();
    handle_controlls_menu_interactions(&mut app, Interaction::Clicked, &mut back_color);
    assert_eq!(app.current(), GameState::MainMenu);

    let mut back_color = base_purple();
    handle_controlls_menu_interactions(&mut app, Interaction::Hovered, &mut back_color);
    assert_eq!(back_color, hover_purple());
}

#[test]
fn play_button_offers_a_rematch_after_a_win() {
    assert_eq!(play_button_label(false), "Play");
    assert_eq!(play_button_label(true), "Play again");
}

#[test]
fn the_menu_announces_the_winner() {
    let w = tagger::Winner(String::from("Player_1"));
    assert_eq!(tagger::menu::winner_line(&w), "Player_1  won!");
}

#[test]
fn the_binding_table_names_each_key() {
    assert_eq!(key_label(Key::W), "W");
    assert_eq!(key_label(Key::Return), "Enter");
    assert_eq!(key_label(Key::Space), "Space");

    let keys = Keys {
        up: Key::Up,
        down: Key::Down,
        left: Key::Left,
        right: Key::Right,
        action: Key::Return,
    };
    let rows = control_rows(&keys);
    assert_eq!(
        rows,
        vec![
            ("Move forward", "Up"),
            ("Move backwards", "Down"),
            ("Turn right", "Right"),
            ("Turn left", "Left"),
            ("Action", "Enter"),
        ]
    );
}
