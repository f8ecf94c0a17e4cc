//! The key-binding screen: a table of each player's controls and a back
//! button that returns to the main menu.
use vstd::prelude::*;

use crate::game::Rgb;
use crate::menu::{paint_button, spec_button_color, Interaction};
use crate::player::{Key, Keys};
use crate::{AppState, GameState};

verus! {

/// One frame of the key-binding screen: a click on the back button pushes
/// the main menu, and the button is repainted for its interaction state. The
/// system only runs while the key-binding screen is the active one.
pub fn handle_controlls_menu_interactions(
    app_state: &mut AppState,
    back: Interaction,
    back_color: &mut Rgb,
)
    requires
        old(app_state).wf(),
        old(app_state).spec_current() == GameState::ControllsMenu,
    ensures
        final(app_state).wf(),
        final(app_state)@ == if back == Interaction::Clicked {
            old(app_state)@.push(GameState::MainMenu)
        } else {
            old(app_state)@
        },
        *final(back_color) == spec_button_color(back, *old(back_color)),
{
    match back {
        Interaction::Clicked => {
            app_state.push(GameState::MainMenu);
        },
        _ => {
            paint_button(back, back_color);
        },
    }
}

/// The name the key-binding table prints for a key.
pub open spec fn spec_key_label(k: Key) -> Seq<char> {
    match k {
        Key::W => "W"@,
        Key::A => "A"@,
        Key::S => "S"@,
        Key::D => "D"@,
        Key::Space => "Space"@,
        Key::Up => "Up"@,
        Key::Down => "Down"@,
        Key::Left => "Left"@,
        Key::Right => "Right"@,
        Key::Return => "Enter"@,
    }
}

pub fn key_label(k: Key) -> (r: &'static str)
    ensures
        r@ == spec_key_label(k),
{
    match k {
        Key::W => "W",
        Key::A => "A",
        Key::S => "S",
        Key::D => "D",
        Key::Space => "Space",
        Key::Up => "Up",
        Key::Down => "Down",
        Key::Left => "Left",
        Key::Right => "Right",
        Key::Return => "Enter",
    }
}

/// The rows of one player's column in the key-binding table: each movement
/// next to the name of the key bound to it.
pub fn control_rows(keys: &Keys) -> (r: Vec<(&'static str, &'static str)>)
    ensures
        r@.len() == 5,
        r@[0].0@ == "Move forward"@ && r@[0].1@ == spec_key_label(keys.up),
        r@[1].0@ == "Move backwards"@ && r@[1].1@ == spec_key_label(keys.down),
        r@[2].0@ == "Turn right"@ && r@[2].1@ == spec_key_label(keys.right),
        r@[3].0@ == "Turn left"@ && r@[3].1@ == spec_key_label(keys.left),
        r@[4].0@ == "Action"@ && r@[4].1@ == spec_key_label(keys.action),
{
    let mut rows: Vec<(&'static str, &'static str)> = Vec::new();
    rows.push(("Move forward", key_label(keys.up)));
    rows.push(("Move backwards", key_label(keys.down)));
    rows.push(("Turn right", key_label(keys.right)));
    rows.push(("Turn left", key_label(keys.left)));
    rows.push(("Action", key_label(keys.action)));
    rows
}

} // verus!
