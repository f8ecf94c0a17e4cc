//! The main menu: a play button that starts a round and a button that opens
//! the key-binding screen. The engine reports each button's interaction
//! state; the system answers with state transitions and button colours.
use vstd::prelude::*;

use crate::game::Rgb;
use crate::{AppState, GameState};
use vstd::string::StringExecFns;

verus! {

/// A button's interaction state as the engine's UI reports it each frame.
#[derive(Debug, Clone, Copy, PartialEq, Eq, Structural)]
pub enum Interaction {
    Clicked,
    Hovered,
    Idle,
}

/// A hovered button lights up in the orbs' outline purple.
pub fn hover_color() -> (c: Rgb)
    ensures
        c == (Rgb { r: 138, g: 30, b: 97 }),
{
    crate::game::orb_outline_color()
}

/// A button at rest wears the menu's base purple.
pub fn idle_color() -> (c: Rgb)
    ensures
        c == (Rgb { r: 149, g: 53, b: 184 }),
{
    Rgb { r: 149, g: 53, b: 184 }
}

/// What one frame of interaction does to a button's colour: hovering lights
/// it up, resting repaints the base colour, a click leaves it as it is.
pub open spec fn spec_button_color(i: Interaction, current: Rgb) -> Rgb {
    match i {
        Interaction::Clicked => current,
        Interaction::Hovered => Rgb { r: 138, g: 30, b: 97 },
        Interaction::Idle => Rgb { r: 149, g: 53, b: 184 },
    }
}

/// Repaint a button for its interaction state.
pub fn paint_button(i: Interaction, color: &mut Rgb)
    ensures
        *final(color) == spec_button_color(i, *old(color)),
{
    match i {
        Interaction::Hovered => {
            *color = hover_color();
        },
        Interaction::Idle => {
            *color = idle_color();
        },
        Interaction::Clicked => {},
    }
}

/// One frame of the main menu: a click on the play button pushes the game
/// screen, a click on the controls button pushes the key-binding screen, and
/// each button is repainted for its interaction state. The system only runs
/// while the main menu is the active screen.
pub fn handle_menu_interactions(
    app_state: &mut AppState,
    play: Interaction,
    controlls: Interaction,
    play_color: &mut Rgb,
    controlls_color: &mut Rgb,
)
    requires
        old(app_state).wf(),
        old(app_state).spec_current() == GameState::MainMenu,
    ensures
        final(app_state).wf(),
        final(app_state)@ == if play == Interaction::Clicked && controlls == Interaction::Clicked {
            old(app_state)@.push(GameState::Game).push(GameState::ControllsMenu)
        } else if play == Interaction::Clicked {
            old(app_state)@.push(GameState::Game)
        } else if controlls == Interaction::Clicked {
            old(app_state)@.push(GameState::ControllsMenu)
        } else {
            old(app_state)@
        },
        *final(play_color) == spec_button_color(play, *old(play_color)),
        *final(controlls_color) == spec_button_color(controlls, *old(controlls_color)),
{
    match play {
        Interaction::Clicked => {
            app_state.push(GameState::Game);
        },
        _ => {
            paint_button(play, play_color);
        },
    }
    match controlls {
        Interaction::Clicked => {
            app_state.push(GameState::ControllsMenu);
        },
        _ => {
            paint_button(controlls, controlls_color);
        },
    }
}

/// The line the menu shows under the title once a round has been won.
pub fn winner_line(winner: &crate::Winner) -> (r: String)
    ensures
        r@ == winner.0@ + "  won!"@,
{
    let mut out = winner.0.clone();
    out.append("  won!");
    out
}

/// The label of the play button: after a round it invites a rematch.
pub fn play_button_label(winner_announced: bool) -> (r: &'static str)
    ensures
        winner_announced ==> r@ == "Play again"@,
        !winner_announced ==> r@ == "Play"@,
{
    if winner_announced {
        "Play again"
    } else {
        "Play"
    }
}

} // verus!
