//! What the two buttons of the board do to the start-up menu.

use crate::menu::CursorMove;
use crate::menu::Menu;
use crate::state::ButtonHighlight;
use crate::state::MenuId;
use crate::state::first_index;
use vstd::prelude::*;

verus! {

/// What has to happen to the whole screen after a button press.
#[derive(Clone, Copy, Debug, PartialEq, Eq, Structural)]
pub enum ScreenEffect {
    Nothing,
    /// Fill the screen with red.
    ClearRed,
}

/// The screen effect of pressing the left button with `selected` selected:
/// the "explode" entry clears the screen red, the "scan wifi" entry and
/// everything else do nothing yet.
pub open spec fn left_press_effect(
    selected: Option<MenuId>,
    scan_wifi: MenuId,
    explode: MenuId,
) -> ScreenEffect {
    match selected {
        Some(cur) => if cur == scan_wifi {
            ScreenEffect::Nothing
        } else if cur == explode {
            ScreenEffect::ClearRed
        } else {
            ScreenEffect::Nothing
        },
        None => ScreenEffect::Nothing,
    }
}

/// The left button was pressed: the button is drawn pressed, and the
/// selected entry decides the screen effect.
pub fn press_left<const W: usize, const H: usize>(
    menu: &mut Menu<W, H>,
    scan_wifi: MenuId,
    explode: MenuId,
) -> (effect: ScreenEffect)
    ensures
        final(menu)@ == old(menu)@.click(ButtonHighlight::L),
        effect == left_press_effect(old(menu)@.selected, scan_wifi, explode),
        (effect == ScreenEffect::ClearRed) <==> (old(menu)@.selected == Some(explode) && explode
            != scan_wifi),
{
    menu.l_click();
    if let Some(cur) = menu.selected() {
        if cur == scan_wifi {
            ScreenEffect::Nothing
        } else if cur == explode {
            ScreenEffect::ClearRed
        } else {
            ScreenEffect::Nothing
        }
    } else {
        ScreenEffect::Nothing
    }
}

/// The right button was pressed: the button is drawn pressed and the cursor
/// moves to the next entry; the move is returned for the log.
pub fn press_right<const W: usize, const H: usize>(menu: &mut Menu<W, H>) -> (step: CursorMove)
    requires
        old(menu)@.can_move_cursor(),
    ensures
        final(menu)@ == old(menu)@.click(ButtonHighlight::R).move_cursor(),
        step.len == old(menu)@.graph[old(menu)@.current->0].len(),
        step.from == first_index(old(menu)@.graph[old(menu)@.current->0], old(menu)@.selected->0),
        step.to == (step.from + 1) % (step.len as int),
{
    let step = menu.cursor_move();
    menu.r_click();
    menu.cursor_next();
    step
}

} // verus!
