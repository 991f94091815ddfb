use lilygo_display::color::Theme;
use lilygo_display::drawing::ButtonsDrawing;
use lilygo_display::drawing::Frame;
use lilygo_display::drawing::Position;
use lilygo_display::menu::Menu;
use lilygo_display::state::MenuAction;

const BLACK: u16 = 0;

/// The menu of the start-up screen: a top-level menu with two entries.
fn start_menu() -> (Menu<14, 4>, usize, usize, usize) {
    let mut menu: Menu<14, 4> = Menu::new(Position { x: 11, y: 110 }, "select", "next..", 13);
    let top_level = menu.new_menu("OPTIONS");
    let scan_wifi = menu.new_menu("scan wifi");
    let explode = menu.new_menu("explode");
    menu.set_submenus(top_level, &[scan_wifi, explode]);
    menu.set_current_menu(top_level);
    (menu, top_level, scan_wifi, explode)
}

fn text(line: &[char]) -> String {
    line.iter().collect()
}

fn lines_of(frame: &Frame) -> Vec<String> {
    frame.content.as_ref().unwrap().lines.iter().map(|l| text(&l.text)).collect()
}

#[test]
fn new_menus_get_consecutive_ids() {
    let (menu, top_level, scan_wifi, explode) = start_menu();
    assert_eq!((top_level, scan_wifi, explode), (0, 1, 2));
    assert_eq!(menu.menu_label(0), "OPTIONS");
    assert_eq!(menu.menu_label(1), "scan wifi");
    assert_eq!(menu.menu_label(2), "explode");
}

#[test]
fn submenus_read_back_in_order() {
    let (menu, top_level, scan_wifi, explode) = start_menu();
    assert_eq!(menu.get_submenus(top_level), &vec![scan_wifi, explode]);
}

#[test]
fn set_current_menu_selects_first_entry() {
    let (menu, top_level, scan_wifi, _) = start_menu();
    assert_eq!(menu.current(), Some(top_level));
    assert_eq!(menu.selected(), Some(scan_wifi));
}

#[test]
fn cursor_next_wraps_around() {
    let (mut menu, _, scan_wifi, explode) = start_menu();
    menu.cursor_next();
    assert_eq!(menu.selected(), Some(explode));
    menu.cursor_next();
    assert_eq!(menu.selected(), Some(scan_wifi));
    menu.cursor_next();
    assert_eq!(menu.selected(), Some(explode));
}

#[test]
fn cursor_next_with_one_entry_stays() {
    let mut menu: Menu<8, 2> = Menu::new(Position { x: 0, y: 0 }, "l", "r", 13);
    let top = menu.new_menu("top");
    let only = menu.new_menu("only");
    menu.set_submenus(top, &[only]);
    menu.set_current_menu(top);
    menu.cursor_next();
    assert_eq!(menu.selected(), Some(only));
}

#[test]
fn cursor_next_uses_first_occurrence() {
    let mut menu: Menu<8, 2> = Menu::new(Position { x: 0, y: 0 }, "l", "r", 13);
    let top = menu.new_menu("top");
    let a = menu.new_menu("a");
    let b = menu.new_menu("b");
    menu.set_submenus(top, &[a, b, a, top]);
    menu.set_current_menu(top);
    menu.cursor_next();
    assert_eq!(menu.selected(), Some(b));
    menu.cursor_next();
    assert_eq!(menu.selected(), Some(a));
    menu.cursor_next();
    assert_eq!(menu.selected(), Some(b));
}

#[test]
fn select_enters_the_selected_menu() {
    let (mut menu, top_level, scan_wifi, explode) = start_menu();
    let back = menu.new_menu_item("back", MenuAction::Back);
    assert_eq!(back, 3);
    menu.set_submenus(scan_wifi, &[back, top_level]);
    menu.select();
    assert_eq!(menu.current(), Some(scan_wifi));
    assert_eq!(menu.selected(), Some(back));
    let _ = explode;
}

#[test]
fn set_selected_item_selects() {
    let (mut menu, _, _, explode) = start_menu();
    menu.set_selected_item(explode);
    assert_eq!(menu.selected(), Some(explode));
}

#[test]
fn first_frame_draws_buttons_title_and_query() {
    let (mut menu, _, _, _) = start_menu();
    let theme = Theme::default();
    let frame = menu.draw();
    match frame.buttons {
        Some(ButtonsDrawing::Pair { left, right }) => {
            assert_eq!(left.frame.x, -2);
            assert_eq!(left.frame.y, 223);
            assert_eq!(left.frame.width, 54);
            assert_eq!(left.frame.height, 23);
            assert_eq!(left.frame.stroke_color, theme.cyan);
            assert_eq!(left.frame.fill_color, BLACK);
            assert_eq!(left.frame.stroke_width, 2);
            assert_eq!(left.label.text, "select");
            assert_eq!((left.label.x, left.label.y), (0, 236));
            assert_eq!(left.label.color, theme.yellow);
            let right = right.expect("two entries show the right button");
            assert_eq!(right.frame.x, 75);
            assert_eq!(right.frame.width, 72);
            assert_eq!(right.frame.stroke_width, 2);
            assert_eq!(right.label.text, "next..");
            assert_eq!((right.label.x, right.label.y), (81, 236));
        }
        _ => panic!("expected the button pair"),
    }
    let content = frame.content.as_ref().expect("the menu changed");
    assert_eq!(content.lines.len(), 4);
    let ys: Vec<i32> = content.lines.iter().map(|l| l.y).collect();
    assert_eq!(ys, vec![110, 126, 142, 158]);
    assert!(content.lines.iter().all(|l| l.x == 11 && l.color == theme.cyan));
    assert_eq!(
        lines_of(&frame),
        vec!["OPTIONS       ", "              ", "              ", "              "]
    );
    let query = content.query.as_ref().expect("an entry is selected");
    assert_eq!(query.text, "? scan wifi ?");
    assert_eq!((query.x, query.y), (13, 213));
    assert_eq!(query.color, theme.green);
    assert_eq!(query.underline_color, theme.red);
    assert_eq!(query.background_color, BLACK);
}

#[test]
fn later_frames_write_one_line_each() {
    let (mut menu, _, _, _) = start_menu();
    let _ = menu.draw();
    let second = menu.draw();
    assert!(second.buttons.is_none());
    assert_eq!(
        lines_of(&second),
        vec!["OPTIONS       ", "scan wifi     ", "              ", "              "]
    );
    let third = menu.draw();
    assert_eq!(
        lines_of(&third),
        vec!["OPTIONS       ", "scan wifi     ", "explode       ", "              "]
    );
    let fourth = menu.draw();
    assert_eq!(lines_of(&fourth), lines_of(&third));
}

#[test]
fn window_scrolls_when_full() {
    let mut menu: Menu<3, 2> = Menu::new(Position { x: 0, y: 0 }, "l", "r", 13);
    let top = menu.new_menu("top");
    let a = menu.new_menu("aaaa");
    let b = menu.new_menu("b");
    menu.set_submenus(top, &[a, b]);
    menu.set_current_menu(top);
    let f1 = menu.draw();
    assert_eq!(lines_of(&f1), vec!["top", "   "]);
    let f2 = menu.draw();
    assert_eq!(lines_of(&f2), vec!["top", "aaa"]);
    let f3 = menu.draw();
    assert_eq!(lines_of(&f3), vec!["aaa", "b  "]);
}

#[test]
fn query_follows_the_cursor() {
    let (mut menu, _, _, _) = start_menu();
    let _ = menu.draw();
    menu.cursor_next();
    let frame = menu.draw();
    let query = frame.content.as_ref().unwrap().query.as_ref().unwrap();
    assert_eq!(query.text, "? explode ?");
    assert_eq!(query.x, 21);
}

#[test]
fn pressed_button_shows_for_one_frame() {
    let (mut menu, _, _, _) = start_menu();
    let _ = menu.draw();
    menu.r_click();
    let theme = Theme::default();
    let pressed = menu.draw();
    match pressed.buttons {
        Some(ButtonsDrawing::Pair { left, right: Some(right) }) => {
            assert_eq!(right.frame.stroke_width, 4);
            assert_eq!(right.frame.stroke_color, theme.red);
            assert_eq!(right.frame.fill_color, theme.magenta);
            assert_eq!(left.frame.stroke_width, 2);
        }
        _ => panic!("expected both buttons"),
    }
    let released = menu.draw();
    match released.buttons {
        Some(ButtonsDrawing::Pair { right: Some(right), .. }) => {
            assert_eq!(right.frame.stroke_width, 2);
            assert_eq!(right.frame.fill_color, BLACK);
        }
        _ => panic!("expected both buttons again"),
    }
    let quiet = menu.draw();
    assert!(quiet.buttons.is_none());
}

#[test]
fn left_click_presses_the_left_button() {
    let (mut menu, _, _, _) = start_menu();
    let _ = menu.draw();
    menu.l_click();
    let frame = menu.draw();
    match frame.buttons {
        Some(ButtonsDrawing::Pair { left, .. }) => {
            assert_eq!(left.frame.stroke_width, 4);
            assert_eq!(left.frame.fill_color, Theme::default().magenta);
        }
        _ => panic!("expected the left button"),
    }
}

#[test]
fn single_entry_menu_hides_right_button() {
    let mut menu: Menu<8, 2> = Menu::new(Position { x: 0, y: 0 }, "select", "next..", 13);
    let top = menu.new_menu("top");
    let only = menu.new_menu("only");
    menu.set_submenus(top, &[only]);
    menu.set_current_menu(top);
    let frame = menu.draw();
    match frame.buttons {
        Some(ButtonsDrawing::Pair { right, .. }) => assert!(right.is_none()),
        _ => panic!("expected the button pair"),
    }
}

#[test]
fn draw_lines_and_query_alone() {
    let (menu, _, _, _) = start_menu();
    let lines = menu.draw_lines();
    assert_eq!(lines.len(), 4);
    assert_eq!(text(&lines[0].text), "              ");
    let query = menu.draw_selection_query().unwrap();
    assert_eq!(query.text, "? scan wifi ?");
}

#[test]
fn no_selection_no_query() {
    let mut menu: Menu<8, 2> = Menu::new(Position { x: 0, y: 0 }, "l", "r", 13);
    let _ = menu.new_menu("top");
    assert!(menu.draw_selection_query().is_none());
}
