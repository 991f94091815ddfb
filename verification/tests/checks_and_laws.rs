use lilygo_display::controls::press_left;
use lilygo_display::controls::press_right;
use lilygo_display::controls::ScreenEffect;
use lilygo_display::drawing::ButtonsDrawing;
use lilygo_display::drawing::Position;
use lilygo_display::menu::Menu;
use lilygo_display::state::MenuAction;

fn two_entry_menu() -> (Menu<6, 3>, usize, usize, usize) {
    let mut menu: Menu<6, 3> = Menu::new(Position { x: 0, y: 20 }, "ok", "nx", 13);
    let top = menu.new_menu("top");
    let a = menu.new_menu("a");
    let b = menu.new_menu("b");
    menu.set_submenus(top, &[a, b]);
    menu.set_current_menu(top);
    (menu, top, a, b)
}

fn lines(menu: &Menu<6, 3>) -> Vec<String> {
    menu.draw_lines().iter().map(|l| l.text.iter().collect()).collect()
}

#[test]
fn fresh_menu_is_not_ready_to_draw() {
    let menu: Menu<6, 3> = Menu::new(Position { x: 0, y: 0 }, "ok", "nx", 13);
    // no current menu yet: the button row cannot be laid out
    assert!(!menu.ready_to_draw());
    assert!(!menu.can_move_cursor());
    assert!(!menu.can_select());
    assert!(menu.can_add_menu());
}

#[test]
fn set_up_menu_is_ready_to_draw() {
    let (menu, top, a, _) = two_entry_menu();
    assert!(menu.ready_to_draw());
    assert!(menu.can_move_cursor());
    assert!(menu.can_enter(top));
    assert!(!menu.can_enter(a));
    // entry `a` has no entries of its own
    assert!(!menu.can_select());
}

#[test]
fn long_query_label_is_not_ready() {
    let mut menu: Menu<6, 3> = Menu::new(Position { x: 0, y: 0 }, "ok", "nx", 13);
    let top = menu.new_menu("top");
    let long = menu.new_menu("thirteen char");
    menu.set_submenus(top, &[long]);
    menu.set_current_menu(top);
    assert!(!menu.ready_to_draw());
}

#[test]
fn twelve_byte_query_label_is_ready() {
    let mut menu: Menu<6, 3> = Menu::new(Position { x: 0, y: 0 }, "ok", "nx", 13);
    let top = menu.new_menu("top");
    let label = menu.new_menu("twelve chars");
    menu.set_submenus(top, &[label]);
    menu.set_current_menu(top);
    assert!(menu.ready_to_draw());
    let frame = menu.draw();
    let query = frame.content.unwrap().query.unwrap();
    assert_eq!(query.x, 1);
}

#[test]
fn window_line_overflow_is_not_ready() {
    let mut menu: Menu<6, 3> = Menu::new(Position { x: 0, y: i32::MAX - 20 }, "ok", "nx", 13);
    let top = menu.new_menu("top");
    let a = menu.new_menu("a");
    menu.set_submenus(top, &[a]);
    menu.set_current_menu(top);
    assert!(!menu.ready_to_draw());
}

#[test]
fn selecting_an_action_entry_is_refused_by_the_check() {
    let (mut menu, top, _, _) = two_entry_menu();
    let back = menu.new_menu_item("back", MenuAction::Back);
    menu.set_submenus(back, &[top]);
    menu.set_selected_item(back);
    assert!(!menu.can_select());
}

#[test]
fn law_cursor_cycles_on_values() {
    let mut menu: Menu<6, 3> = Menu::new(Position { x: 0, y: 0 }, "ok", "nx", 13);
    let top = menu.new_menu("top");
    let ids: Vec<usize> = (0..5).map(|_| menu.new_menu("e")).collect();
    menu.set_submenus(top, &ids);
    menu.set_current_menu(top);
    menu.cursor_next();
    menu.cursor_next();
    assert_eq!(menu.selected(), Some(ids[2]));
    for _ in 0..5 {
        menu.cursor_next();
    }
    assert_eq!(menu.selected(), Some(ids[2]));
    assert_eq!(menu.current(), Some(top));
}

#[test]
fn law_submenus_read_back_on_values() {
    let (mut menu, top, a, b) = two_entry_menu();
    menu.set_submenus(a, &[b, top]);
    assert_eq!(menu.get_submenus(a), &vec![b, top]);
    assert_eq!(menu.get_submenus(top), &vec![a, b]);
    menu.set_submenus(top, &[b]);
    assert_eq!(menu.get_submenus(top), &vec![b]);
}

#[test]
fn law_new_menu_label_on_values() {
    let (mut menu, _, _, _) = two_entry_menu();
    let id = menu.new_menu("fresh");
    assert_eq!(id, 3);
    assert_eq!(menu.menu_label(id), "fresh");
    assert_eq!(menu.menu_label(0), "top");
}

#[test]
fn law_frames_list_the_menu_on_values() {
    let (mut menu, _, _, _) = two_entry_menu();
    let _ = menu.draw();
    assert_eq!(lines(&menu), vec!["top   ", "      ", "      "]);
    let _ = menu.draw();
    assert_eq!(lines(&menu), vec!["top   ", "a     ", "      "]);
    let _ = menu.draw();
    assert_eq!(lines(&menu), vec!["top   ", "a     ", "b     "]);
}

#[test]
fn law_press_shows_once_on_values() {
    let (mut menu, _, _, _) = two_entry_menu();
    let _ = menu.draw();
    menu.l_click();
    let widths: Vec<Option<u32>> = (0..3)
        .map(|_| match menu.draw().buttons {
            Some(ButtonsDrawing::Pair { left, .. }) => Some(left.frame.stroke_width),
            _ => None,
        })
        .collect();
    assert_eq!(widths, vec![Some(4), Some(2), None]);
}

#[test]
fn law_enter_then_move_on_values() {
    let (mut menu, top, a, b) = two_entry_menu();
    menu.set_current_menu(top);
    assert_eq!(menu.selected(), Some(a));
    menu.cursor_next();
    assert_eq!(menu.selected(), Some(b));
}

#[test]
fn empty_window_lines_are_positioned_by_font() {
    let (menu, _, _, _) = two_entry_menu();
    let drawn = menu.draw_lines();
    let ys: Vec<i32> = drawn.iter().map(|l| l.y).collect();
    assert_eq!(ys, vec![20, 36, 52]);
}

#[test]
fn press_left_on_explode_clears_red() {
    let mut menu: Menu<6, 3> = Menu::new(Position { x: 0, y: 0 }, "ok", "nx", 13);
    let top = menu.new_menu("OPTIONS");
    let scan_wifi = menu.new_menu("scan wifi");
    let explode = menu.new_menu("explode");
    menu.set_submenus(top, &[scan_wifi, explode]);
    menu.set_current_menu(top);
    assert_eq!(press_left(&mut menu, scan_wifi, explode), ScreenEffect::Nothing);
    menu.set_selected_item(explode);
    assert_eq!(press_left(&mut menu, scan_wifi, explode), ScreenEffect::ClearRed);
    menu.set_selected_item(top);
    assert_eq!(press_left(&mut menu, scan_wifi, explode), ScreenEffect::Nothing);
}

#[test]
fn press_right_moves_and_presses() {
    let (mut menu, _, a, b) = two_entry_menu();
    let _ = menu.draw();
    press_right(&mut menu);
    assert_eq!(menu.selected(), Some(b));
    match menu.draw().buttons {
        Some(ButtonsDrawing::Pair { right: Some(right), .. }) => assert_eq!(right.frame.stroke_width, 4),
        _ => panic!("expected the right button pressed"),
    }
    press_right(&mut menu);
    assert_eq!(menu.selected(), Some(a));
}

#[test]
fn cursor_move_reports_positions() {
    let (mut menu, _, _, _) = two_entry_menu();
    let step = menu.cursor_move();
    assert_eq!((step.from, step.to, step.len), (0, 1, 2));
    let step = press_right(&mut menu);
    assert_eq!((step.from, step.to, step.len), (0, 1, 2));
    let step = press_right(&mut menu);
    assert_eq!((step.from, step.to, step.len), (1, 0, 2));
}

#[test]
fn prove_well_formed_is_callable() {
    let (menu, _, _, _) = two_entry_menu();
    menu.prove_well_formed();
    assert_eq!(menu.draw_lines().len(), 3);
}
