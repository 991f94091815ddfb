//! The menu: a graph of labelled menus, a selection cursor, a scrolling text
//! window of `H` lines of `W` characters, and two buttons.

use std::collections::HashMap;
use std::collections::VecDeque;

use crate::color::Theme;
use crate::color::rgb565_storage;
use crate::drawing::ButtonDrawing;
use crate::drawing::ButtonsDrawing;
use crate::drawing::ContentDrawing;
use crate::drawing::Frame;
use crate::drawing::LabelDrawing;
use crate::drawing::LineDrawing;
use crate::drawing::Position;
use crate::drawing::QueryDrawing;
use crate::drawing::RectDrawing;
use crate::state::ButtonHighlight;
use crate::state::MenuAction;
use crate::state::MenuId;
use crate::state::MenuMode;
use crate::state::MenuState;
use crate::state::button_frame;
use crate::state::first_index;
use crate::state::lemma_first_index;
use crate::state::lemma_lines_fit_same_geometry;
use crate::state::query_text;
use crate::text::lemma_encode_utf8_concat;
use crate::text::pad_line;
use crate::text::padded;
use vstd::prelude::*;
use vstd::string::StringExecFns;
use vstd::utf8::encode_utf8;

verus! {

broadcast use {vstd::std_specs::hash::group_hash_axioms, vstd::string::group_string_axioms};

/// A move of the cursor within the entries of the current menu.
#[derive(Clone, Copy, Debug, PartialEq, Eq, Structural)]
pub struct CursorMove {
    /// Position of the selected entry before the move.
    pub from: usize,
    /// Position of the selected entry after the move.
    pub to: usize,
    /// Number of entries of the current menu.
    pub len: usize,
}

/// A menu shown in a text window of `H` lines of `W` characters.
///
/// Every menu keeps `MenuState::well_formed` as its type invariant; menus
/// are numbered by their position among the labels.
pub struct Menu<const W: usize, const H: usize> {
    changed: bool,
    btn_changed: bool,
    theme: Theme,
    mode: MenuMode,
    top_left: Position,
    lines: Vec<Vec<char>>,
    scroll_line_buffer: VecDeque<String>,
    write_line_cursor: usize,
    current: Option<MenuId>,
    selected: Option<MenuId>,
    menu_labels: Vec<&'static str>,
    menu_actions: HashMap<MenuId, MenuAction>,
    /// Entries of each menu, in a fixed order.
    menu_graph: HashMap<MenuId, Vec<MenuId>>,
    l_btn_label: &'static str,
    r_btn_label: &'static str,
    btn_highlight: Option<ButtonHighlight>,
    font_height: u32,
}

impl<const W: usize, const H: usize> View for Menu<W, H> {
    type V = MenuState;

    closed spec fn view(&self) -> MenuState {
        MenuState {
            changed: self.changed,
            btn_changed: self.btn_changed,
            theme: self.theme,
            mode: self.mode,
            top_left: self.top_left,
            font_height: self.font_height,
            lines: self.lines@.map_values(|l: Vec<char>| l@),
            scroll: self.scroll_line_buffer@.map_values(|s: String| s@),
            cursor: self.write_line_cursor as nat,
            current: self.current,
            selected: self.selected,
            count: self.menu_labels@.len(),
            labels: self.menu_labels@,
            actions: self.menu_actions@,
            graph: Map::new(
                |k: MenuId| self.menu_graph@.contains_key(k),
                |k: MenuId| self.menu_graph@[k]@,
            ),
            l_label: self.l_btn_label,
            r_label: self.r_btn_label,
            highlight: self.btn_highlight,
        }
    }
}

impl<const W: usize, const H: usize> Menu<W, H> {
    /// The invariant every menu keeps: see `MenuState::well_formed`.
    #[verifier::type_invariant]
    spec fn wf(self) -> bool {
        self@.well_formed(W as nat, H as nat)
    }

    /// Every menu is well formed: its window has `H` lines of `W`
    /// characters, its cursor lies within the window, every menu id has a
    /// label, and its colours are those of the default theme.
    /// Verified callers call this, with no effect at run time, to learn the
    /// invariant of a menu they are handed.
    pub fn prove_well_formed(&self)
        ensures
            self@.well_formed(W as nat, H as nat),
    {
        proof {
            use_type_invariant(self);
        }
    }

    /// The current menu.
    pub fn current(&self) -> (current: Option<MenuId>)
        ensures
            current == self@.current,
    {
        self.current
    }

    /// The selected entry.
    pub fn selected(&self) -> (selected: Option<MenuId>)
        ensures
            selected == self@.selected,
    {
        self.selected
    }

    /// A menu with no entries whose window starts at `top_left`, with the
    /// given button labels and a font whose characters are `font_height`
    /// pixels high. The window holds blank lines; everything is to be drawn.
    pub fn new(
        top_left: Position,
        l_btn_label: &'static str,
        r_btn_label: &'static str,
        font_height: u32,
    ) -> (menu: Self)
        ensures
            menu@ == MenuState::initial(
                top_left,
                l_btn_label,
                r_btn_label,
                font_height,
                W as nat,
                H as nat,
            ),
            menu@.well_formed(W as nat, H as nat),
    {
        let ghost blank = Seq::new(W as nat, |j: int| ' ');
        let mut lines: Vec<Vec<char>> = Vec::new();
        while lines.len() < H
            invariant
                lines.len() <= H,
                blank == Seq::new(W as nat, |j: int| ' '),
                forall|i: int| 0 <= i < lines.len() ==> (#[trigger] lines[i])@ == blank,
            decreases H - lines.len(),
        {
            let mut line: Vec<char> = Vec::new();
            while line.len() < W
                invariant
                    line.len() <= W,
                    forall|j: int| 0 <= j < line.len() ==> line[j] == ' ',
                decreases W - line.len(),
            {
                line.push(' ');
            }
            assert(line@ =~= blank);
            lines.push(line);
        }
        let menu = Menu {
            changed: true,
            btn_changed: true,
            theme: Theme::default(),
            mode: MenuMode::HistoryMode,
            top_left,
            lines,
            scroll_line_buffer: VecDeque::new(),
            write_line_cursor: 0,
            current: None,
            selected: None,
            menu_labels: Vec::new(),
            menu_actions: HashMap::new(),
            menu_graph: HashMap::new(),
            l_btn_label,
            r_btn_label,
            btn_highlight: None,
            font_height,
        };
        let ghost init = MenuState::initial(
            top_left,
            l_btn_label,
            r_btn_label,
            font_height,
            W as nat,
            H as nat,
        );
        assert(menu@.lines =~= init.lines);
        assert(menu@.scroll =~= init.scroll);
        assert(menu@.graph =~= init.graph);
        menu
    }

    /// The left button was pressed: it is drawn pressed in the next frame.
    pub fn l_click(&mut self)
        ensures
            final(self)@ == old(self)@.click(ButtonHighlight::L),
    {
        proof {
            use_type_invariant(&*self);
        }
        self.btn_changed = true;
        self.btn_highlight = Some(ButtonHighlight::L);
    }

    /// The right button was pressed: it is drawn pressed in the next frame.
    pub fn r_click(&mut self)
        ensures
            final(self)@ == old(self)@.click(ButtonHighlight::R),
    {
        proof {
            use_type_invariant(&*self);
        }
        self.btn_changed = true;
        self.btn_highlight = Some(ButtonHighlight::R);
    }

    /// Adds a menu labelled `label`; its id is the number of menus before it.
    pub fn new_menu(&mut self, label: &'static str) -> (id: MenuId)
        requires
            old(self)@.count < usize::MAX,
        ensures
            id == old(self)@.count,
            final(self)@ == old(self)@.add_menu(label),
    {
        proof {
            use_type_invariant(&*self);
        }
        self.changed = true;
        let id = self.menu_labels.len();
        let mut labels: Vec<&'static str> = Vec::new();
        std::mem::swap(&mut labels, &mut self.menu_labels);
        labels.insert(id, label);
        self.menu_labels = labels;
        assert(self.menu_labels@ =~= old(self)@.labels.push(label));
        id
    }

    /// Adds a menu entry labelled `label` that carries `action`.
    pub fn new_menu_item(&mut self, label: &'static str, action: MenuAction) -> (id: MenuId)
        requires
            old(self)@.count < usize::MAX,
        ensures
            id == old(self)@.count,
            final(self)@ == old(self)@.add_menu_item(label, action),
    {
        proof {
            use_type_invariant(&*self);
        }
        self.changed = true;
        let id = self.new_menu(label);
        let mut actions: HashMap<MenuId, MenuAction> = HashMap::new();
        std::mem::swap(&mut actions, &mut self.menu_actions);
        actions.insert(id, action);
        self.menu_actions = actions;
        id
    }

    /// Makes `id` the selected entry.
    pub fn set_selected_item(&mut self, id: MenuId)
        ensures
            final(self)@ == old(self)@.select_item(id),
    {
        proof {
            use_type_invariant(&*self);
        }
        self.changed = true;
        self.selected = Some(id);
    }

    /// Gives menu `id` the entries `substates`, in that order, in place of
    /// any it had.
    pub fn set_submenus(&mut self, id: MenuId, substates: &[MenuId])
        ensures
            final(self)@ == old(self)@.with_submenus(id, substates@),
    {
        proof {
            use_type_invariant(&*self);
        }
        self.changed = true;
        let mut graph: HashMap<MenuId, Vec<MenuId>> = HashMap::new();
        std::mem::swap(&mut graph, &mut self.menu_graph);
        graph.insert(id, vstd::slice::slice_to_vec(substates));
        self.menu_graph = graph;
        assert(self@.graph =~= old(self)@.graph.insert(id, substates@));
    }

    /// The entries of menu `id`.
    pub fn get_submenus(&self, id: MenuId) -> (entries: &Vec<MenuId>)
        requires
            self@.graph.contains_key(id),
        ensures
            entries@ == self@.graph[id],
    {
        self.menu_graph.get(&id).unwrap()
    }

    /// The label of menu `id`.
    pub fn menu_label(&self, id: MenuId) -> (label: &'static str)
        requires
            id < self@.count,
        ensures
            label == self@.labels[id as int],
    {
        *self.menu_labels.get(id).unwrap()
    }

    /// Makes `id` the current menu and its first entry the selected one.
    pub fn set_current_menu(&mut self, id: MenuId)
        requires
            old(self)@.can_enter(id),
        ensures
            final(self)@ == old(self)@.enter(id),
            final(self)@.current == Some(id),
            final(self)@.selected == Some(old(self)@.graph[id][0]),
    {
        proof {
            use_type_invariant(&*self);
        }
        self.changed = true;
        self.current = Some(id);
        let first = self.get_submenus(id)[0];
        self.set_selected_item(first);
    }

    /// Enters the selected entry, which has to be a menu with entries.
    pub fn select(&mut self)
        requires
            old(self)@.can_select(),
        ensures
            final(self)@ == old(self)@.select(),
            final(self)@.current == old(self)@.selected,
            final(self)@.selected == Some(old(self)@.graph[old(self)@.selected->0][0]),
    {
        proof {
            use_type_invariant(&*self);
        }
        self.changed = true;
        let sel = self.selected.unwrap();
        match self.menu_actions.get(&sel) {
            Some(_) => {
                // Entries that carry an action are ruled out by the precondition.
                proof {
                    assert(false);
                }
            },
            None => self.set_current_menu(sel),
        }
    }

    /// Sets the selected item to the entry after it in the current menu,
    /// after the last entry back to the first.
    pub fn cursor_next(&mut self)
        requires
            old(self)@.can_move_cursor(),
        ensures
            final(self)@ == old(self)@.move_cursor(),
    {
        proof {
            use_type_invariant(&*self);
        }
        self.changed = true;
        let step = self.cursor_move();
        let cur = self.current.unwrap();
        let next = self.get_submenus(cur)[step.to];
        self.set_selected_item(next);
    }

    /// Where `cursor_next` moves the cursor: from the position of the
    /// selected entry among the entries of the current menu to the position
    /// after it, wrapping around.
    pub fn cursor_move(&self) -> (step: CursorMove)
        requires
            self@.can_move_cursor(),
        ensures
            step.len == self@.graph[self@.current->0].len(),
            step.from == first_index(self@.graph[self@.current->0], self@.selected->0),
            step.to == (step.from + 1) % (step.len as int),
            step.to < step.len,
    {
        let cur = self.current.unwrap();
        let sel = self.selected.unwrap();
        let submenus = self.get_submenus(cur);
        let current_selected_index = position_of(submenus, sel);
        let len = submenus.len();
        let next_index = (current_selected_index + 1) % len;
        CursorMove { from: current_selected_index, to: next_index, len }
    }

    /// While the window is still empty, fills the scroll buffer with the
    /// label of the current menu and the labels of its entries.
    pub fn render_to_scroll_buffer(&mut self)
        requires
            old(self)@.mode == MenuMode::HistoryMode,
            old(self)@.scroll_ready(),
        ensures
            final(self)@ == old(self)@.fill_scroll(),
            old(self)@.cursor == 0 ==> {
                let cur = old(self)@.current->0;
                let entries = old(self)@.graph[cur];
                &&& final(self)@.scroll.len() == entries.len() + 1
                &&& final(self)@.scroll[0] == old(self)@.labels[cur as int]@
                &&& forall|i: int|
                    0 <= i < entries.len() ==> #[trigger] final(self)@.scroll[i + 1]
                        == old(self)@.labels[entries[i] as int]@
            },
    {
        proof {
            use_type_invariant(&*self);
        }
        if self.write_line_cursor == 0 {
            let cur = self.current.unwrap();
            let mut buffer: VecDeque<String> = VecDeque::new();
            buffer.push_back(self.menu_label(cur).to_owned());
            let entries = self.get_submenus(cur);
            let ghost want = old(self)@.fill_scroll().scroll;
            assert(want.len() == entries@.len() + 1);
            assert(buffer@.map_values(|t: String| t@) =~= want.take(1));
            let mut i: usize = 0;
            while i < entries.len()
                invariant
                    self@.well_formed(W as nat, H as nat),
                    self@ == old(self)@,
                    i <= entries.len(),
                    entries@ == self@.graph[cur],
                    self@.scroll_ready(),
                    self@.cursor == 0,
                    self@.current == Some(cur),
                    want == self@.fill_scroll().scroll,
                    want.len() == entries@.len() + 1,
                    buffer@.map_values(|t: String| t@) =~= want.take(i + 1),
                decreases entries.len() - i,
            {
                let item = entries[i];
                assert(self@.graph[cur][i as int] < self@.count);
                let label = self.menu_label(item);
                let ghost prev = buffer@;
                let line = label.to_owned();
                buffer.push_back(line);
                assert(want[i + 1] == label@);
                assert(buffer@ == prev.push(line));
                assert(buffer@.map_values(|t: String| t@) =~= prev.map_values(|t: String| t@).push(line@));
                assert(want.take(i + 2) =~= want.take(i + 1).push(want[i + 1]));
                assert(buffer@.map_values(|t: String| t@) =~= want.take(i + 2));
                i += 1;
            }
            self.scroll_line_buffer = buffer;
            assert(want.take(entries.len() + 1) =~= want);
            assert(self@.scroll =~= want);
        }
    }

    /// Writes the next waiting line into the window, scrolling the window up
    /// once it is full.
    pub fn render_to_line_buffer(&mut self)
        requires
            old(self)@.mode == MenuMode::HistoryMode,
            H > 0 || old(self)@.scroll.len() == 0,
        ensures
            final(self)@ == old(self)@.write_line(W as nat, H as nat),
    {
        proof {
            use_type_invariant(&*self);
        }
        self.changed = true;
        match self.mode {
            MenuMode::HistoryMode => {
                let mut waiting: VecDeque<String> = VecDeque::new();
                std::mem::swap(&mut waiting, &mut self.scroll_line_buffer);
                let popped = waiting.pop_front();
                self.scroll_line_buffer = waiting;
                if let Some(next_line) = popped {
                    let next_line = pad_line(next_line.as_str(), W);
                    if self.write_line_cursor == H {
                        let mut new_lines: Vec<Vec<char>> = Vec::new();
                        let mut i: usize = 1;
                        while i < H
                            invariant
                                1 <= i <= H,
                                self@.well_formed(W as nat, H as nat),
                                new_lines.len() == i - 1,
                                forall|k: int|
                                    0 <= k < i - 1 ==> (#[trigger] new_lines@[k])@
                                        == self@.lines[k + 1],
                            decreases H - i,
                        {
                            new_lines.push(vstd::slice::slice_to_vec(self.lines[i].as_slice()));
                            i += 1;
                        }
                        new_lines.push(next_line);
                        assert(new_lines@.map_values(|l: Vec<char>| l@) =~= self@.lines.drop_first().push(
                            padded(old(self)@.scroll[0], W as nat),
                        ));
                        self.lines = new_lines;
                    } else {
                        let cursor = self.write_line_cursor;
                        let mut new_lines: Vec<Vec<char>> = Vec::new();
                        let mut i: usize = 0;
                        while i < H
                            invariant
                                i <= H,
                                cursor < H,
                                self@.well_formed(W as nat, H as nat),
                                next_line@ == padded(old(self)@.scroll[0], W as nat),
                                new_lines.len() == i,
                                forall|k: int|
                                    0 <= k < i ==> (#[trigger] new_lines@[k])@ == self@.lines.update(
                                        cursor as int,
                                        next_line@,
                                    )[k],
                            decreases H - i,
                        {
                            if i == cursor {
                                new_lines.push(vstd::slice::slice_to_vec(next_line.as_slice()));
                            } else {
                                new_lines.push(vstd::slice::slice_to_vec(self.lines[i].as_slice()));
                            }
                            i += 1;
                        }
                        assert(new_lines@.map_values(|l: Vec<char>| l@) =~= self@.lines.update(
                            cursor as int,
                            next_line@,
                        ));
                        self.lines = new_lines;
                        self.write_line_cursor += 1;
                    }
                    assert(self@.scroll =~= old(self)@.scroll.drop_first());
                    assert(self@.lines =~= old(self)@.write_line(W as nat, H as nat).lines);
                }
            },
            MenuMode::ContinuousOutputMode => {
                // Ruled out by the precondition.
                proof {
                    assert(false);
                }
            },
        }
    }

    /// The window lines, top first, at their positions below `top_left`.
    pub fn draw_lines(&self) -> (drawn: Vec<LineDrawing>)
        requires
            self@.lines_fit(H as nat),
        ensures
            self@.lines_drawn(drawn@, H as nat),
    {
        proof {
            use_type_invariant(self);
        }
        let mut drawn: Vec<LineDrawing> = Vec::new();
        let mut line_offset: i32 = 0;
        let mut i: usize = 0;
        while i < H
            invariant
                self@.well_formed(W as nat, H as nat),
                self@.lines_fit(H as nat),
                i <= H,
                drawn.len() == i,
                line_offset as int == self@.line_offset(i as int),
                forall|k: int|
                    0 <= k < i ==> {
                        &&& (#[trigger] drawn@[k]).text@ == self@.lines[k]
                        &&& drawn@[k].x == self@.top_left.x
                        &&& drawn@[k].y == self@.line_y(k)
                        &&& drawn@[k].color == self@.theme.cyan
                    },
            decreases H - i,
        {
            let text = vstd::slice::slice_to_vec(self.lines[i].as_slice());
            assert(self@.line_y(i as int) == self@.top_left.y + line_offset);
            drawn.push(
                LineDrawing {
                    text,
                    x: self.top_left.x,
                    y: self.top_left.y + line_offset,
                    color: self.theme.cyan,
                },
            );
            let step = self.font_height as i32 + 3;
            proof {
                let st = self@.line_step();
                assert((i + 1) * st == i * st + st) by (nonlinear_arith);
                assert(self@.line_offset(i + 1) == self@.line_offset(i as int) + st);
            }
            line_offset += step;
            i += 1;
        }
        drawn
    }

    /// The query that shows the selected entry, if there is one.
    pub fn draw_selection_query(&self) -> (drawn: Option<QueryDrawing>)
        requires
            self@.query_fits(),
        ensures
            self@.query_drawn(drawn),
            self@.selected matches Some(sel) ==> {
                let label = self@.labels[sel as int]@;
                &&& drawn is Some
                &&& drawn->0.text@.len() == label.len() + 4
                &&& forall|i: int|
                    0 <= i < label.len() ==> #[trigger] drawn->0.text@[i + 2] == label[i]
            },
    {
        if let Some(sel) = self.selected {
            let label = self.menu_label(sel);
            let mut query = String::from_str("? ");
            query.append(label);
            query.append(" ?");
            proof {
                reveal_strlit("? ");
                reveal_strlit(" ?");
                assert(query@ =~= query_text(label@));
                lemma_encode_utf8_concat(seq!['?', ' '], label@);
                lemma_encode_utf8_concat(seq!['?', ' '] + label@, seq![' ', '?']);
                assert(encode_utf8(seq!['?', ' ']).len() == 2) by {
                    reveal_with_fuel(encode_utf8, 3);
                }
                assert(encode_utf8(seq![' ', '?']).len() == 2) by {
                    reveal_with_fuel(encode_utf8, 3);
                }
            }
            let width = query.as_str().len() * 8;
            let position_x = ((130 - width) / 2) as i32;
            let theme = self.theme;
            Some(
                QueryDrawing {
                    text: query,
                    x: position_x,
                    y: 240 - 27,
                    color: theme.green,
                    underline_color: theme.red,
                    background_color: rgb565_storage(0, 0, 0),
                },
            )
        } else {
            None
        }
    }

    /// Draws the button row when it changed. A pressed button is drawn
    /// pressed once and released, and the row is drawn again in the next
    /// frame so that it appears released.
    pub fn draw_buttons(&mut self) -> (drawn: Option<ButtonsDrawing>)
        requires
            old(self)@.buttons_fit(),
        ensures
            final(self)@ == old(self)@.after_buttons(),
            !old(self)@.btn_changed ==> drawn is None,
            old(self)@.btn_changed ==> drawn is Some && old(self)@.buttons_drawn(drawn->0),
            old(self)@.btn_changed && old(self)@.mode == MenuMode::HistoryMode ==> (
            drawn->0 matches ButtonsDrawing::Pair { left, .. } && left.frame.width == ((
            old(self)@.l_label.len() as u32) * 9) as u32 && left.label.text == old(self)@.l_label),
    {
        proof {
            use_type_invariant(&*self);
        }
        if !self.btn_changed {
            return None;
        }
        self.btn_changed = false;
        match self.mode {
            MenuMode::HistoryMode => {
                let highlight = self.btn_highlight;
                self.btn_highlight = None;
                let mut l_pressed = false;
                let mut r_pressed = false;
                if let Some(h) = highlight {
                    // The pressed look lasts one frame: draw the row again next time.
                    self.btn_changed = true;
                    match h {
                        ButtonHighlight::L => l_pressed = true,
                        ButtonHighlight::R => r_pressed = true,
                    }
                }
                let left = ButtonDrawing {
                    frame: draw_button_frame(
                        -2,
                        #[verifier::truncate] (self.l_btn_label.len() as u32) * 9,
                        l_pressed,
                    ),
                    label: LabelDrawing {
                        text: self.l_btn_label,
                        x: 0,
                        y: 240 - (8 / 2),
                        color: self.theme.yellow,
                    },
                };
                let cur = self.current.unwrap();
                let right = if self.get_submenus(cur).len() > 1 {
                    let r_len = self.r_btn_label.len();
                    Some(
                        ButtonDrawing {
                            frame: draw_button_frame(
                                135 - (#[verifier::truncate] (r_len as i32) * 10),
                                #[verifier::truncate] (r_len as u32) * 12,
                                r_pressed,
                            ),
                            label: LabelDrawing {
                                text: self.r_btn_label,
                                x: 135 - (#[verifier::truncate] (r_len as i32) * 9),
                                y: 240 - (8 / 2),
                                color: self.theme.yellow,
                            },
                        },
                    )
                } else {
                    None
                };
                Some(ButtonsDrawing::Pair { left, right })
            },
            MenuMode::ContinuousOutputMode => {
                let text = "cancel";
                proof {
                    reveal_strlit("cancel");
                    assert(text@ =~= seq!['c', 'a', 'n', 'c', 'e', 'l']);
                }
                Some(
                    ButtonsDrawing::Cancel(
                        LabelDrawing { text, x: 0, y: 240 - 14, color: self.theme.magenta },
                    ),
                )
            },
        }
    }

    /// Draws a frame: the button row when it changed, then, when the menu
    /// changed, the next line of the text window and the whole window with
    /// the query for the selected entry.
    pub fn draw(&mut self) -> (frame: Frame)
        requires
            old(self)@.can_draw(H as nat),
        ensures
            final(self)@ == old(self)@.after_draw(W as nat, H as nat),
            !old(self)@.btn_changed ==> frame.buttons is None,
            old(self)@.btn_changed ==> frame.buttons is Some && old(self)@.buttons_drawn(
                frame.buttons->0,
            ),
            frame.content is Some <==> old(self)@.changed,
            frame.content matches Some(c) ==> {
                &&& final(self)@.lines_drawn(c.lines@, H as nat)
                &&& final(self)@.query_drawn(c.query)
            },
    {
        proof {
            use_type_invariant(&*self);
        }
        let buttons = self.draw_buttons();
        if !self.changed {
            return Frame { buttons, content: None };
        }
        self.changed = false;
        match self.mode {
            MenuMode::HistoryMode => {
                if self.write_line_cursor == 0 {
                    self.render_to_scroll_buffer();
                }
            },
            MenuMode::ContinuousOutputMode => {},
        }
        self.render_to_line_buffer();
        proof {
            lemma_lines_fit_same_geometry(old(self)@, self@, H as nat);
        }
        let lines = self.draw_lines();
        let query = self.draw_selection_query();
        Frame { buttons, content: Some(ContentDrawing { lines, query }) }
    }

    /// Whether another menu can be added: the ids are not used up.
    pub fn can_add_menu(&self) -> (ok: bool)
        ensures
            ok == (self@.count < usize::MAX),
    {
        self.menu_labels.len() < usize::MAX
    }

    /// Whether `select` can be called: the selected entry is a menu with
    /// entries and carries no action.
    pub fn can_select(&self) -> (ok: bool)
        ensures
            ok == self@.can_select(),
    {
        match self.selected {
            Some(sel) => !self.menu_actions.contains_key(&sel) && self.can_enter(sel),
            None => false,
        }
    }

    /// Whether menu `id` has entries, so that it can become the current menu.
    pub fn can_enter(&self, id: MenuId) -> (ok: bool)
        ensures
            ok == self@.can_enter(id),
    {
        match self.menu_graph.get(&id) {
            Some(entries) => entries.len() > 0,
            None => false,
        }
    }

    /// Whether the cursor can move: the selected entry is an entry of the
    /// current menu.
    pub fn can_move_cursor(&self) -> (ok: bool)
        ensures
            ok == self@.can_move_cursor(),
    {
        let cur = match self.current {
            Some(cur) => cur,
            None => return false,
        };
        let sel = match self.selected {
            Some(sel) => sel,
            None => return false,
        };
        match self.menu_graph.get(&cur) {
            Some(entries) => {
                let mut i: usize = 0;
                while i < entries.len()
                    invariant
                        i <= entries.len(),
                        self.current == Some(cur),
                        self.selected == Some(sel),
                        self@.graph.contains_key(cur),
                        entries@ == self@.graph[cur],
                        forall|j: int| 0 <= j < i ==> entries@[j] != sel,
                    decreases entries.len() - i,
                {
                    if entries[i] == sel {
                        assert(entries@[i as int] == sel);
                        return true;
                    }
                    i += 1;
                }
                false
            },
            None => false,
        }
    }

    /// Whether `draw` can be called: the button row and, when the menu
    /// changed, the window and the query can be laid out.
    pub fn ready_to_draw(&self) -> (ok: bool)
        ensures
            ok == self@.can_draw(H as nat),
    {
        if !self.buttons_fit() {
            return false;
        }
        if !self.changed {
            return true;
        }
        match self.mode {
            MenuMode::HistoryMode => {},
            MenuMode::ContinuousOutputMode => return false,
        }
        H > 0 && self.scroll_ready() && self.lines_fit() && self.query_fits()
    }

    fn buttons_fit(&self) -> (ok: bool)
        ensures
            ok == self@.buttons_fit(),
    {
        if !self.btn_changed {
            return true;
        }
        match self.mode {
            MenuMode::HistoryMode => {},
            MenuMode::ContinuousOutputMode => return true,
        }
        let cur = match self.current {
            Some(cur) => cur,
            None => return false,
        };
        let entries = match self.menu_graph.get(&cur) {
            Some(entries) => entries,
            None => return false,
        };
        let l_width = #[verifier::truncate] (self.l_btn_label.len() as u32) as u64 * 9;
        if l_width > 0xffff_ffff {
            return false;
        }
        if entries.len() > 1 {
            let a = (#[verifier::truncate] (self.r_btn_label.len() as i32)) as i64;
            let r_width = #[verifier::truncate] (self.r_btn_label.len() as u32) as u64 * 12;
            let min = i32::MIN as i64;
            let max = i32::MAX as i64;
            min <= a * 10 && a * 10 <= max && min <= 135 - a * 10 && 135 - a * 10 <= max && min
                <= a * 9 && a * 9 <= max && min <= 135 - a * 9 && 135 - a * 9 <= max && r_width
                <= 0xffff_ffff
        } else {
            true
        }
    }

    fn scroll_ready(&self) -> (ok: bool)
        ensures
            ok == self@.scroll_ready(),
    {
        proof {
            use_type_invariant(self);
        }
        if self.write_line_cursor != 0 {
            return true;
        }
        let cur = match self.current {
            Some(cur) => cur,
            None => return false,
        };
        if cur >= self.menu_labels.len() {
            return false;
        }
        let entries = match self.menu_graph.get(&cur) {
            Some(entries) => entries,
            None => return false,
        };
        let mut i: usize = 0;
        while i < entries.len()
            invariant
                i <= entries.len(),
                self.write_line_cursor == 0,
                self.current == Some(cur),
                cur < self.menu_labels.len(),
                entries@ == self@.graph[cur],
                forall|j: int| 0 <= j < i ==> entries@[j] < self.menu_labels.len(),
            decreases entries.len() - i,
        {
            if entries[i] >= self.menu_labels.len() {
                assert(self@.graph[cur][i as int] >= self@.count);
                return false;
            }
            i += 1;
        }
        true
    }

    fn lines_fit(&self) -> (ok: bool)
        ensures
            ok == self@.lines_fit(H as nat),
    {
        if H == 0 {
            return true;
        }
        let step = (#[verifier::truncate] (self.font_height as i32)) as i64 + 3;
        let min = i32::MIN as i64;
        let max = i32::MAX as i64;
        if step > max {
            return false;
        }
        let y = self.top_left.y as i64;
        // offset == i * step, checked to stay in range before it grows further
        let mut offset: i64 = 0;
        let mut i: usize = 0;
        while i < H
            invariant
                i <= H,
                H > 0,
                step == self@.line_step(),
                step <= max,
                min == i32::MIN,
                max == i32::MAX,
                y == self@.top_left.y,
                offset == self@.line_offset(i as int),
                min <= offset <= max,
                forall|j: int| 1 <= j <= i ==> min <= #[trigger] self@.line_offset(j) <= max,
                forall|j: int| 0 <= j < i ==> min <= #[trigger] self@.line_y(j) <= max,
            decreases H - i,
        {
            if y + offset < min || y + offset > max {
                assert(self@.line_y(i as int) == y + offset);
                return false;
            }
            proof {
                assert((i + 1) * step == i * step + step) by (nonlinear_arith);
            }
            let next = offset + step;
            assert(self@.line_offset(i + 1) == next);
            if next < min || next > max {
                return false;
            }
            offset = next;
            i += 1;
        }
        true
    }

    fn query_fits(&self) -> (ok: bool)
        ensures
            ok == self@.query_fits(),
    {
        match self.selected {
            Some(sel) => sel < self.menu_labels.len() && self.menu_label(sel).as_bytes().len() <= 12,
            None => true,
        }
    }
}

/// A button frame on the button row; see `button_frame`.
fn draw_button_frame(x: i32, width: u32, pressed: bool) -> (frame: RectDrawing)
    ensures
        frame == button_frame(x, width, pressed),
{
    let theme = Theme::default();
    if pressed {
        RectDrawing {
            x,
            y: 240 - 17,
            width,
            height: 23,
            stroke_color: theme.red,
            fill_color: theme.magenta,
            stroke_width: 4,
        }
    } else {
        RectDrawing {
            x,
            y: 240 - 17,
            width,
            height: 23,
            stroke_color: theme.cyan,
            fill_color: rgb565_storage(0, 0, 0),
            stroke_width: 2,
        }
    }
}

/// Index of the first occurrence of `x` in `entries`.
fn position_of(entries: &Vec<MenuId>, x: MenuId) -> (i: usize)
    requires
        entries@.contains(x),
    ensures
        i as int == first_index(entries@, x),
        i < entries.len(),
{
    let mut i: usize = 0;
    while i < entries.len()
        invariant
            i <= entries.len(),
            entries@.contains(x),
            forall|j: int| 0 <= j < i ==> entries@[j] != x,
        decreases entries.len() - i,
    {
        if entries[i] == x {
            proof {
                lemma_first_index(entries@, x, i as int);
            }
            return i;
        }
        i += 1;
    }
    proof {
        let k = choose|k: int| 0 <= k < entries@.len() && entries@[k] == x;
        assert(entries@[k] == x);
    }
    0
}

} // verus!
