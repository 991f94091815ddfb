//! The abstract state of a menu and the transition each operation makes.

use crate::color::spec_black;
use crate::color::Theme;
use crate::drawing::ButtonDrawing;
use crate::drawing::ButtonsDrawing;
use crate::drawing::LabelDrawing;
use crate::drawing::LineDrawing;
use crate::drawing::Position;
use crate::drawing::QueryDrawing;
use crate::drawing::RectDrawing;
use crate::text::padded;
use vstd::prelude::*;
use vstd::string::StringSliceAdditionalSpecFns;

verus! {

/// Menus and menu entries are numbered from zero in creation order.
pub type MenuId = usize;

/// How the text window behaves.
#[derive(Clone, Copy, Debug, PartialEq, Eq, Structural)]
pub enum MenuMode {
    /// Like a scrolling terminal window.
    HistoryMode,
    /// A periodically updated message fixed in place, with a cancel button.
    ContinuousOutputMode,
}

/// The button shown pressed in the next frame.
#[derive(Clone, Copy, Debug, PartialEq, Eq, Structural)]
pub enum ButtonHighlight {
    L,
    R,
}

/// What selecting a menu entry does, for entries that are actions rather than
/// menus.
#[derive(Clone, Copy, Debug, PartialEq, Eq, Structural)]
pub enum MenuAction {
    Back,
}

/// The abstract value of a `Menu`.
pub struct MenuState {
    /// The text window and query have to be redrawn.
    pub changed: bool,
    /// The button row has to be redrawn.
    pub btn_changed: bool,
    pub theme: Theme,
    pub mode: MenuMode,
    /// Where the first line of the text window starts.
    pub top_left: Position,
    /// Height in pixels of one character of the menu font.
    pub font_height: u32,
    /// The lines of the text window, top first.
    pub lines: Seq<Seq<char>>,
    /// Lines waiting to be written into the text window, next first.
    pub scroll: Seq<Seq<char>>,
    /// The window line that the next line goes to; the window scrolls once
    /// it equals the number of lines.
    pub cursor: nat,
    pub current: Option<MenuId>,
    pub selected: Option<MenuId>,
    /// Number of menus created so far.
    pub count: nat,
    /// Label of each menu, by id.
    pub labels: Seq<&'static str>,
    /// The action of each entry that has one.
    pub actions: Map<MenuId, MenuAction>,
    /// The entries of each menu, in display order.
    pub graph: Map<MenuId, Seq<MenuId>>,
    pub l_label: &'static str,
    pub r_label: &'static str,
    pub highlight: Option<ButtonHighlight>,
}

/// Byte length of a string's UTF-8 encoding.
pub open spec fn byte_len(s: &str) -> nat {
    s.spec_bytes().len()
}

/// Index of the first occurrence of `x` in `s`, or -1.
pub open spec fn first_index(s: Seq<MenuId>, x: MenuId) -> int
    decreases s.len(),
{
    if s.len() == 0 {
        -1
    } else if s.last() == x && first_index(s.drop_last(), x) == -1 {
        s.len() - 1
    } else {
        first_index(s.drop_last(), x)
    }
}

/// The entry after `x` in `entries`, wrapping around to the first entry.
pub open spec fn next_in_cycle(entries: Seq<MenuId>, x: MenuId) -> MenuId {
    entries[(first_index(entries, x) + 1) % (entries.len() as int)]
}

/// The text of the query that shows a selected entry.
pub open spec fn query_text(label: Seq<char>) -> Seq<char> {
    seq!['?', ' '] + label + seq![' ', '?']
}

/// Horizontal position of the query for an entry label of `label_bytes` bytes:
/// the query, eight pixels per byte, centred in 130 pixels.
pub open spec fn query_x(label_bytes: nat) -> int {
    (130 - 8 * (label_bytes + 4)) / 2
}

impl MenuState {
    /// Invariant of every menu with a window of `h` lines of `w` characters:
    /// the window has its size, the cursor is inside it, every menu has a
    /// label, and the colours are those of the default theme.
    pub open spec fn well_formed(self, w: nat, h: nat) -> bool {
        &&& self.theme == Theme::spec_default()
        &&& self.lines.len() == h
        &&& forall|i: int| 0 <= i < h ==> (#[trigger] self.lines[i]).len() == w
        &&& self.cursor <= h
        &&& self.labels.len() == self.count
    }

    /// The menu right after construction.
    pub open spec fn initial(
        top_left: Position,
        l_label: &'static str,
        r_label: &'static str,
        font_height: u32,
        w: nat,
        h: nat,
    ) -> MenuState {
        MenuState {
            changed: true,
            btn_changed: true,
            theme: Theme::spec_default(),
            mode: MenuMode::HistoryMode,
            top_left,
            font_height,
            lines: Seq::new(h, |i: int| Seq::new(w, |j: int| ' ')),
            scroll: Seq::empty(),
            cursor: 0,
            current: None,
            selected: None,
            count: 0,
            labels: Seq::empty(),
            actions: Map::empty(),
            graph: Map::empty(),
            l_label,
            r_label,
            highlight: None,
        }
    }

    /// A button press: the button row is redrawn with that button pressed.
    pub open spec fn click(self, button: ButtonHighlight) -> MenuState {
        MenuState { btn_changed: true, highlight: Some(button), ..self }
    }

    /// A new menu with the next id and the given label.
    pub open spec fn add_menu(self, label: &'static str) -> MenuState {
        MenuState {
            changed: true,
            labels: self.labels.push(label),
            count: self.count + 1,
            ..self
        }
    }

    /// A new menu entry that carries an action.
    pub open spec fn add_menu_item(self, label: &'static str, action: MenuAction) -> MenuState {
        MenuState { actions: self.actions.insert(self.count as MenuId, action), ..self.add_menu(label) }
    }

    pub open spec fn select_item(self, id: MenuId) -> MenuState {
        MenuState { changed: true, selected: Some(id), ..self }
    }

    pub open spec fn with_submenus(self, id: MenuId, entries: Seq<MenuId>) -> MenuState {
        MenuState { changed: true, graph: self.graph.insert(id, entries), ..self }
    }

    /// `id` can become the current menu: it has at least one entry.
    pub open spec fn can_enter(self, id: MenuId) -> bool {
        self.graph.contains_key(id) && self.graph[id].len() > 0
    }

    /// `id` becomes the current menu, its first entry the selected one.
    pub open spec fn enter(self, id: MenuId) -> MenuState {
        MenuState { current: Some(id), ..self.select_item(self.graph[id][0]) }
    }

    /// The selected entry can be selected: it is a menu with entries and
    /// carries no action.
    pub open spec fn can_select(self) -> bool {
        &&& self.selected is Some
        &&& !self.actions.contains_key(self.selected->0)
        &&& self.can_enter(self.selected->0)
    }

    pub open spec fn select(self) -> MenuState {
        self.enter(self.selected->0)
    }

    /// The cursor can move: the current menu has entries and the selected
    /// entry is one of them.
    pub open spec fn can_move_cursor(self) -> bool {
        &&& self.current is Some
        &&& self.graph.contains_key(self.current->0)
        &&& self.selected is Some
        &&& self.graph[self.current->0].contains(self.selected->0)
    }

    /// The selection moves to the next entry of the current menu, after the
    /// last entry back to the first.
    pub open spec fn move_cursor(self) -> MenuState {
        self.select_item(next_in_cycle(self.graph[self.current->0], self.selected->0))
    }
}


/// `x` occurs in `s` at `i` and nowhere before.
pub open spec fn is_first_index(s: Seq<MenuId>, x: MenuId, i: int) -> bool {
    &&& 0 <= i < s.len()
    &&& s[i] == x
    &&& forall|j: int| 0 <= j < i ==> s[j] != x
}

/// A button frame at `x` on the button row, `width` pixels wide; a pressed
/// button has a thicker red outline and a magenta fill.
pub open spec fn button_frame(x: i32, width: u32, pressed: bool) -> RectDrawing {
    RectDrawing {
        x,
        y: 223,
        width,
        height: 23,
        stroke_color: if pressed {
            Theme::spec_default().red
        } else {
            Theme::spec_default().cyan
        },
        fill_color: if pressed {
            Theme::spec_default().magenta
        } else {
            spec_black()
        },
        stroke_width: if pressed {
            4
        } else {
            2
        },
    }
}

impl MenuState {
    /// The scroll buffer can be refilled: when the window is still empty, the
    /// current menu and all its entries have labels.
    pub open spec fn scroll_ready(self) -> bool {
        self.cursor == 0 ==> {
            &&& self.current is Some
            &&& self.current->0 < self.count
            &&& self.graph.contains_key(self.current->0)
            &&& forall|i: int|
                0 <= i < self.graph[self.current->0].len() ==> #[trigger] self.graph[self.current->0][i]
                    < self.count
        }
    }

    /// While the window is still empty, the scroll buffer is refilled with the
    /// label of the current menu followed by the labels of its entries.
    pub open spec fn fill_scroll(self) -> MenuState {
        if self.cursor == 0 {
            let cur = self.current->0;
            MenuState {
                scroll: seq![self.labels[cur as int]@] + self.graph[cur].map_values(
                    |id: MenuId| self.labels[id as int]@,
                ),
                ..self
            }
        } else {
            self
        }
    }

    /// The next waiting line, cut or padded to `w` characters, goes to the
    /// cursor line; once all `h` lines are written, the window scrolls up by
    /// one line and the new line goes to the bottom.
    pub open spec fn write_line(self, w: nat, h: nat) -> MenuState {
        if self.scroll.len() == 0 {
            MenuState { changed: true, ..self }
        } else {
            let line = padded(self.scroll[0], w);
            if self.cursor == h {
                MenuState {
                    changed: true,
                    scroll: self.scroll.drop_first(),
                    lines: self.lines.drop_first().push(line),
                    ..self
                }
            } else {
                MenuState {
                    changed: true,
                    scroll: self.scroll.drop_first(),
                    lines: self.lines.update(self.cursor as int, line),
                    cursor: self.cursor + 1,
                    ..self
                }
            }
        }
    }

    /// Vertical distance between two window lines.
    pub open spec fn line_step(self) -> int {
        (self.font_height as i32) as int + 3
    }

    /// Offset of window line `i` from the first one.
    pub open spec fn line_offset(self, i: int) -> int {
        i * self.line_step()
    }

    /// Baseline of window line `i`.
    pub open spec fn line_y(self, i: int) -> int {
        self.top_left.y + self.line_offset(i)
    }

    /// The positions of the `h` window lines, and the offset after the last
    /// one, fit in `i32`.
    pub open spec fn lines_fit(self, h: nat) -> bool {
        h > 0 ==> {
            &&& self.line_step() <= i32::MAX
            &&& forall|i: int|
                1 <= i <= h ==> i32::MIN <= #[trigger] self.line_offset(i) <= i32::MAX
            &&& forall|i: int| 0 <= i < h ==> i32::MIN <= #[trigger] self.line_y(i) <= i32::MAX
        }
    }

    /// The query for the selected entry, if any, fits in 130 pixels.
    pub open spec fn query_fits(self) -> bool {
        self.selected matches Some(sel) ==> {
            &&& sel < self.count
            &&& 8 * (byte_len(self.labels[sel as int]) + 4) <= 130
        }
    }

    /// The button row can be drawn: the current menu has entries, and the
    /// button geometry computed from the label lengths does not overflow.
    pub open spec fn buttons_fit(self) -> bool {
        (self.btn_changed && self.mode == MenuMode::HistoryMode) ==> {
            &&& self.current is Some
            &&& self.graph.contains_key(self.current->0)
            &&& (self.l_label.len() as u32) * 9 <= u32::MAX
            &&& self.graph[self.current->0].len() > 1 ==> {
                let a = (self.r_label.len() as i32) as int;
                &&& i32::MIN <= a * 10 <= i32::MAX
                &&& i32::MIN <= 135 - a * 10 <= i32::MAX
                &&& i32::MIN <= a * 9 <= i32::MAX
                &&& i32::MIN <= 135 - a * 9 <= i32::MAX
                &&& (self.r_label.len() as u32) * 12 <= u32::MAX
            }
        }
    }

    /// The button row of this state as it is drawn.
    pub open spec fn buttons_drawn(self, d: ButtonsDrawing) -> bool {
        match self.mode {
            MenuMode::HistoryMode => {
                let left = ButtonDrawing {
                    frame: button_frame(
                        -2i32,
                        ((self.l_label.len() as u32) * 9) as u32,
                        self.highlight == Some(ButtonHighlight::L),
                    ),
                    label: LabelDrawing {
                        text: self.l_label,
                        x: 0,
                        y: 236,
                        color: self.theme.yellow,
                    },
                };
                let a = (self.r_label.len() as i32) as int;
                let right = if self.graph[self.current->0].len() > 1 {
                    Some(
                        ButtonDrawing {
                            frame: button_frame(
                                (135 - a * 10) as i32,
                                ((self.r_label.len() as u32) * 12) as u32,
                                self.highlight == Some(ButtonHighlight::R),
                            ),
                            label: LabelDrawing {
                                text: self.r_label,
                                x: (135 - a * 9) as i32,
                                y: 236,
                                color: self.theme.yellow,
                            },
                        },
                    )
                } else {
                    None
                };
                d == ButtonsDrawing::Pair { left, right }
            },
            MenuMode::ContinuousOutputMode => {
                &&& d matches ButtonsDrawing::Cancel(l)
                &&& l.text@ == seq!['c', 'a', 'n', 'c', 'e', 'l']
                &&& l.x == 0
                &&& l.y == 226
                &&& l.color == self.theme.magenta
            },
        }
    }

    /// After the button row is drawn: a pressed button is released and drawn
    /// once more in the next frame.
    pub open spec fn after_buttons(self) -> MenuState {
        if !self.btn_changed {
            self
        } else {
            match self.mode {
                MenuMode::HistoryMode => MenuState {
                    btn_changed: self.highlight is Some,
                    highlight: None,
                    ..self
                },
                MenuMode::ContinuousOutputMode => MenuState { btn_changed: false, ..self },
            }
        }
    }

    /// A frame can be drawn in a window of `h` lines.
    pub open spec fn can_draw(self, h: nat) -> bool {
        &&& self.buttons_fit()
        &&& self.changed ==> {
            &&& self.mode == MenuMode::HistoryMode
            &&& h > 0
            &&& self.scroll_ready()
            &&& self.lines_fit(h)
            &&& self.query_fits()
        }
    }

    /// The state after drawing a frame in a window of `h` lines of `w`
    /// characters.
    pub open spec fn after_draw(self, w: nat, h: nat) -> MenuState {
        let s1 = self.after_buttons();
        if !s1.changed {
            s1
        } else {
            MenuState { changed: false, ..s1 }.fill_scroll().write_line(w, h)
        }
    }

    /// `ls` draws the `h` window lines of this state.
    pub open spec fn lines_drawn(self, ls: Seq<LineDrawing>, h: nat) -> bool {
        &&& ls.len() == h
        &&& forall|i: int|
            0 <= i < h ==> {
                &&& (#[trigger] ls[i]).text@ == self.lines[i]
                &&& ls[i].x == self.top_left.x
                &&& ls[i].y == self.line_y(i)
                &&& ls[i].color == self.theme.cyan
            }
    }

    /// `q` draws the query of this state: none without a selection, else the
    /// label of the selected entry between question marks, centred.
    pub open spec fn query_drawn(self, q: Option<QueryDrawing>) -> bool {
        match self.selected {
            None => q is None,
            Some(sel) => {
                &&& q is Some
                &&& q->0.text@ == query_text(self.labels[sel as int]@)
                &&& q->0.x == query_x(byte_len(self.labels[sel as int]))
                &&& q->0.y == 213
                &&& q->0.color == self.theme.green
                &&& q->0.underline_color == self.theme.red
                &&& q->0.background_color == spec_black()
            },
        }
    }
}


/// `first_index` finds the first occurrence.
pub proof fn lemma_first_index(s: Seq<MenuId>, x: MenuId, i: int)
    requires
        is_first_index(s, x, i),
    ensures
        first_index(s, x) == i,
    decreases s.len(),
{
    if s.len() == i + 1 {
        lemma_first_index_absent(s.drop_last(), x);
    } else {
        lemma_first_index(s.drop_last(), x, i);
    }
}

/// Without an occurrence, `first_index` is -1.
pub proof fn lemma_first_index_absent(s: Seq<MenuId>, x: MenuId)
    requires
        forall|j: int| 0 <= j < s.len() ==> s[j] != x,
    ensures
        first_index(s, x) == -1,
    decreases s.len(),
{
    if s.len() > 0 {
        lemma_first_index_absent(s.drop_last(), x);
    }
}


/// Whether the window lines fit depends only on the window's position and the
/// font.
pub proof fn lemma_lines_fit_same_geometry(a: MenuState, b: MenuState, h: nat)
    requires
        a.lines_fit(h),
        a.top_left == b.top_left,
        a.font_height == b.font_height,
    ensures
        b.lines_fit(h),
{
    assert forall|i: int| 1 <= i <= h implies i32::MIN <= #[trigger] b.line_offset(i) <= i32::MAX by {
        assert(a.line_offset(i) == b.line_offset(i));
    }
    assert forall|i: int| 0 <= i < h implies i32::MIN <= #[trigger] b.line_y(i) <= i32::MAX by {
        assert(a.line_y(i) == b.line_y(i));
    }
}

} // verus!
