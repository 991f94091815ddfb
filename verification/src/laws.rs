//! Properties of the menu that span several operations.

use crate::color::spec_black;
use crate::color::Theme;
use crate::controls::left_press_effect;
use crate::controls::ScreenEffect;
use crate::drawing::ButtonsDrawing;
use crate::drawing::LineDrawing;
use crate::drawing::QueryDrawing;
use crate::state::ButtonHighlight;
use crate::state::byte_len;
use crate::state::MenuAction;
use crate::state::MenuId;
use crate::state::MenuMode;
use crate::state::MenuState;
use crate::state::first_index;
use crate::state::is_first_index;
use crate::state::lemma_first_index;
use crate::state::next_in_cycle;
use crate::text::padded;
use vstd::arithmetic::div_mod::lemma_add_mod_noop_right;
use vstd::arithmetic::div_mod::lemma_mod_self_0;
use vstd::arithmetic::div_mod::lemma_small_mod;
use vstd::prelude::*;

verus! {

/// The state after the cursor moved `k` times.
pub open spec fn move_cursor_times(s: MenuState, k: nat) -> MenuState
    decreases k,
{
    if k == 0 {
        s
    } else {
        move_cursor_times(s, (k - 1) as nat).move_cursor()
    }
}

/// Moving the cursor `k` times: when the entries of the current menu are
/// distinct, moving the cursor `k` times from the entry at position `p`
/// selects the entry at position `(p + k) mod n`, `n` being the number of
/// entries. The current menu and all menu entries stay as they were.
pub proof fn law_cursor_moves(s: MenuState, k: nat)
    requires
        s.can_move_cursor(),
        s.graph[s.current->0].no_duplicates(),
    ensures
        ({
            let entries = s.graph[s.current->0];
            let p = first_index(entries, s.selected->0);
            let t = move_cursor_times(s, k);
            &&& t.can_move_cursor()
            &&& t.current == s.current
            &&& t.graph == s.graph
            &&& t.selected == Some(entries[(p + k) % (entries.len() as int)])
        }),
    decreases k,
{
    let entries = s.graph[s.current->0];
    let n = entries.len() as int;
    let sel = s.selected->0;
    let j = choose|j: int| 0 <= j < n && entries[j] == sel;
    assert(is_first_index(entries, sel, j));
    lemma_first_index(entries, sel, j);
    let p = first_index(entries, sel);
    if k == 0 {
        lemma_small_mod(p as nat, n as nat);
    } else {
        law_cursor_moves(s, (k - 1) as nat);
        let prev = move_cursor_times(s, (k - 1) as nat);
        let q = (p + k - 1) % n;
        assert(is_first_index(entries, entries[q], q));
        lemma_first_index(entries, entries[q], q);
        lemma_add_mod_noop_right(1, p + k - 1, n);
        assert((1 + q) % n == (p + k) % n);
        assert(prev.move_cursor().selected == Some(next_in_cycle(entries, entries[q])));
        let t = move_cursor_times(s, k);
        assert(t.graph[t.current->0].contains(t.selected->0));
    }
}

/// Cycling through a menu: when the entries of the current menu are
/// distinct, moving the cursor once per entry brings the selection back to
/// where it started, and no smaller positive number of moves does; so one
/// cycle visits every entry exactly once.
pub proof fn law_cursor_cycles(s: MenuState)
    requires
        s.can_move_cursor(),
        s.graph[s.current->0].no_duplicates(),
    ensures
        move_cursor_times(s, s.graph[s.current->0].len()).selected == s.selected,
        forall|k: nat|
            0 < k < s.graph[s.current->0].len() ==> #[trigger] move_cursor_times(s, k).selected
                != s.selected,
{
    let entries = s.graph[s.current->0];
    let n = entries.len() as int;
    let sel = s.selected->0;
    let j = choose|j: int| 0 <= j < n && entries[j] == sel;
    assert(is_first_index(entries, sel, j));
    lemma_first_index(entries, sel, j);
    law_cursor_moves(s, entries.len());
    lemma_add_mod_noop_right(j, n, n);
    lemma_mod_self_0(n);
    lemma_small_mod(j as nat, n as nat);
    assert((j + n) % n == j);
    assert forall|k: nat| 0 < k < n implies #[trigger] move_cursor_times(s, k).selected
        != s.selected by {
        law_cursor_moves(s, k);
        let q = (j + k) % n;
        if j + k < n {
            lemma_small_mod((j + k) as nat, n as nat);
        } else {
            lemma_add_mod_noop_right(j + k - n, n, n);
            lemma_small_mod((j + k - n) as nat, n as nat);
            assert(q == j + k - n);
        }
        assert(q != j);
        assert(entries[q] != entries[j]);
    }
}


/// The state after `n` waiting lines were written into a window of `h` lines
/// of `w` characters.
pub open spec fn write_lines(s: MenuState, w: nat, h: nat, n: nat) -> MenuState
    decreases n,
{
    if n == 0 {
        s
    } else {
        write_lines(s, w, h, (n - 1) as nat).write_line(w, h)
    }
}

/// Everything written into the window so far, followed by the next `n`
/// waiting lines cut or padded to `w` characters.
pub open spec fn written_and_next(s: MenuState, w: nat, n: nat) -> Seq<Seq<char>> {
    s.lines.take(s.cursor as int) + s.scroll.take(n as int).map_values(|l: Seq<char>| padded(l, w))
}

/// The text window scrolls like a terminal: after `n` more waiting lines are
/// written, the written part of the window (the lines above the cursor) holds
/// the most recent lines, oldest first, as many as fit; the lines below the
/// cursor are untouched, and the `n` lines have left the scroll buffer.
pub proof fn law_window_scrolls(s: MenuState, w: nat, h: nat, n: nat)
    requires
        s.well_formed(w, h),
        h > 0,
        n <= s.scroll.len(),
    ensures
        ({
            let t = write_lines(s, w, h, n);
            let all = written_and_next(s, w, n);
            &&& t.well_formed(w, h)
            &&& t.cursor == if s.cursor + n < h { s.cursor + n } else { h }
            &&& t.lines.take(t.cursor as int) == all.skip(all.len() - t.cursor)
            &&& t.lines.skip(t.cursor as int) == s.lines.skip(t.cursor as int)
            &&& t.scroll == s.scroll.skip(n as int)
        }),
    decreases n,
{
    if n == 0 {
        let all = written_and_next(s, w, n);
        assert(s.scroll.take(0).map_values(|l: Seq<char>| padded(l, w)) =~= Seq::<Seq<char>>::empty());
        assert(all =~= s.lines.take(s.cursor as int));
        assert(all.skip(all.len() - s.cursor) =~= all);
        assert(s.scroll.skip(0) =~= s.scroll);
    } else {
        let m = (n - 1) as nat;
        law_window_scrolls(s, w, h, m);
        let prev = write_lines(s, w, h, m);
        let t = write_lines(s, w, h, n);
        let c = prev.cursor;
        let line = padded(s.scroll[m as int], w);
        let before = written_and_next(s, w, m);
        let all = written_and_next(s, w, n);
        assert(s.scroll.take(n as int) =~= s.scroll.take(m as int).push(s.scroll[m as int]));
        assert(s.scroll.take(n as int).map_values(|l: Seq<char>| padded(l, w)) =~= s.scroll.take(
            m as int,
        ).map_values(|l: Seq<char>| padded(l, w)).push(line));
        assert(all =~= before.push(line));
        assert(prev.scroll[0] == s.scroll[m as int]);
        assert(t.scroll =~= s.scroll.skip(n as int));
        if c == h {
            assert(prev.lines.take(h as int) =~= prev.lines);
            assert(t.lines =~= prev.lines.drop_first().push(line));
            assert(t.lines.take(h as int) =~= t.lines);
            assert(t.lines =~= all.skip(all.len() - h));
            assert(t.lines.skip(h as int) =~= s.lines.skip(h as int));
            assert forall|i: int| 0 <= i < h implies (#[trigger] t.lines[i]).len() == w by {
                if i < h - 1 {
                    assert(t.lines[i] == prev.lines[i + 1]);
                }
            }
        } else {
            assert(t.lines =~= prev.lines.update(c as int, line));
            assert(t.lines.take((c + 1) as int) =~= prev.lines.take(c as int).push(line));
            assert(all.skip(all.len() - (c + 1) as int) =~= before.skip(before.len() - c).push(line));
            assert(t.lines.skip((c + 1) as int) =~= prev.lines.skip((c + 1) as int));
            assert(prev.lines.skip((c + 1) as int) =~= prev.lines.skip(c as int).skip(1));
            assert(s.lines.skip((c + 1) as int) =~= s.lines.skip(c as int).skip(1));
            assert forall|i: int| 0 <= i < h implies (#[trigger] t.lines[i]).len() == w by {
                if i != c {
                    assert(t.lines[i] == prev.lines[i]);
                }
            }
        }
    }
}


/// The entries of a menu read back as they were set, in the same order, and
/// setting them leaves every other menu's entries alone.
pub proof fn law_submenus_read_back(s: MenuState, id: MenuId, entries: Seq<MenuId>, other: MenuId)
    ensures
        s.with_submenus(id, entries).graph.contains_key(id),
        s.with_submenus(id, entries).graph[id] == entries,
        other != id ==> s.with_submenus(id, entries).graph.contains_key(other)
            == s.graph.contains_key(other),
        other != id && s.graph.contains_key(other) ==> s.with_submenus(id, entries).graph[other]
            == s.graph[other],
{
}

/// A new menu gets the next id, which no earlier menu has, and its label
/// reads back; the labels of earlier menus are unchanged.
pub proof fn law_new_menu_label(s: MenuState, label: &'static str, w: nat, h: nat)
    requires
        s.well_formed(w, h),
    ensures
        s.add_menu(label).well_formed(w, h),
        s.add_menu(label).labels[s.count as int] == label,
        forall|i: int| 0 <= i < s.count ==> s.add_menu(label).labels[i] == s.labels[i],
        s.add_menu(label).count == s.count + 1,
{
}

/// A press is shown for exactly one frame: the next frame draws the button
/// row with the pressed button, the frame after that draws it released, and
/// then the row is not drawn again until something changes.
pub proof fn law_press_shows_once(s: MenuState, button: ButtonHighlight)
    requires
        s.mode == MenuMode::HistoryMode,
    ensures
        ({
            let pressed = s.click(button);
            let released = pressed.after_buttons();
            &&& pressed.btn_changed && pressed.highlight == Some(button)
            &&& released.btn_changed && released.highlight is None
            &&& !released.after_buttons().btn_changed
            &&& released.after_buttons().after_buttons() == released.after_buttons()
        }),
{
}

/// Pressing a button touches nothing but the button row.
pub proof fn law_press_keeps_menu(s: MenuState, button: ButtonHighlight, w: nat, h: nat)
    requires
        s.well_formed(w, h),
    ensures
        s.click(button).well_formed(w, h),
        s.click(button).lines == s.lines,
        s.click(button).current == s.current,
        s.click(button).selected == s.selected,
        s.click(button).changed == s.changed,
{
}

/// Entering a menu selects its first entry, and moving the cursor afterwards
/// selects its second entry (or the first again when it has only one).
pub proof fn law_enter_then_move(s: MenuState, id: MenuId)
    requires
        s.can_enter(id),
    ensures
        s.enter(id).selected == Some(s.graph[id][0]),
        s.enter(id).can_move_cursor(),
        s.enter(id).move_cursor().selected == Some(
            s.graph[id][if s.graph[id].len() > 1 { 1int } else { 0int }],
        ),
{
    let entries = s.graph[id];
    assert(is_first_index(entries, entries[0], 0));
    lemma_first_index(entries, entries[0], 0);
    assert(entries.contains(entries[0]));
    if entries.len() == 1 {
        assert(1int % 1int == 0);
    } else {
        lemma_small_mod(1, entries.len());
    }
}


/// The state after `n` frames were drawn in a window of `h` lines of `w`
/// characters.
pub open spec fn draw_times(s: MenuState, w: nat, h: nat, n: nat) -> MenuState
    decreases n,
{
    if n == 0 {
        s
    } else {
        draw_times(s, w, h, (n - 1) as nat).after_draw(w, h)
    }
}

/// The state in which the first frame writes its line: the button row drawn,
/// the scroll buffer filled with the menu listing.
pub open spec fn first_frame_ready(s: MenuState) -> MenuState {
    MenuState { changed: false, ..s.after_buttons() }.fill_scroll()
}

/// Drawing a frame after the first writes the next waiting line: the window
/// and the scroll buffer change as `write_line` changes them.
proof fn lemma_later_frame_writes(p: MenuState, q: MenuState, w: nat, h: nat)
    requires
        p.changed,
        p.mode == MenuMode::HistoryMode,
        p.cursor != 0,
        p.lines == q.lines,
        p.cursor == q.cursor,
        p.scroll == q.scroll,
    ensures
        p.after_draw(w, h).lines == q.write_line(w, h).lines,
        p.after_draw(w, h).cursor == q.write_line(w, h).cursor,
        p.after_draw(w, h).scroll == q.write_line(w, h).scroll,
        p.after_draw(w, h).changed,
        p.after_draw(w, h).mode == MenuMode::HistoryMode,
        p.after_draw(w, h).cursor != 0,
{
}

/// Frames after a menu is set up: starting from a freshly set-up menu whose
/// window is still empty, the first `n` frames (at most one more than the
/// entries of the current menu) write the title of the current menu and the
/// labels of its first `n - 1` entries, one per frame; the window shows the
/// most recent of them, as many as fit, each cut or padded to `w` characters.
pub proof fn law_frames_list_the_menu(s: MenuState, w: nat, h: nat, n: nat)
    requires
        s.well_formed(w, h),
        s.changed,
        s.mode == MenuMode::HistoryMode,
        s.cursor == 0,
        s.scroll_ready(),
        h > 0,
        1 <= n <= s.graph[s.current->0].len() + 1,
    ensures
        ({
            let listing = s.fill_scroll().scroll.take(n as int).map_values(
                |l: Seq<char>| padded(l, w),
            );
            let t = draw_times(s, w, h, n);
            let c: nat = if n < h { n } else { h };
            &&& t.cursor == c
            &&& t.lines.take(c as int) == listing.skip(n - c)
            &&& t.lines.skip(c as int) == s.lines.skip(c as int)
        }),
{
    let f = first_frame_ready(s);
    assert(f.scroll == s.fill_scroll().scroll);
    assert(f.scroll.len() == s.graph[s.current->0].len() + 1);
    lemma_draw_times_write_lines(s, w, h, n);
    law_window_scrolls(f, w, h, n);
    let all = written_and_next(f, w, n);
    assert(f.lines.take(0) =~= Seq::<Seq<char>>::empty());
    assert(all =~= f.scroll.take(n as int).map_values(|l: Seq<char>| padded(l, w)));
}

/// `n` frames from a freshly set-up menu write `n` lines from the filled
/// scroll buffer.
proof fn lemma_draw_times_write_lines(s: MenuState, w: nat, h: nat, n: nat)
    requires
        s.changed,
        s.mode == MenuMode::HistoryMode,
        s.cursor == 0,
        h > 0,
        n >= 1,
    ensures
        ({
            let t = draw_times(s, w, h, n);
            let u = write_lines(first_frame_ready(s), w, h, n);
            &&& t.lines == u.lines
            &&& t.cursor == u.cursor
            &&& t.scroll == u.scroll
            &&& t.changed
            &&& t.mode == MenuMode::HistoryMode
            &&& t.cursor != 0
        }),
    decreases n,
{
    if n > 1 {
        lemma_draw_times_write_lines(s, w, h, (n - 1) as nat);
        lemma_later_frame_writes(
            draw_times(s, w, h, (n - 1) as nat),
            write_lines(first_frame_ready(s), w, h, (n - 1) as nat),
            w,
            h,
        );
    } else {
        assert(draw_times(s, w, h, 0) == s);
        assert(write_lines(first_frame_ready(s), w, h, 0) == first_frame_ready(s));
    }
}


/// Every operation keeps the menu well formed: the window keeps `h` lines of
/// `w` characters, the cursor stays within the window, and every menu keeps
/// its label.
pub proof fn law_operations_keep_well_formed(
    s: MenuState,
    w: nat,
    h: nat,
    id: MenuId,
    entries: Seq<MenuId>,
    label: &'static str,
    action: MenuAction,
    button: ButtonHighlight,
)
    requires
        s.well_formed(w, h),
    ensures
        s.click(button).well_formed(w, h),
        s.add_menu(label).well_formed(w, h),
        s.add_menu_item(label, action).well_formed(w, h),
        s.select_item(id).well_formed(w, h),
        s.with_submenus(id, entries).well_formed(w, h),
        s.can_enter(id) ==> s.enter(id).well_formed(w, h),
        s.can_select() ==> s.select().well_formed(w, h),
        s.can_move_cursor() ==> s.move_cursor().well_formed(w, h),
        s.after_buttons().well_formed(w, h),
        s.fill_scroll().well_formed(w, h),
        h > 0 || s.scroll.len() == 0 ==> s.write_line(w, h).well_formed(w, h),
        s.can_draw(h) ==> s.after_draw(w, h).well_formed(w, h),
{
    if h > 0 || s.scroll.len() == 0 {
        lemma_write_line_keeps_well_formed(s, w, h);
    }
    if s.can_draw(h) {
        let s1 = s.after_buttons();
        if s1.changed {
            let s2 = MenuState { changed: false, ..s1 }.fill_scroll();
            lemma_write_line_keeps_well_formed(s2, w, h);
        }
    }
}

proof fn lemma_write_line_keeps_well_formed(s: MenuState, w: nat, h: nat)
    requires
        s.well_formed(w, h),
        h > 0 || s.scroll.len() == 0,
    ensures
        s.write_line(w, h).well_formed(w, h),
{
    let t = s.write_line(w, h);
    if s.scroll.len() > 0 {
        assert forall|i: int| 0 <= i < h implies (#[trigger] t.lines[i]).len() == w by {
            if s.cursor == h {
                if i < h - 1 {
                    assert(t.lines[i] == s.lines[i + 1]);
                }
            } else if i != s.cursor {
                assert(t.lines[i] == s.lines[i]);
            }
        }
    }
}


/// Once the whole listing is written, later frames change no window line:
/// with `k` the number of lines of the listing (the title and the entries of
/// the current menu), every frame after the `k`-th leaves the window and the
/// cursor as the `k`-th frame left them.
pub proof fn law_frames_after_listing_keep_window(s: MenuState, w: nat, h: nat, n: nat)
    requires
        s.well_formed(w, h),
        s.changed,
        s.mode == MenuMode::HistoryMode,
        s.cursor == 0,
        s.scroll_ready(),
        h > 0,
        n >= s.graph[s.current->0].len() + 1,
    ensures
        ({
            let k = s.graph[s.current->0].len() + 1;
            &&& draw_times(s, w, h, n).lines == draw_times(s, w, h, k).lines
            &&& draw_times(s, w, h, n).cursor == draw_times(s, w, h, k).cursor
        }),
    decreases n,
{
    let k = s.graph[s.current->0].len() + 1;
    let f = first_frame_ready(s);
    assert(f.scroll.len() == k);
    lemma_draw_times_write_lines(s, w, h, k);
    law_window_scrolls(f, w, h, k);
    if n > k {
        law_frames_after_listing_keep_window(s, w, h, (n - 1) as nat);
        lemma_listing_done(s, w, h, (n - 1) as nat);
    }
}

/// After the whole listing is written, every frame finds the scroll buffer
/// empty and the menu still marked as changed.
proof fn lemma_listing_done(s: MenuState, w: nat, h: nat, n: nat)
    requires
        s.well_formed(w, h),
        s.changed,
        s.mode == MenuMode::HistoryMode,
        s.cursor == 0,
        s.scroll_ready(),
        h > 0,
        n >= s.graph[s.current->0].len() + 1,
    ensures
        ({
            let t = draw_times(s, w, h, n);
            &&& t.scroll.len() == 0
            &&& t.changed
            &&& t.mode == MenuMode::HistoryMode
            &&& t.cursor != 0
        }),
    decreases n,
{
    let k = s.graph[s.current->0].len() + 1;
    let f = first_frame_ready(s);
    assert(f.scroll.len() == k);
    if n == k {
        lemma_draw_times_write_lines(s, w, h, k);
        law_window_scrolls(f, w, h, k);
    } else {
        lemma_listing_done(s, w, h, (n - 1) as nat);
    }
}


/// Labels are never changed or removed: every operation keeps the label of
/// every existing menu, so the label a menu was created with reads back after
/// any sequence of operations.
pub proof fn law_labels_kept(
    s: MenuState,
    w: nat,
    h: nat,
    id: MenuId,
    entries: Seq<MenuId>,
    label: &'static str,
    action: MenuAction,
    button: ButtonHighlight,
    i: int,
)
    requires
        s.well_formed(w, h),
        0 <= i < s.count,
    ensures
        s.click(button).labels[i] == s.labels[i],
        s.add_menu(label).labels[i] == s.labels[i],
        s.add_menu_item(label, action).labels[i] == s.labels[i],
        s.select_item(id).labels == s.labels,
        s.with_submenus(id, entries).labels == s.labels,
        s.enter(id).labels == s.labels,
        s.select().labels == s.labels,
        s.move_cursor().labels == s.labels,
        s.after_buttons().labels == s.labels,
        s.fill_scroll().labels == s.labels,
        s.write_line(w, h).labels == s.labels,
        s.after_draw(w, h).labels == s.labels,
{
}

/// The entries of a menu stay as last set: every operation other than
/// setting entries leaves all entries alone, so entries read back after any
/// later operations that do not set the same menu's entries again.
pub proof fn law_entries_kept(
    s: MenuState,
    w: nat,
    h: nat,
    id: MenuId,
    label: &'static str,
    action: MenuAction,
    button: ButtonHighlight,
)
    ensures
        s.click(button).graph == s.graph,
        s.add_menu(label).graph == s.graph,
        s.add_menu_item(label, action).graph == s.graph,
        s.select_item(id).graph == s.graph,
        s.enter(id).graph == s.graph,
        s.select().graph == s.graph,
        s.move_cursor().graph == s.graph,
        s.after_buttons().graph == s.graph,
        s.fill_scroll().graph == s.graph,
        s.write_line(w, h).graph == s.graph,
        s.after_draw(w, h).graph == s.graph,
{
}

/// The state after menus with the given labels were created one after
/// another.
pub open spec fn add_menus(s: MenuState, labels: Seq<&'static str>) -> MenuState
    decreases labels.len(),
{
    if labels.len() == 0 {
        s
    } else {
        add_menus(s, labels.drop_last()).add_menu(labels.last())
    }
}

/// Creating menus one after another gives them consecutive ids from the
/// current count on, each reading back its own label; no id is handed out
/// twice.
pub proof fn law_new_menus_consecutive(s: MenuState, labels: Seq<&'static str>, w: nat, h: nat)
    requires
        s.well_formed(w, h),
    ensures
        add_menus(s, labels).well_formed(w, h),
        add_menus(s, labels).count == s.count + labels.len(),
        forall|k: int|
            0 <= k < labels.len() ==> #[trigger] add_menus(s, labels).labels[s.count + k]
                == labels[k],
        forall|i: int| 0 <= i < s.count ==> #[trigger] add_menus(s, labels).labels[i] == s.labels[i],
    decreases labels.len(),
{
    if labels.len() > 0 {
        let prev = labels.drop_last();
        law_new_menus_consecutive(s, prev, w, h);
        let t = add_menus(s, labels);
        assert forall|k: int| 0 <= k < labels.len() implies #[trigger] t.labels[s.count + k]
            == labels[k] by {
            if k < labels.len() - 1 {
                assert(prev[k] == labels[k]);
                assert(add_menus(s, prev).labels[s.count + k] == prev[k]);
            }
        }
    }
}


/// The listing follows the entries: while the window is empty, the lines
/// queued for it are the label of the current menu and then, for each
/// position `i` of the current menu's entries, the label of the menu whose id
/// stands at position `i`, in entry order.
pub proof fn law_listing_follows_entries(s: MenuState)
    requires
        s.cursor == 0,
        s.scroll_ready(),
    ensures
        ({
            let cur = s.current->0;
            let entries = s.graph[cur];
            let t = s.fill_scroll();
            &&& t.scroll.len() == entries.len() + 1
            &&& t.scroll[0] == s.labels[cur as int]@
            &&& forall|i: int|
                0 <= i < entries.len() ==> #[trigger] t.scroll[i + 1] == s.labels[entries[i] as int]@
            &&& t.lines == s.lines
            &&& t.current == s.current
            &&& t.selected == s.selected
        }),
{
}

/// The first frame of a freshly set-up menu writes the label of the current
/// menu into the top window line and leaves the labels of the entries, in
/// entry order, waiting for the next frames.
pub proof fn law_first_frame_lists_entries(s: MenuState, w: nat, h: nat)
    requires
        s.well_formed(w, h),
        s.changed,
        s.mode == MenuMode::HistoryMode,
        s.cursor == 0,
        s.scroll_ready(),
        h > 0,
    ensures
        ({
            let cur = s.current->0;
            let entries = s.graph[cur];
            let t = s.after_draw(w, h);
            &&& t.lines[0] == padded(s.labels[cur as int]@, w)
            &&& t.cursor == 1
            &&& t.scroll.len() == entries.len()
            &&& forall|i: int|
                0 <= i < entries.len() ==> #[trigger] t.scroll[i] == s.labels[entries[i] as int]@
        }),
{
    let t = s.after_draw(w, h);
    let f = MenuState { changed: false, ..s.after_buttons() }.fill_scroll();
    assert(f.scroll.len() == s.graph[s.current->0].len() + 1);
    assert forall|i: int| 0 <= i < s.graph[s.current->0].len() implies #[trigger] t.scroll[i]
        == s.labels[s.graph[s.current->0][i] as int]@ by {
        assert(t.scroll[i] == f.scroll[i + 1]);
    }
}

/// Selecting enters the selected entry: it becomes the current menu and its
/// own first entry becomes the selected one, wherever the cursor stood in
/// the menu it was selected from. Nothing but the current menu, the
/// selection and the change mark moves.
pub proof fn law_select_enters_selected(s: MenuState)
    requires
        s.can_select(),
    ensures
        s.select().current == s.selected,
        s.select().selected == Some(s.graph[s.selected->0][0]),
        s.select().changed,
        s.select().lines == s.lines,
        s.select().graph == s.graph,
        s.select().labels == s.labels,
{
}

/// Entering a menu makes it current and selects its first entry.
pub proof fn law_enter_selects_first(s: MenuState, id: MenuId)
    requires
        s.can_enter(id),
    ensures
        s.enter(id).current == Some(id),
        s.enter(id).selected == Some(s.graph[id][0]),
        s.enter(id).changed,
{
}

/// The button row: each button's frame is as wide as its own label times a
/// fixed factor (9 pixels per byte on the left, 12 on the right) and its text
/// is its own label; the left button is always drawn, the right one exactly
/// when the current menu has more than one entry; a button is drawn pressed
/// (outline 4 wide, red outline, magenta fill) exactly when it is the one
/// highlighted.
pub proof fn law_button_row(s: MenuState, d: ButtonsDrawing)
    requires
        s.mode == MenuMode::HistoryMode,
        s.buttons_drawn(d),
    ensures
        d matches ButtonsDrawing::Pair { left, right } && {
            &&& left.frame.width == ((s.l_label.len() as u32) * 9) as u32
            &&& left.frame.x == -2
            &&& left.frame.y == 223
            &&& left.frame.height == 23
            &&& left.label.text == s.l_label
            &&& (left.frame.stroke_width == 4) == (s.highlight == Some(ButtonHighlight::L))
            &&& (s.highlight == Some(ButtonHighlight::L)) ==> left.frame.stroke_color
                == Theme::spec_default().red && left.frame.fill_color
                == Theme::spec_default().magenta
            &&& (s.highlight != Some(ButtonHighlight::L)) ==> left.frame.stroke_color
                == Theme::spec_default().cyan && left.frame.fill_color == spec_black()
            &&& (right is Some) == (s.graph[s.current->0].len() > 1)
            &&& left.label.x == 0
            &&& left.label.y == 236
            &&& right matches Some(r) ==> {
                &&& r.frame.width == ((s.r_label.len() as u32) * 12) as u32
                &&& r.frame.x == (135 - 10 * ((s.r_label.len() as i32) as int)) as i32
                &&& r.frame.y == 223
                &&& r.frame.height == 23
                &&& r.label.text == s.r_label
                &&& r.label.x == (135 - 9 * ((s.r_label.len() as i32) as int)) as i32
                &&& r.label.y == 236
                &&& (r.frame.stroke_width == 4) == (s.highlight == Some(ButtonHighlight::R))
            }
        },
{
}

/// The query shows the whole label of the selected entry: it is `? `, then
/// every character of the label, then ` ?`, whatever the label's length; it
/// is centred for the label's byte length.
pub proof fn law_query_shows_whole_label(s: MenuState, q: Option<QueryDrawing>)
    requires
        s.query_drawn(q),
        s.selected is Some,
    ensures
        ({
            let label = s.labels[s.selected->0 as int]@;
            let text = q->0.text@;
            &&& q is Some
            &&& text.len() == label.len() + 4
            &&& text[0] == '?' && text[1] == ' '
            &&& forall|i: int| 0 <= i < label.len() ==> #[trigger] text[i + 2] == label[i]
            &&& text[label.len() + 2int] == ' ' && text[label.len() + 3int] == '?'
            &&& q->0.x == (130 - 8 * (byte_len(s.labels[s.selected->0 as int]) + 4)) / 2
            &&& q->0.y == 213
        }),
{
    let label = s.labels[s.selected->0 as int]@;
    let text = q->0.text@;
    assert forall|i: int| 0 <= i < label.len() implies #[trigger] text[i + 2] == label[i] by {
        assert(text[i + 2] == (seq!['?', ' '] + label)[i + 2]);
    }
}

/// The left button clears the screen red exactly when the selected entry is
/// the "explode" entry (and that is not also the "scan wifi" entry, which
/// takes precedence); with any other selection, or none, it does nothing to
/// the screen.
pub proof fn law_left_press_effect(selected: Option<MenuId>, scan_wifi: MenuId, explode: MenuId)
    ensures
        (left_press_effect(selected, scan_wifi, explode) == ScreenEffect::ClearRed) <==> (selected
            == Some(explode) && explode != scan_wifi),
        (left_press_effect(selected, scan_wifi, explode) == ScreenEffect::Nothing) <==> !(selected
            == Some(explode) && explode != scan_wifi),
{
}

/// A window line holds exactly `w` characters: those of its text, as many
/// as fit, and spaces after a shorter text.
pub proof fn law_line_cut_or_padded(text: Seq<char>, w: nat)
    ensures
        padded(text, w).len() == w,
        forall|i: int| 0 <= i < w && i < text.len() ==> #[trigger] padded(text, w)[i] == text[i],
        forall|i: int| text.len() <= i < w ==> #[trigger] padded(text, w)[i] == ' ',
        text.len() >= w ==> padded(text, w) == text.take(w as int),
{
    if text.len() >= w {
        assert(padded(text, w) =~= text.take(w as int));
    }
}

/// The window is drawn line by line from its top-left corner down: line `i`
/// shows the `i`-th window line in the theme's cyan, at the window's left edge, `i` times
/// the font height plus three pixels below the first line.
pub proof fn law_window_lines_placed(s: MenuState, ls: Seq<LineDrawing>, h: nat)
    requires
        s.lines_drawn(ls, h),
    ensures
        ls.len() == h,
        forall|i: int|
            0 <= i < h ==> {
                &&& (#[trigger] ls[i]).text@ == s.lines[i]
                &&& ls[i].x == s.top_left.x
                &&& ls[i].y == s.top_left.y + i * ((s.font_height as i32) as int + 3)
                &&& ls[i].color == s.theme.cyan
            },
{
}

} // verus!
