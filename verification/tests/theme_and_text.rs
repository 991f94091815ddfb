use lilygo_display::color::Theme;
use lilygo_display::text::pad_line;

#[test]
fn default_theme_packs_channels_as_rgb565() {
    let theme = Theme::default();
    // red #d50458 -> (26, 1, 11)
    assert_eq!(theme.red, (26 << 11) | (1 << 5) | 11);
    // green #00f3d7 -> (0, 60, 26)
    assert_eq!(theme.green, (60 << 5) | 26);
    // yellow #fefdc2 -> (31, 63, 24)
    assert_eq!(theme.yellow, (31 << 11) | (63 << 5) | 24);
    // blue #a5d5fe -> (20, 53, 31)
    assert_eq!(theme.blue, (20 << 11) | (53 << 5) | 31);
    // magenta #690759 -> (13, 1, 11)
    assert_eq!(theme.magenta, (13 << 11) | (1 << 5) | 11);
    // cyan #02c3fc -> (0, 48, 31)
    assert_eq!(theme.cyan, (48 << 5) | 31);
}

#[test]
fn default_theme_exact_words() {
    let theme = Theme::default();
    assert_eq!(theme.red, 53291);
    assert_eq!(theme.green, 1946);
    assert_eq!(theme.yellow, 65528);
    assert_eq!(theme.blue, 42687);
    assert_eq!(theme.magenta, 26667);
    assert_eq!(theme.cyan, 1567);
}

#[test]
fn pad_line_pads_short_lines() {
    assert_eq!(pad_line("abc", 5), vec!['a', 'b', 'c', ' ', ' ']);
}

#[test]
fn pad_line_cuts_long_lines() {
    assert_eq!(pad_line("scan wifi", 4), vec!['s', 'c', 'a', 'n']);
}

#[test]
fn pad_line_counts_characters_not_bytes() {
    assert_eq!(pad_line("äöü", 4), vec!['ä', 'ö', 'ü', ' ']);
}

#[test]
fn pad_line_empty_width() {
    assert_eq!(pad_line("abc", 0), Vec::<char>::new());
    assert_eq!(pad_line("", 3), vec![' ', ' ', ' ']);
}
