//! The library's own promises, checked on concrete values.

use bab::config::{default_palette, sanitize_palette, Color as RgbColor};
use bab::host::{blink_lit, key_input, named_key, window_title, BabKey};
use bab::input::key::{Key, Modifiers};
use bab::input::mouse::{self, MouseButton, MouseEvent, MouseEventKind};
use bab::render::{cell_paint, indexed_color, CellPaint, GlyphBitmap, GlyphKey, IndexedColor, Paint};
use bab::session::{paste_bytes, take_replies, Size};
use bab::text::{is_invisible, EmptyFontStack, Face, FontStack, ShapedCluster, ShapedGlyph};
use bab::vt::grid::Grid;
use bab::vt::sgr;
use bab::{Attrs, CellContent, Color, Cursor, Flags, Modes, MouseTracking, SelectionMode, Terminal, VtEvent};

fn render(bytes: &[u8]) -> Terminal {
    let mut term = Terminal::new(4, 20);
    term.feed(bytes);
    term
}

// ---- the terminal ----------------------------------------------------------------

#[test]
fn a_multi_digit_cursor_report_is_decimal() {
    let mut term = Terminal::new(30, 120);
    term.feed(b"\x1b[12;100H\x1b[6n");
    assert_eq!(term.take_output(), b"\x1b[12;100R");
}

#[test]
fn events_apply_one_at_a_time() {
    let mut term = Terminal::new(2, 10);
    term.perform(&VtEvent::Print('h'));
    term.perform(&VtEvent::Print('i'));
    term.perform(&VtEvent::Execute(b'\r'));
    term.perform(&VtEvent::Csi {
        params: vec![vec![1]],
        intermediates: vec![],
        ignore: false,
        action: 'C',
    });
    term.perform(&VtEvent::Print('!'));
    assert_eq!(term.grid().row_text(0), "h!");
}

#[test]
fn an_ignored_sequence_changes_nothing() {
    let mut term = Terminal::new(2, 10);
    term.perform(&VtEvent::Csi {
        params: vec![vec![5]],
        intermediates: vec![],
        ignore: true,
        action: 'C',
    });
    assert_eq!(term.grid().cursor().col, 0);
}

#[test]
fn a_title_that_is_not_utf8_is_ignored() {
    let mut term = Terminal::new(2, 10);
    term.perform(&VtEvent::Osc {
        params: vec![b"2".to_vec(), vec![0xff, 0xfe]],
        bell_terminated: true,
    });
    assert_eq!(term.title(), None);
    term.perform(&VtEvent::Osc {
        params: vec![b"2".to_vec(), "বাংলা".as_bytes().to_vec()],
        bell_terminated: true,
    });
    assert_eq!(term.title(), Some("বাংলা"));
}

#[test]
fn a_cursor_style_is_set_by_decscusr() {
    let term = render(b"\x1b[4 q");
    assert_eq!(term.modes().cursor_style.blink, false);
    assert_eq!(term.modes().cursor_style.shape, bab::CursorShape::Underline);
}

#[test]
fn the_scroll_region_default_bottom_is_the_last_row() {
    // `CSI 2 r` confines scrolling to rows 2 and below; a linefeed at the bottom then
    // keeps row 1 in place.
    let mut term = Terminal::new(3, 10);
    term.feed(b"a\r\nb\r\nc\x1b[2r\x1b[3;1H\n");
    assert_eq!(term.grid().row_text(0), "a");
    assert_eq!(term.grid().row_text(1), "c");
}

#[test]
fn scroll_up_and_down_move_the_region() {
    let mut term = Terminal::new(3, 10);
    term.feed(b"a\r\nb\r\nc\x1b[1S");
    assert_eq!(term.grid().row_text(0), "b");
    term.feed(b"\x1b[2T");
    assert_eq!(term.grid().row_text(0), "");
    assert_eq!(term.grid().row_text(2), "b");
}

#[test]
fn erase_above_clears_to_the_cursor() {
    let term = render(b"abc\r\ndef\x1b[2;2H\x1b[1J");
    assert_eq!(term.grid().row_text(0), "");
    assert_eq!(term.grid().row_text(1), "f");
}

#[test]
fn erase_line_to_start_includes_the_cursor_cell() {
    let term = render(b"abcdef\x1b[1;3H\x1b[1K");
    assert_eq!(term.grid().row_text(0), "def");
}

#[test]
fn sgr_attributes_reach_printed_cells() {
    let term = render(b"\x1b[7;9;48;5;21mx\x1b[27;29;49my");
    let x = term.grid().cell(0, 0).unwrap().attrs;
    assert!(x.flags.contains(Flags::REVERSE));
    assert!(x.flags.contains(Flags::STRIKETHROUGH));
    assert_eq!(x.bg, Color::Indexed(21));
    let y = term.grid().cell(0, 1).unwrap().attrs;
    assert!(!y.flags.contains(Flags::REVERSE));
    assert_eq!(y.bg, Color::Default);
}

#[test]
fn sgr_without_parameters_resets() {
    let mut attrs = Attrs::default();
    attrs.flags.insert(Flags::BOLD);
    sgr::apply(&mut attrs, &vec![]);
    assert_eq!(attrs, Attrs::default());
}

#[test]
fn a_truecolor_without_the_colour_space_slot_parses() {
    let term = render(b"\x1b[48:2:1:2:3ma");
    assert_eq!(term.grid().cell(0, 0).unwrap().attrs.bg, Color::Rgb(1, 2, 3));
}

#[test]
fn a_component_past_255_is_held_to_255() {
    let term = render(b"\x1b[38;2;300;0;0ma");
    assert_eq!(term.grid().cell(0, 0).unwrap().attrs.fg, Color::Rgb(255, 0, 0));
}

#[test]
fn a_growing_cluster_moves_the_cursor_with_it() {
    // U+1F1E7 U+1F1E9 is one flag: two regional indicators, two cells in all.
    let term = render("\u{1F1E7}\u{1F1E9}x".as_bytes());
    let clusters = term.grid().clusters(0);
    assert_eq!(clusters.len(), 2);
    assert_eq!(clusters[1].text(), "x");
}

#[test]
fn insert_lines_outside_the_region_does_nothing() {
    let mut term = Terminal::new(4, 10);
    term.feed(b"a\r\nb\r\nc\r\nd\x1b[2;3r\x1b[4;1H\x1b[L");
    assert_eq!(term.grid().row_text(3), "d");
}

#[test]
fn a_grid_is_never_smaller_than_one_cell() {
    let grid = Grid::new(0, 0, 0);
    assert_eq!((grid.rows(), grid.cols()), (1, 1));
}

#[test]
fn a_wide_char_on_a_one_column_grid_stays_on_screen() {
    let mut term = Terminal::new(2, 1);
    term.feed("世".as_bytes());
    // It cannot fit beside the cursor, so it wraps, and is placed whole on row 1.
    assert!(term.grid().cursor().col <= 1);
    assert_eq!(term.grid().row_text(1), "世");
}

#[test]
fn primary_screen_survives_a_busy_alternate_screen() {
    let mut term = Terminal::new(3, 10);
    term.feed(b"keep\x1b[1m");
    term.feed(b"\x1b[?1049h\x1b[0mabc\r\n\r\n\r\n\x1b[2J\x1b[?1049l");
    assert_eq!(term.grid().row_text(0), "keep");
    assert_eq!(term.grid().cursor().col, 4);
    term.feed(b"x");
    assert!(term.grid().cell(0, 4).unwrap().attrs.flags.contains(Flags::BOLD));
}

// ---- selection --------------------------------------------------------------------

#[test]
fn click_counts_keep_cycling() {
    assert_eq!(SelectionMode::from_click_count(5), SelectionMode::Word);
    assert_eq!(SelectionMode::from_click_count(6), SelectionMode::Line);
    assert_eq!(SelectionMode::from_click_count(0), SelectionMode::Line);
}

#[test]
fn a_word_selection_stops_at_separators() {
    let term = render(b"a=(value)");
    let selection = bab::Selection::new(Cursor { row: 0, col: 4 }, SelectionMode::Word);
    assert_eq!(selection.text(term.grid()), "value");
}

// ---- colors and configuration ------------------------------------------------------

#[test]
fn a_hash_or_none_parse_alike() {
    assert_eq!(RgbColor::parse("#abc").unwrap(), RgbColor::parse("abc").unwrap());
    assert_eq!(RgbColor::parse("##abc").unwrap(), RgbColor::new(0xaa, 0xbb, 0xcc));
    assert!(RgbColor::parse("# abc").is_err());
    assert_eq!(RgbColor::parse("#12345").unwrap_err().0, "#12345");
}

#[test]
fn a_palette_of_sixteen_is_kept_and_any_other_replaced() {
    let mine = vec![RgbColor::new(1, 2, 3); 16];
    assert_eq!(sanitize_palette(mine.clone()), mine);
    assert_eq!(sanitize_palette(vec![RgbColor::new(1, 2, 3); 2]), default_palette());
    assert_eq!(default_palette().len(), 16);
    assert_eq!(default_palette()[4], RgbColor::new(0x7A, 0xA2, 0xF7));
}

#[test]
fn the_256_color_table() {
    assert_eq!(indexed_color(3), IndexedColor::Ansi(3));
    assert_eq!(indexed_color(16), IndexedColor::Rgb(0, 0, 0));
    assert_eq!(indexed_color(21), IndexedColor::Rgb(0, 0, 255));
    assert_eq!(indexed_color(196), IndexedColor::Rgb(255, 0, 0));
    assert_eq!(indexed_color(110), IndexedColor::Rgb(135, 175, 215));
    assert_eq!(indexed_color(232), IndexedColor::Rgb(8, 8, 8));
    assert_eq!(indexed_color(255), IndexedColor::Rgb(238, 238, 238));
}

// ---- keys and the mouse -------------------------------------------------------------

#[test]
fn the_xterm_parameter_is_the_bitfield_plus_one() {
    let all = Modifiers::from_bits(0xff);
    assert_eq!(all.xterm_param(), 16);
    assert!(!all.is_empty());
    assert!(Modifiers::from_bits(0).is_empty());
    assert!(all.contains(Modifiers::SUPER));
    assert_eq!(Modifiers::from_bits(1).union(Modifiers::from_bits(4)).xterm_param(), 6);
}

#[test]
fn alt_enter_is_escape_prefixed_but_alt_up_is_parameterised() {
    let alt = Modifiers::from_bits(Modifiers::ALT);
    let modes = Modes::default();
    assert_eq!(bab::input::keyboard::encode(&Key::Enter, alt, &modes).unwrap(), b"\x1b\r");
    assert_eq!(bab::input::keyboard::encode(&Key::Up, alt, &modes).unwrap(), b"\x1b[1;3A");
    assert_eq!(bab::input::keyboard::encode(&Key::Function(2), alt, &modes).unwrap(), b"\x1b[1;3Q");
}

#[test]
fn mouse_motion_with_modifiers_adds_every_bit() {
    let modes = Modes {
        mouse_tracking: MouseTracking::Motion,
        sgr_mouse: true,
        ..Modes::default()
    };
    let event = MouseEvent {
        kind: MouseEventKind::Motion,
        button: None,
        row: 9,
        col: 99,
        modifiers: Modifiers::from_bits(Modifiers::SHIFT | Modifiers::ALT | Modifiers::CONTROL),
    };
    // 3 (no button) + 32 (motion) + 4 + 8 + 16.
    assert_eq!(mouse::encode(event, &modes).unwrap(), b"\x1b[<63;100;10M");
}

#[test]
fn wheel_motion_has_no_motion_bit_and_x10_release_is_three() {
    let modes = Modes {
        mouse_tracking: MouseTracking::Motion,
        sgr_mouse: false,
        ..Modes::default()
    };
    let wheel = MouseEvent {
        kind: MouseEventKind::Motion,
        button: Some(MouseButton::WheelDown),
        row: 0,
        col: 0,
        modifiers: Modifiers::from_bits(0),
    };
    assert_eq!(mouse::encode(wheel, &modes).unwrap(), vec![0x1b, b'[', b'M', 32 + 65, 33, 33]);
    let release = MouseEvent {
        kind: MouseEventKind::Release,
        button: Some(MouseButton::Right),
        ..wheel
    };
    assert_eq!(mouse::encode(release, &modes).unwrap(), vec![0x1b, b'[', b'M', 35, 33, 33]);
}

// ---- the host interface -------------------------------------------------------------

#[test]
fn key_codes_name_keys() {
    assert_eq!(named_key(0), None);
    assert_eq!(named_key(1), Some(Key::Enter));
    assert_eq!(named_key(14), Some(Key::Delete));
    assert_eq!(named_key(105), Some(Key::Function(5)));
    assert_eq!(named_key(112), Some(Key::Function(12)));
    assert_eq!(named_key(113), None);
    assert_eq!(BabKey::F1.code(), 101);
    assert_eq!(BabKey::Delete.code(), 14);
}

#[test]
fn typed_text_is_sent_verbatim_unless_modified() {
    let modes = Modes::default();
    let none = Modifiers::from_bits(0);
    let ctrl = Modifiers::from_bits(Modifiers::CONTROL);
    assert_eq!(key_input(None, "ব্ল", none, &modes).unwrap(), "ব্ল".as_bytes());
    assert_eq!(key_input(None, "", none, &modes), None);
    assert_eq!(key_input(None, "cx", ctrl, &modes).unwrap(), vec![0x03]);
    assert_eq!(key_input(Some(Key::Tab), "ignored", none, &modes).unwrap(), b"\t");
}

#[test]
fn the_cursor_blinks_in_intervals() {
    assert!(blink_lit(0, 530));
    assert!(blink_lit(529, 530));
    assert!(!blink_lit(530, 530));
    assert!(blink_lit(1060, 530));
}

#[test]
fn the_window_title_defaults_to_bab() {
    assert_eq!(window_title(None), "bab");
    assert_eq!(window_title(Some("vim")), "vim");
}

// ---- the session --------------------------------------------------------------------

#[test]
fn a_paste_is_bracketed_only_when_asked() {
    assert_eq!(paste_bytes("ls\n", false), b"ls\n");
    assert_eq!(paste_bytes("ls\n", true), b"\x1b[200~ls\n\x1b[201~");
}

#[test]
fn replies_are_taken_once_and_only_after_output() {
    let mut term = render(b"\x1b[c");
    assert_eq!(take_replies(&mut term, false), None);
    assert_eq!(take_replies(&mut term, true).unwrap(), b"\x1b[?62;22c");
    assert_eq!(take_replies(&mut term, true), None);
    assert_eq!(Size::new(24, 80), Size { rows: 24, cols: 80 });
}

// ---- text and rendering -------------------------------------------------------------

#[test]
fn joiners_and_variation_selectors_are_invisible() {
    assert!(is_invisible('\u{200D}'));
    assert!(is_invisible('\u{FE0F}'));
    assert!(is_invisible('\u{E0100}'));
    assert!(!is_invisible('a'));
}

#[test]
fn bytes_that_are_no_font_are_refused() {
    let result = Face::new("broken".to_owned(), vec![1, 2, 3, 4]);
    assert_eq!(result.err().unwrap().name, "broken");
}

#[test]
fn a_font_stack_needs_a_face() {
    assert_eq!(FontStack::new(Vec::new()).err(), Some(EmptyFontStack));
}

#[test]
fn shaped_positions_become_a_cluster() {
    let raw = vec![(5, 600, 0, 0), (70000, 0, -20, 10), (0, 400, 0, 0)];
    let cluster = ShapedCluster::from_positions(&raw, 1);
    assert_eq!(cluster.advance, 1000);
    assert_eq!(cluster.face_index, 1);
    assert_eq!(cluster.glyphs[1].glyph_id, 0);
    assert_eq!(cluster.advancing_glyphs(), 2);
    assert!(cluster.has_tofu());
    assert!(cluster.glyphs[1].is_mark());
    assert!(!ShapedGlyph { glyph_id: 7, x_advance: 0, x_offset: 0, y_offset: 0 }.is_notdef());
    let huge = vec![(1, i32::MAX, 0, 0), (1, i32::MAX, 0, 0)];
    assert_eq!(ShapedCluster::from_positions(&huge, 0).advance, i32::MAX);
}

#[test]
fn glyph_keys_and_bitmaps() {
    let key = GlyphKey::with_size(2, 40, 896);
    assert_eq!((key.face_index, key.glyph_id, key.size()), (2, 40, 896));
    let empty = GlyphBitmap { width: 0, height: 12, left: 0, top: 0, coverage: vec![] };
    assert!(empty.is_empty());
    let full = GlyphBitmap { width: 1, height: 1, left: 0, top: 0, coverage: vec![255] };
    assert!(!full.is_empty());
}

#[test]
fn cell_contents_are_distinguished() {
    let term = render("世".as_bytes());
    assert!(matches!(term.grid().cell(0, 0).unwrap().content, CellContent::Head(_)));
    assert!(term.grid().cell(0, 1).unwrap().is_continuation());
    assert!(term.grid().cell(9, 0).is_none());
}

// ---- row text, chunked feeds, event runs --------------------------------------------

#[test]
fn row_text_drops_trailing_blanks() {
    let mut grid = Grid::new(1, 10, 0);
    grid.print('a');
    grid.print(' ');
    grid.print(' ');
    assert_eq!(grid.row_text(0), "a");
    assert_eq!(grid.row_text(5), "");
}

#[test]
fn row_text_keeps_inner_blanks() {
    let term = render(b"a b  ");
    assert_eq!(term.grid().row_text(0), "a b");
}

#[test]
fn a_sequence_split_across_feeds_completes() {
    let mut term = Terminal::new(2, 10);
    term.feed(b"ab\x1b[");
    assert_eq!(term.grid().row_text(0), "ab");
    term.feed(b"1Dc");
    assert_eq!(term.grid().row_text(0), "ac");
}

#[test]
fn a_character_split_across_feeds_prints_once() {
    let mut term = Terminal::new(2, 10);
    let bytes = "\u{20ac}".as_bytes();
    term.feed(&bytes[..1]);
    assert_eq!(term.grid().row_text(0), "");
    term.feed(&bytes[1..]);
    assert_eq!(term.grid().row_text(0), "\u{20ac}");
}

#[test]
fn a_run_of_events_applies_in_order() {
    let mut term = Terminal::new(2, 10);
    let events = vec![
        VtEvent::Print('x'),
        VtEvent::Print('y'),
        VtEvent::Execute(b'\r'),
        VtEvent::Print('z'),
    ];
    term.run_events(&events);
    assert_eq!(term.grid().row_text(0), "zy");
    term.run_events(&[]);
    assert_eq!(term.grid().row_text(0), "zy");
}

// ---- colour text and cell paint ------------------------------------------------------

#[test]
fn a_colour_is_written_as_lower_case_hex() {
    assert_eq!(RgbColor::new(0x7a, 0xa2, 0xf7).to_hex(), "#7aa2f7");
    assert_eq!(RgbColor::new(0, 0x0f, 0xff).to_hex(), "#000fff");
}

#[test]
fn a_written_colour_parses_back() {
    for c in [RgbColor::new(0, 0, 0), RgbColor::new(0xff, 0xff, 0xff), RgbColor::new(0x12, 0xab, 0x9c)] {
        assert_eq!(RgbColor::parse(&c.to_hex()), Ok(c));
    }
}

#[test]
fn plain_cells_paint_in_their_own_slots() {
    let attrs = Attrs { fg: Color::Indexed(1), bg: Color::Default, flags: Attrs::default().flags };
    assert_eq!(
        cell_paint(attrs),
        CellPaint { fg: Paint::Foreground(Color::Indexed(1)), bg: Paint::Background(Color::Default), dim: false }
    );
}

#[test]
fn reverse_swaps_paints_defaults_included() {
    let mut attrs = Attrs { fg: Color::Default, bg: Color::Rgb(1, 2, 3), flags: Attrs::default().flags };
    attrs.flags.insert(Flags::REVERSE);
    attrs.flags.insert(Flags::DIM);
    assert_eq!(
        cell_paint(attrs),
        CellPaint { fg: Paint::Background(Color::Rgb(1, 2, 3)), bg: Paint::Foreground(Color::Default), dim: true }
    );
}

#[test]
fn hidden_draws_the_glyph_in_the_background_undimmed() {
    let mut attrs = Attrs { fg: Color::Indexed(2), bg: Color::Indexed(4), flags: Attrs::default().flags };
    attrs.flags.insert(Flags::HIDDEN);
    attrs.flags.insert(Flags::DIM);
    assert_eq!(
        cell_paint(attrs),
        CellPaint { fg: Paint::Background(Color::Indexed(4)), bg: Paint::Background(Color::Indexed(4)), dim: false }
    );
}

// ---- mouse at the coordinate limit -----------------------------------------------------

#[test]
fn the_last_usize_column_still_reports() {
    let event = MouseEvent {
        kind: MouseEventKind::Press,
        button: Some(MouseButton::Left),
        row: 0,
        col: usize::MAX,
        modifiers: Modifiers::from_bits(0),
    };
    let mut modes = Modes::default();
    assert_eq!(mouse::encode(event, &modes), None);
    modes.mouse_tracking = MouseTracking::Click;
    modes.sgr_mouse = true;
    let expected = format!("\x1b[<0;{};1M", usize::MAX as u128 + 1);
    assert_eq!(mouse::encode(event, &modes), Some(expected.into_bytes()));
    modes.sgr_mouse = false;
    assert_eq!(mouse::encode(event, &modes), None);
}
