use typewriter::config::NEWLINE;
use typewriter::font::{load_font, Instruction, SymbolDescription};
use typewriter::keys::{resolve_symbol, Key};
use typewriter::typewriter::{LetterInstruction, Outcome, Typewriter, Violation};

fn li(x: usize, y: usize, id: u8) -> LetterInstruction {
    LetterInstruction { pos_x: x, pos_y: y, id }
}

fn type_all(t: &mut Typewriter, ids: &[u8]) -> Vec<LetterInstruction> {
    let mut out = Vec::new();
    for id in ids {
        assert_eq!(t.type_glyph(&mut out, *id), Outcome::Applied);
    }
    out
}

fn dummy_font_symbols() -> Vec<SymbolDescription> {
    let mut v = Vec::new();
    for i in 0..80u32 {
        v.push(vec![Instruction {
            clear: false,
            x_start: 0,
            x_fill: false,
            x_end: i % 5,
            y_start: 0,
            y_fill: false,
            y_end: 0,
        }]);
    }
    v
}

#[test]
fn typing_draws_blank_then_glyph() {
    let mut t = Typewriter::new(5, 2, 100);
    let out = type_all(&mut t, &[7]);
    assert_eq!(out, vec![li(0, 0, 0), li(0, 0, 7)]);
    assert_eq!(t.cursor.get_draw_cursor_position(), (1, 0));
}

#[test]
fn five_letters_then_backspace() {
    let mut t = Typewriter::new(5, 2, 100);
    type_all(&mut t, &[1, 2, 3, 4, 5]);
    assert_eq!(t.cursor.get_draw_cursor_position(), (5, 0));
    assert_eq!(t.cursor.get_draw_letter_position(), (0, 1));
    t.update_line_cache();
    assert_eq!(t.line_cache[0], 5);
    let mut out = Vec::new();
    assert_eq!(t.backspace(&mut out), Outcome::Applied);
    assert_eq!(t.cursor.get_draw_cursor_position(), (4, 0));
    assert_eq!(out, vec![li(4, 0, 0)]);
    assert_eq!(t.memory.content(), vec![1, 2, 3, 4]);
}

#[test]
fn eleventh_character_scrolls() {
    let mut t = Typewriter::new(5, 2, 100);
    let out = type_all(&mut t, &[1, 2, 3, 4, 5, 6, 7, 8, 9, 10]);
    assert_eq!(out[10], li(0, 1, 0));
    assert_eq!(out[11], li(0, 1, 6));
    assert!(t.cursor.is_at_canvas_end());
    let mut out = Vec::new();
    assert_eq!(t.type_glyph(&mut out, 11), Outcome::Applied);
    let mut expected = Vec::new();
    for x in 0..5 {
        expected.push(li(x, 0, 0));
    }
    for x in 0..5 {
        expected.push(li(x, 1, 0));
    }
    expected.push(li(0, 1, 11));
    expected.push(li(4, 0, 10));
    expected.push(li(3, 0, 9));
    expected.push(li(2, 0, 8));
    expected.push(li(1, 0, 7));
    expected.push(li(0, 0, 6));
    assert_eq!(out, expected);
    assert_eq!(t.cursor.get_draw_cursor_position(), (1, 1));
    assert_eq!(t.line_cache[0], 1);
}

#[test]
fn arrow_left_across_newline() {
    let mut t = Typewriter::new(5, 2, 100);
    let mut out = Vec::new();
    t.type_glyph(&mut out, 1);
    t.type_glyph(&mut out, 2);
    assert_eq!(t.enter(&mut out), Outcome::Applied);
    t.type_glyph(&mut out, 3);
    t.type_glyph(&mut out, 4);
    assert_eq!(t.cursor.get_draw_cursor_position(), (2, 1));
    let mut moves = Vec::new();
    assert_eq!(t.move_left(&mut moves), Outcome::Applied);
    assert_eq!(t.cursor.get_draw_cursor_position(), (1, 1));
    assert_eq!(t.move_left(&mut moves), Outcome::Applied);
    assert_eq!(t.cursor.get_draw_cursor_position(), (0, 1));
    assert_eq!(t.move_left(&mut moves), Outcome::Applied);
    assert_eq!(t.cursor.get_draw_cursor_position(), (2, 0));
    assert!(moves.is_empty());
    assert_eq!(t.memory.content(), vec![1, 2, NEWLINE, 3, 4]);
    assert_eq!(t.memory.before_len(), 2);
}

#[test]
fn enter_when_full_is_rejected() {
    let mut t = Typewriter::new(5, 2, 3);
    type_all(&mut t, &[1, 2, 3]);
    let before = t.memory.content();
    let pos = t.cursor.get_draw_cursor_position();
    let mut out = Vec::new();
    assert_eq!(t.enter(&mut out), Outcome::Rejected);
    assert!(out.is_empty());
    assert_eq!(t.memory.content(), before);
    assert_eq!(t.cursor.get_draw_cursor_position(), pos);
    assert_eq!(t.type_glyph(&mut out, 4), Outcome::Rejected);
    assert!(out.is_empty());
}

#[test]
fn type_then_backspace_round_trip() {
    let mut t = Typewriter::new(5, 3, 100);
    let mut out = Vec::new();
    t.type_glyph(&mut out, 1);
    t.enter(&mut out);
    t.type_glyph(&mut out, 2);
    t.type_glyph(&mut out, 3);
    t.move_left(&mut out);
    let content = t.memory.content();
    let before_len = t.memory.before_len();
    let pos = t.cursor.get_draw_cursor_position();
    t.type_glyph(&mut out, 9);
    assert_ne!(t.memory.content(), content);
    t.backspace(&mut out);
    assert_eq!(t.memory.content(), content);
    assert_eq!(t.memory.before_len(), before_len);
    assert_eq!(t.cursor.get_draw_cursor_position(), pos);
}

#[test]
fn type_then_backspace_at_row_end() {
    let mut t = Typewriter::new(5, 3, 100);
    type_all(&mut t, &[1, 2, 3, 4, 5]);
    let pos = t.cursor.get_draw_cursor_position();
    assert_eq!(pos, (5, 0));
    let mut out = Vec::new();
    t.type_glyph(&mut out, 6);
    assert_eq!(t.cursor.get_draw_cursor_position(), (1, 1));
    t.backspace(&mut out);
    assert_eq!(t.cursor.get_draw_cursor_position(), pos);
    assert_eq!(t.memory.content(), vec![1, 2, 3, 4, 5]);
}

#[test]
fn redraw_from_cursor_twice_is_the_same() {
    let mut t = Typewriter::new(5, 2, 100);
    let mut out = Vec::new();
    t.type_glyph(&mut out, 1);
    t.type_glyph(&mut out, 2);
    t.enter(&mut out);
    t.type_glyph(&mut out, 3);
    t.type_glyph(&mut out, 4);
    t.move_left(&mut out);
    t.move_left(&mut out);
    let pos = t.cursor.get_draw_cursor_position();
    let mut first = Vec::new();
    t.redraw_from_cursor(&mut first);
    assert_eq!(t.cursor.get_draw_cursor_position(), pos);
    let mut second = Vec::new();
    t.redraw_from_cursor(&mut second);
    assert_eq!(t.cursor.get_draw_cursor_position(), pos);
    assert_eq!(first, vec![li(0, 1, 3), li(1, 1, 4)]);
    assert_eq!(first, second);
}

#[test]
fn line_cache_after_short_run() {
    for n in 0..5u8 {
        let mut t = Typewriter::new(5, 2, 100);
        let ids: Vec<u8> = (1..=n).collect();
        type_all(&mut t, &ids);
        t.update_line_cache();
        assert_eq!(t.line_cache[0], n as usize);
    }
}

#[test]
fn line_cache_counts_lines_backward() {
    let mut t = Typewriter::new(5, 3, 100);
    let mut out = Vec::new();
    t.type_glyph(&mut out, 1);
    t.type_glyph(&mut out, 2);
    t.enter(&mut out);
    t.enter(&mut out);
    t.type_glyph(&mut out, 3);
    t.update_line_cache();
    assert_eq!(t.line_cache, vec![1, 0, 2]);
}

#[test]
fn find_line_end_wraps_long_lines() {
    let mut t = Typewriter::new(5, 3, 100);
    type_all(&mut t, &[1, 2, 3, 4, 5, 6, 7]);
    assert_eq!(t.find_line_end(), 2);
    let mut out = Vec::new();
    t.enter(&mut out);
    assert_eq!(t.find_line_end(), 0);
}

#[test]
fn enter_in_the_middle_redraws_tail() {
    let mut t = Typewriter::new(3, 3, 100);
    let mut out = Vec::new();
    t.type_glyph(&mut out, 1);
    t.type_glyph(&mut out, 2);
    t.move_left(&mut out);
    let mut out = Vec::new();
    assert_eq!(t.enter(&mut out), Outcome::Applied);
    let mut expected = vec![li(1, 0, 0), li(2, 0, 0)];
    for x in 0..3 {
        expected.push(li(x, 1, 0));
    }
    for x in 0..3 {
        expected.push(li(x, 2, 0));
    }
    expected.push(li(0, 1, 2));
    assert_eq!(out, expected);
    assert_eq!(t.cursor.get_draw_cursor_position(), (0, 1));
}

#[test]
fn arrow_right_over_newline_moves_down() {
    let mut t = Typewriter::new(5, 3, 100);
    let mut out = Vec::new();
    t.type_glyph(&mut out, 1);
    t.enter(&mut out);
    t.type_glyph(&mut out, 2);
    t.move_left(&mut out);
    t.move_left(&mut out);
    assert_eq!(t.cursor.get_draw_cursor_position(), (1, 0));
    let mut moves = Vec::new();
    assert_eq!(t.move_right(&mut moves), Outcome::Applied);
    assert_eq!(t.cursor.get_draw_cursor_position(), (0, 1));
    assert_eq!(t.move_right(&mut moves), Outcome::Applied);
    assert_eq!(t.cursor.get_draw_cursor_position(), (1, 1));
    assert_eq!(t.move_right(&mut moves), Outcome::Rejected);
    assert!(moves.is_empty());
}

#[test]
fn boundaries_are_rejected() {
    let mut t = Typewriter::new(5, 2, 10);
    let mut out = Vec::new();
    assert_eq!(t.backspace(&mut out), Outcome::Rejected);
    assert_eq!(t.move_left(&mut out), Outcome::Rejected);
    assert_eq!(t.move_right(&mut out), Outcome::Rejected);
    assert!(out.is_empty());
}

#[test]
fn inconsistent_cursor_is_reported() {
    let mut t = Typewriter::new(5, 2, 10);
    let mut out = Vec::new();
    t.type_glyph(&mut out, 1);
    t.cursor.x = 0;
    assert_eq!(t.backspace(&mut out), Outcome::Corrupt(Violation::ExpectedNewline));
    let mut t = Typewriter::new(5, 2, 10);
    t.enter(&mut out);
    t.cursor.x = 1;
    assert_eq!(t.backspace(&mut out), Outcome::Corrupt(Violation::UnexpectedNewline));
    let mut t = Typewriter::new(5, 2, 10);
    t.type_glyph(&mut out, 1);
    t.cursor.x = 3;
    assert_eq!(t.backspace(&mut out), Outcome::Corrupt(Violation::EmptyMemory));
}

#[test]
fn moving_up_from_first_row_redraws_it() {
    let mut t = Typewriter::new(3, 2, 100);
    type_all(&mut t, &[1, 2, 3, 4, 5, 6, 7]);
    assert_eq!(t.cursor.get_draw_cursor_position(), (1, 1));
    assert_eq!(t.line_cache[0], 1);
    let mut out = Vec::new();
    t.move_left(&mut out);
    assert_eq!(t.cursor.get_draw_cursor_position(), (3, 0));
    t.move_left(&mut out);
    t.move_left(&mut out);
    assert_eq!(t.cursor.get_draw_cursor_position(), (1, 0));
    assert!(out.is_empty());
    t.move_left(&mut out);
    assert_eq!(t.cursor.get_draw_cursor_position(), (3, 0));
    let expected = vec![
        li(0, 0, 0),
        li(1, 0, 0),
        li(2, 0, 0),
        li(2, 0, 3),
        li(1, 0, 2),
        li(0, 0, 1),
        li(0, 1, 0),
        li(1, 1, 0),
        li(2, 1, 0),
        li(0, 1, 4),
        li(1, 1, 5),
        li(2, 1, 6),
    ];
    assert_eq!(out, expected);
}

#[test]
fn redraw_before_cursor_top_line_paints_row_start() {
    let mut t = Typewriter::new(5, 2, 100);
    type_all(&mut t, &[1, 2, 3]);
    let mut out = Vec::new();
    t.redraw_before_cursor_top_line(&mut out);
    assert_eq!(out, vec![li(2, 0, 3), li(1, 0, 2), li(0, 0, 1)]);
    assert_eq!(t.cursor.get_draw_cursor_position(), (3, 0));
}

#[test]
fn clear_helpers_cover_their_cells() {
    let mut t = Typewriter::new(3, 3, 10);
    t.cursor.x = 1;
    t.cursor.y = 1;
    let mut out = Vec::new();
    t.clear_from_cursor(&mut out);
    assert_eq!(out, vec![li(1, 1, 0), li(2, 1, 0)]);
    let mut out = Vec::new();
    t.clear_to_cursor(&mut out);
    assert_eq!(out, vec![li(0, 1, 0), li(1, 1, 0)]);
    let mut out = Vec::new();
    t.clear_below_cursor(&mut out);
    assert_eq!(out, vec![li(0, 2, 0), li(1, 2, 0), li(2, 2, 0)]);
    let mut out = Vec::new();
    t.clear_above_cursor(&mut out);
    assert_eq!(out, vec![li(0, 0, 0), li(1, 0, 0), li(2, 0, 0)]);
}

#[test]
fn resolve_symbol_swaps_y_and_z() {
    assert_eq!(resolve_symbol(Key::Letter(24), false), Some('z'));
    assert_eq!(resolve_symbol(Key::Letter(25), false), Some('y'));
    assert_eq!(resolve_symbol(Key::Letter(24), true), Some('Z'));
    assert_eq!(resolve_symbol(Key::Letter(25), true), Some('Y'));
    assert_eq!(resolve_symbol(Key::Letter(0), true), Some('A'));
    assert_eq!(resolve_symbol(Key::Letter(2), false), Some('c'));
    assert_eq!(resolve_symbol(Key::Letter(26), false), None);
}

#[test]
fn resolve_symbol_other_keys() {
    assert_eq!(resolve_symbol(Key::Number(0), false), Some('0'));
    assert_eq!(resolve_symbol(Key::Number(7), false), Some('7'));
    assert_eq!(resolve_symbol(Key::Number(1), true), Some('!'));
    assert_eq!(resolve_symbol(Key::Number(2), true), Some('"'));
    assert_eq!(resolve_symbol(Key::Number(0), true), Some('='));
    assert_eq!(resolve_symbol(Key::Number(3), true), None);
    assert_eq!(resolve_symbol(Key::Space, true), Some(' '));
    assert_eq!(resolve_symbol(Key::Slash, false), Some('-'));
    assert_eq!(resolve_symbol(Key::Period, true), Some(':'));
    assert_eq!(resolve_symbol(Key::Backslash, true), Some('\''));
    assert_eq!(resolve_symbol(Key::RightBracket, false), Some('+'));
    assert_eq!(resolve_symbol(Key::RightBracket, true), Some('*'));
    assert_eq!(resolve_symbol(Key::Minus, true), Some('?'));
    assert_eq!(resolve_symbol(Key::Backspace, false), None);
}

#[test]
fn handle_input_types_and_edits() {
    let font = load_font(dummy_font_symbols()).unwrap();
    let mut t = Typewriter::new(5, 2, 100);
    let mut out = Vec::new();
    assert_eq!(t.handle_input(Key::Letter(0), false, &mut out, &font), Outcome::Applied);
    assert_eq!(out, vec![li(0, 0, 0), li(0, 0, 27)]);
    assert_eq!(t.handle_input(Key::Letter(0), true, &mut out, &font), Outcome::Applied);
    assert_eq!(out[3], li(1, 0, 1));
    assert_eq!(t.handle_input(Key::Other, false, &mut out, &font), Outcome::Ignored);
    assert_eq!(t.handle_input(Key::Return, false, &mut out, &font), Outcome::Applied);
    assert_eq!(t.cursor.get_draw_cursor_position(), (0, 1));
    assert_eq!(t.handle_input(Key::Left, false, &mut out, &font), Outcome::Applied);
    assert_eq!(t.cursor.get_draw_cursor_position(), (2, 0));
    assert_eq!(t.handle_input(Key::Right, false, &mut out, &font), Outcome::Applied);
    assert_eq!(t.cursor.get_draw_cursor_position(), (0, 1));
    assert_eq!(t.handle_input(Key::Backspace, false, &mut out, &font), Outcome::Applied);
    assert_eq!(t.cursor.get_draw_cursor_position(), (2, 0));
    assert_eq!(t.memory.content(), vec![27, 1]);
}

#[test]
fn handle_input_on_full_memory() {
    let font = load_font(dummy_font_symbols()).unwrap();
    let mut t = Typewriter::new(5, 2, 1);
    let mut out = Vec::new();
    assert_eq!(t.handle_input(Key::Space, false, &mut out, &font), Outcome::Applied);
    assert_eq!(out, vec![li(0, 0, 0), li(0, 0, 0)]);
    assert_eq!(t.handle_input(Key::Letter(1), false, &mut out, &font), Outcome::Rejected);
    assert_eq!(t.handle_input(Key::Return, false, &mut out, &font), Outcome::Rejected);
    assert_eq!(out.len(), 2);
}

#[test]
fn default_typewriter_uses_configured_grid() {
    let t = Typewriter::default();
    assert_eq!(t.cursor.width, typewriter::config::CHAR_WIDTH);
    assert_eq!(t.cursor.height, typewriter::config::CHAR_HEIGHT);
    assert_eq!(t.line_cache.len(), typewriter::config::CHAR_HEIGHT);
    assert!(!t.memory.memory_full());
}
