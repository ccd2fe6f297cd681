use typewriter::font::{caret_stroke, font_keys, letter_strokes, load_font, parse_font_description, FontError, Instruction, Shape, Stroke};

/// Builds a description line from its fields, most significant bit first
/// within each field, in the order the line is read from its end.
fn line(enable: bool, xs: &str, xe: &str, x_fill: bool, ys: &str, ye: &str, y_fill: bool, start: bool) -> String {
    let b = |v: bool| if v { "1" } else { "0" };
    let read_order = format!("{}{}{}{}{}{}{}{}", b(enable), xs, xe, b(x_fill), ys, ye, b(y_fill), b(start));
    assert_eq!(read_order.len(), 18);
    read_order.chars().rev().collect()
}

fn sample() -> Instruction {
    Instruction { clear: false, x_start: 1, x_fill: true, x_end: 3, y_start: 3, y_fill: false, y_end: 5 }
}

#[test]
fn parses_one_line_glyph() {
    let text = line(true, "001", "011", true, "0000", "0010", false, true);
    assert_eq!(text, "100100000011101001");
    let r = parse_font_description(text.as_bytes()).unwrap();
    assert_eq!(r, vec![vec![sample()]]);
}

#[test]
fn parses_glyphs_split_by_start_bits() {
    let a = line(true, "001", "011", true, "0000", "0010", false, true);
    let b = line(true, "100", "100", false, "1101", "0111", true, false);
    let c = line(true, "000", "000", false, "0000", "0000", false, true);
    let text = format!("{}\r\n000000000000000000\n{}\n{}\n", a, b, c);
    let r = parse_font_description(text.as_bytes()).unwrap();
    let second = Instruction { clear: false, x_start: 4, x_fill: false, x_end: 4, y_start: 0, y_fill: true, y_end: 10 };
    let third = Instruction { clear: false, x_start: 0, x_fill: false, x_end: 0, y_start: 3, y_fill: false, y_end: 3 };
    assert_eq!(r, vec![vec![sample(), second], vec![third]]);
}

#[test]
fn rejects_short_line() {
    let text = "10010000001110100";
    assert_eq!(parse_font_description(text.as_bytes()), Err(FontError::InvalidLineLength { line: 0 }));
}

#[test]
fn rejects_bad_character() {
    let good = line(true, "001", "011", true, "0000", "0010", false, true);
    let text = format!("{}\n10010000001110100x\n", good);
    assert_eq!(parse_font_description(text.as_bytes()), Err(FontError::InvalidCharacter { line: 1 }));
}

#[test]
fn rejects_x_out_of_bounds() {
    let text = line(true, "101", "011", false, "0000", "0010", false, true);
    assert_eq!(parse_font_description(text.as_bytes()), Err(FontError::XOutOfBounds { line: 0 }));
}

#[test]
fn rejects_y_out_of_bounds() {
    let text = line(true, "001", "011", false, "1000", "0010", false, true);
    assert_eq!(parse_font_description(text.as_bytes()), Err(FontError::YOutOfBounds { line: 0 }));
}

#[test]
fn rejects_inverted_line() {
    let text = line(false, "001", "011", false, "0000", "0010", false, true);
    assert_eq!(parse_font_description(text.as_bytes()), Err(FontError::Inverted { line: 0 }));
}

#[test]
fn rejects_fills_without_span() {
    let x = line(true, "010", "010", true, "0000", "0010", false, true);
    assert_eq!(parse_font_description(x.as_bytes()), Err(FontError::XFillWithoutSpan { line: 0 }));
    let y = line(true, "001", "010", false, "0011", "0011", true, true);
    assert_eq!(parse_font_description(y.as_bytes()), Err(FontError::YFillWithoutSpan { line: 0 }));
}

#[test]
fn rejects_step_before_start() {
    let text = line(true, "001", "011", true, "0000", "0010", false, false);
    assert_eq!(parse_font_description(text.as_bytes()), Err(FontError::MissingStart { line: 0 }));
}

#[test]
fn rejects_empty_description() {
    assert_eq!(parse_font_description(b""), Err(FontError::NoSymbols));
    assert_eq!(parse_font_description(b"000000000000000000\n"), Err(FontError::NoSymbols));
}

#[test]
fn load_font_assigns_ids_in_key_order() {
    let keys = font_keys();
    assert_eq!(keys.len(), 80);
    let symbols: Vec<Vec<Instruction>> = (0..80u32)
        .map(|i| vec![Instruction { clear: false, x_start: i % 5, x_fill: false, x_end: 0, y_start: 0, y_fill: false, y_end: 0 }])
        .collect();
    let font = load_font(symbols.clone()).unwrap();
    assert_eq!(font.highest_id, 80);
    assert_eq!(font.id_by_key(' '), Some(0));
    assert_eq!(font.id_by_key('A'), Some(1));
    assert_eq!(font.id_by_key('a'), Some(27));
    assert_eq!(font.id_by_key('\u{2191}'), Some(80));
    assert_eq!(font.id_by_key('#'), None);
    assert_eq!(font.key_by_id(53), Some('?'));
    assert_eq!(font.key_by_id(81), None);
    assert_eq!(font.symbol_by_id(3), Some(&symbols[2]));
    assert_eq!(font.symbol_by_id(0), Some(&font.space));
    assert!(font.space[0].clear);
}

#[test]
fn load_font_rejects_wrong_count() {
    let symbols = vec![vec![sample()]; 79];
    match load_font(symbols) {
        Err(e) => assert_eq!(e, FontError::WrongSymbolCount { expected: 80, got: 79 }),
        Ok(_) => panic!("a font with 79 glyphs was accepted"),
    }
}

fn step(x_start: u32, x_end: u32, x_fill: bool, y_start: u32, y_end: u32, y_fill: bool) -> Instruction {
    Instruction { clear: false, x_start, x_fill, x_end, y_start, y_fill, y_end }
}

#[test]
fn letter_strokes_place_primitives_in_cell() {
    // Cell (1, 0): origin at pixel (7, 11).
    let symbol = vec![
        step(0, 4, true, 0, 10, true),
        step(1, 3, true, 2, 2, false),
        step(1, 3, true, 2, 5, false),
        step(2, 2, false, 1, 6, true),
        step(0, 4, false, 1, 6, true),
        step(2, 2, false, 3, 3, false),
        step(1, 3, false, 4, 4, false),
        step(1, 3, false, 4, 6, false),
    ];
    let r = letter_strokes(&symbol, 1, 0);
    let l = |x1, y1, x2, y2| Stroke { clear: false, shape: Shape::Line { x1, y1, x2, y2 } };
    let d = |x, y| Stroke { clear: false, shape: Shape::Dot { x, y } };
    assert_eq!(
        r,
        vec![
            Stroke { clear: false, shape: Shape::Rect { x: 7, y: 1, w: 5, h: 11 } },
            l(8, 9, 10, 9),
            l(8, 9, 10, 9),
            l(8, 6, 10, 6),
            l(9, 10, 9, 5),
            l(7, 10, 7, 5),
            l(11, 10, 11, 5),
            d(9, 8),
            d(8, 7),
            d(10, 7),
            d(8, 7),
            d(10, 5),
            d(8, 5),
            d(10, 7),
        ]
    );
}

#[test]
fn letter_strokes_keep_clear_flag() {
    let space = vec![Instruction { clear: true, x_start: 0, x_fill: true, x_end: 4, y_start: 0, y_fill: true, y_end: 10 }];
    let r = letter_strokes(&space, 0, 1);
    assert_eq!(r, vec![Stroke { clear: true, shape: Shape::Rect { x: 1, y: 13, w: 5, h: 11 } }]);
}

#[test]
fn caret_stroke_marks_cell_left_edge() {
    assert_eq!(
        caret_stroke(2, 1),
        Stroke { clear: false, shape: Shape::Line { x1: 12, y1: 20, x2: 12, y2: 13 } }
    );
}
