use vstd::prelude::*;

verus! {

/// One drawing step of a glyph, in glyph-local pixel coordinates: a point,
/// a line, two lines or a filled rectangle between (`x_start`, `y_start`)
/// and (`x_end`, `y_end`), painted in the background colour when `clear`.
#[derive(Clone, Copy, Debug, PartialEq, Eq, Structural)]
pub struct Instruction {
    pub clear: bool,
    pub x_start: u32,
    pub x_fill: bool,
    pub x_end: u32,
    pub y_start: u32,
    pub y_fill: bool,
    pub y_end: u32,
}

/// The drawing steps of one glyph.
pub type SymbolDescription = Vec<Instruction>;

/// Why a font could not be built. `line` counts the lines of the font
/// description from 0.
#[derive(Clone, Copy, Debug, PartialEq, Eq, Structural)]
pub enum FontError {
    /// The number of glyph descriptions differs from the number of keys.
    WrongSymbolCount { expected: usize, got: usize },
    /// A line is not 18 characters long.
    InvalidLineLength { line: usize },
    /// A line holds a character other than `0` and `1`.
    InvalidCharacter { line: usize },
    /// An x coordinate exceeds 4.
    XOutOfBounds { line: usize },
    /// A y coordinate lies outside -3..=7.
    YOutOfBounds { line: usize },
    /// The enable bit is clear: inverted drawing is not supported.
    Inverted { line: usize },
    /// An x fill whose start and end coincide.
    XFillWithoutSpan { line: usize },
    /// A y fill whose start and end coincide.
    YFillWithoutSpan { line: usize },
    /// A drawing step comes before any glyph start.
    MissingStart { line: usize },
    /// The description holds no glyph.
    NoSymbols,
}

/// What one line of a font description says.
#[derive(Clone, Copy, Debug, PartialEq, Eq, Structural)]
pub enum LineKind {
    /// An all-zero line, which says nothing.
    Skip,
    /// A drawing step; `start` opens a new glyph.
    Draw { start: bool, ins: Instruction },
}

/// Bit `i` of a description line, counted from its last character.
pub open spec fn rbit(l: Seq<u8>, i: int) -> int {
    if l[17 - i] == 0x31 {
        1
    } else {
        0
    }
}

/// A 4-bit two's complement value.
pub open spec fn signed4(v: int) -> int {
    if v >= 8 {
        v - 16
    } else {
        v
    }
}

/// Decoding of one description line `l` (line number `n`): 18 characters
/// `0`/`1`, read from the last one backward as enable bit, 3-bit x start,
/// 3-bit x end, x fill bit, 4-bit signed y start, 4-bit signed y end, y fill
/// bit and glyph start bit; y is stored shifted up by 3.
pub open spec fn decode_line(l: Seq<u8>, n: usize) -> Result<LineKind, FontError> {
    let xs = 4 * rbit(l, 1) + 2 * rbit(l, 2) + rbit(l, 3);
    let xe = 4 * rbit(l, 4) + 2 * rbit(l, 5) + rbit(l, 6);
    let ys = signed4(8 * rbit(l, 8) + 4 * rbit(l, 9) + 2 * rbit(l, 10) + rbit(l, 11));
    let ye = signed4(8 * rbit(l, 12) + 4 * rbit(l, 13) + 2 * rbit(l, 14) + rbit(l, 15));
    let x_fill = rbit(l, 7) == 1;
    let y_fill = rbit(l, 16) == 1;
    if l.len() != 18 {
        Err(FontError::InvalidLineLength { line: n })
    } else if exists|i: int| 0 <= i < 18 && l[i] != 0x30 && l[i] != 0x31 {
        Err(FontError::InvalidCharacter { line: n })
    } else if forall|i: int| 0 <= i < 18 ==> l[i] == 0x30 {
        Ok(LineKind::Skip)
    } else if xs > 4 || xe > 4 {
        Err(FontError::XOutOfBounds { line: n })
    } else if ys > 7 || ys < -3 || ye > 7 || ye < -3 {
        Err(FontError::YOutOfBounds { line: n })
    } else if rbit(l, 0) == 0 {
        Err(FontError::Inverted { line: n })
    } else if x_fill && xs == xe {
        Err(FontError::XFillWithoutSpan { line: n })
    } else if y_fill && ys == ye {
        Err(FontError::YFillWithoutSpan { line: n })
    } else {
        Ok(
            LineKind::Draw {
                start: rbit(l, 17) == 1,
                ins: Instruction {
                    clear: false,
                    x_start: xs as u32,
                    x_fill,
                    x_end: xe as u32,
                    y_start: (ys + 3) as u32,
                    y_fill,
                    y_end: (ye + 3) as u32,
                },
            },
        )
    }
}

/// Position of the first line feed of `text` at or after `p` (the length
/// of `text` when there is none).
pub open spec fn next_newline(text: Seq<u8>, p: nat) -> nat
    decreases text.len() - p,
{
    if p >= text.len() || text[p as int] == 0x0a {
        p
    } else {
        next_newline(text, p + 1)
    }
}

/// The line that starts at `p` and ends at the line feed at `e`, without a
/// carriage return before it.
pub open spec fn line_at(text: Seq<u8>, p: nat, e: nat) -> Seq<u8> {
    if e > p && text[e - 1] == 0x0d {
        text.subrange(p as int, e - 1)
    } else {
        text.subrange(p as int, e as int)
    }
}

/// Glyph descriptions of `text` from position `p` on, which is the start of
/// line `n`; `done` holds the glyphs already closed and `cur` the one being
/// read.
pub open spec fn parse_from(
    text: Seq<u8>,
    p: nat,
    n: nat,
    done: Seq<Seq<Instruction>>,
    cur: Option<Seq<Instruction>>,
) -> Result<Seq<Seq<Instruction>>, FontError>
    decreases text.len() + 1 - p,
    via parse_from_decreases
{
    if p >= text.len() {
        match cur {
            Some(c) => Ok(done.push(c)),
            None => Err(FontError::NoSymbols),
        }
    } else {
        let e = next_newline(text, p);
        match decode_line(line_at(text, p, e), n as usize) {
            Err(err) => Err(err),
            Ok(LineKind::Skip) => parse_from(text, e + 1, n + 1, done, cur),
            Ok(LineKind::Draw { start, ins }) => if start {
                parse_from(
                    text,
                    e + 1,
                    n + 1,
                    match cur {
                        Some(c) => done.push(c),
                        None => done,
                    },
                    Some(seq![ins]),
                )
            } else {
                match cur {
                    Some(c) => parse_from(text, e + 1, n + 1, done, Some(c.push(ins))),
                    None => Err(FontError::MissingStart { line: n as usize }),
                }
            },
        }
    }
}

/// Bit `k` of the description line at `text[p..p + 18]`, counted from its
/// last character.
fn rev_bit(text: &[u8], p: usize, k: usize) -> (r: u32)
    requires
        p + 18 <= text@.len() <= usize::MAX,
        k < 18,
    ensures
        r == rbit(text@.subrange(p as int, p + 18), k as int),
{
    if text[p + (17 - k)] == 0x31 {
        1
    } else {
        0
    }
}

proof fn lemma_next_newline(text: Seq<u8>, p: nat)
    ensures
        p <= next_newline(text, p) <= (if p <= text.len() { text.len() } else { p }),
        next_newline(text, p) < text.len() ==> text[next_newline(text, p) as int] == 0x0a,
        forall|q: int| p <= q < next_newline(text, p) ==> text[q] != 0x0a,
    decreases text.len() - p,
{
    if p < text.len() && text[p as int] != 0x0a {
        lemma_next_newline(text, p + 1);
    }
}

#[via_fn]
proof fn parse_from_decreases(
    text: Seq<u8>,
    p: nat,
    n: nat,
    done: Seq<Seq<Instruction>>,
    cur: Option<Seq<Instruction>>,
) {
    lemma_next_newline(text, p);
}

/// Decodes the description line `text[p..e]`, line number `n`.
fn decode_line_at(text: &[u8], p: usize, e: usize, n: usize) -> (r: Result<LineKind, FontError>)
    requires
        p <= e <= text@.len() <= usize::MAX,
    ensures
        r == decode_line(text@.subrange(p as int, e as int), n),
{
    let ghost l = text@.subrange(p as int, e as int);
    if e - p != 18 {
        return Err(FontError::InvalidLineLength { line: n });
    }
    let mut i: usize = 0;
    let mut is_empty = true;
    while i < 18
        invariant
            e == p + 18,
            e <= text@.len() <= usize::MAX,
            l == text@.subrange(p as int, e as int),
            i <= 18,
            forall|j: int| 0 <= j < i ==> l[j] == 0x30 || l[j] == 0x31,
            is_empty == (forall|j: int| 0 <= j < i ==> l[j] == 0x30),
        decreases 18 - i,
    {
        let c = text[p + i];
        assert(l[i as int] == c);
        if c != 0x30 && c != 0x31 {
            return Err(FontError::InvalidCharacter { line: n });
        }
        if c == 0x31 {
            is_empty = false;
        }
        i = i + 1;
    }
    if is_empty {
        return Ok(LineKind::Skip);
    }
    let xs: u32 = 4 * rev_bit(text, p, 1) + 2 * rev_bit(text, p, 2) + rev_bit(text, p, 3);
    let xe: u32 = 4 * rev_bit(text, p, 4) + 2 * rev_bit(text, p, 5) + rev_bit(text, p, 6);
    let ys_raw: i32 = (8 * rev_bit(text, p, 8) + 4 * rev_bit(text, p, 9) + 2 * rev_bit(text, p, 10) + rev_bit(text, p, 11)) as i32;
    let ye_raw: i32 = (8 * rev_bit(text, p, 12) + 4 * rev_bit(text, p, 13) + 2 * rev_bit(text, p, 14) + rev_bit(text, p, 15)) as i32;
    let ys: i32 = if ys_raw >= 8 { ys_raw - 16 } else { ys_raw };
    let ye: i32 = if ye_raw >= 8 { ye_raw - 16 } else { ye_raw };
    let x_fill = rev_bit(text, p, 7) == 1;
    let y_fill = rev_bit(text, p, 16) == 1;
    if xs > 4 || xe > 4 {
        return Err(FontError::XOutOfBounds { line: n });
    }
    if ys > 7 || ys < -3 || ye > 7 || ye < -3 {
        return Err(FontError::YOutOfBounds { line: n });
    }
    if rev_bit(text, p, 0) == 0 {
        return Err(FontError::Inverted { line: n });
    }
    if x_fill && xs == xe {
        return Err(FontError::XFillWithoutSpan { line: n });
    }
    if y_fill && ys == ye {
        return Err(FontError::YFillWithoutSpan { line: n });
    }
    Ok(
        LineKind::Draw {
            start: rev_bit(text, p, 17) == 1,
            ins: Instruction {
                clear: false,
                x_start: xs,
                x_fill,
                x_end: xe,
                y_start: (ys + 3) as u32,
                y_fill,
                y_end: (ye + 3) as u32,
            },
        },
    )
}

/// The characters that a font file describes, in file order; glyph `i + 1`
/// draws `key_order()[i]` and glyph 0 is the blank.
pub open spec fn key_order() -> Seq<char> {
    seq![
        'A', 'B', 'C', 'D', 'E', 'F', 'G', 'H', 'I', 'J', 'K', 'L', 'M',
        'N', 'O', 'P', 'Q', 'R', 'S', 'T', 'U', 'V', 'W', 'X', 'Y', 'Z',
        'a', 'b', 'c', 'd', 'e', 'f', 'g', 'h', 'i', 'j', 'k', 'l', 'm',
        'n', 'o', 'p', 'q', 'r', 's', 't', 'u', 'v', 'w', 'x', 'y', 'z',
        '?', '!', '.', ',', ':', '\'', '"', '0', '1', '2', '3', '4', '5',
        '6', '7', '8', '9', '+', '-', '*', '/', '=', '(', ')', '\u{2192}', '\u{2190}',
        '\u{2193}', '\u{2191}',
    ]
}

/// The characters that a font file describes, in file order.
pub fn font_keys() -> (r: Vec<char>)
    ensures
        r@ == key_order(),
{
    vec![
        'A', 'B', 'C', 'D', 'E', 'F', 'G', 'H', 'I', 'J', 'K', 'L', 'M',
        'N', 'O', 'P', 'Q', 'R', 'S', 'T', 'U', 'V', 'W', 'X', 'Y', 'Z',
        'a', 'b', 'c', 'd', 'e', 'f', 'g', 'h', 'i', 'j', 'k', 'l', 'm',
        'n', 'o', 'p', 'q', 'r', 's', 't', 'u', 'v', 'w', 'x', 'y', 'z',
        '?', '!', '.', ',', ':', '\'', '"', '0', '1', '2', '3', '4', '5',
        '6', '7', '8', '9', '+', '-', '*', '/', '=', '(', ')', '\u{2192}', '\u{2190}',
        '\u{2193}', '\u{2191}',
    ]
}

/// The blank glyph: one filled rectangle in the background colour over the
/// whole cell.
pub open spec fn space_symbol() -> Seq<Instruction> {
    seq![Instruction { clear: true, x_start: 0, x_fill: true, x_end: 4, y_start: 0, y_fill: true, y_end: 10 }]
}

/// Glyphs by id, with the character that each one draws.
pub struct Font {
    pub space: SymbolDescription,
    pub symbols_by_id: Vec<SymbolDescription>,
    pub keys_by_id: Vec<char>,
    pub highest_id: u8,
}

impl Font {
    /// One character per glyph, ids fit in a byte.
    pub open spec fn wf(&self) -> bool {
        &&& self.symbols_by_id@.len() == self.keys_by_id@.len()
        &&& self.keys_by_id@.len() == self.highest_id + 1
    }

    /// Whether `i` is the first id whose glyph draws `c`.
    pub open spec fn first_id_of(&self, c: char, i: int) -> bool {
        &&& 0 <= i < self.keys_by_id@.len()
        &&& self.keys_by_id@[i] == c
        &&& forall|j: int| 0 <= j < i ==> self.keys_by_id@[j] != c
    }

    /// The glyph id of `c` (the first one, should two glyphs draw it), if the
    /// font draws it.
    pub open spec fn glyph_of(&self, c: char) -> Option<u8> {
        if exists|i: int| 0 <= i < self.keys_by_id@.len() && self.keys_by_id@[i] == c {
            Some((choose|i: int| self.first_id_of(c, i)) as u8)
        } else {
            None
        }
    }

    /// The glyph id of `c`, if the font draws it.
    pub fn id_by_key(&self, c: char) -> (r: Option<u8>)
        requires
            self.wf(),
        ensures
            r == self.glyph_of(c),
    {
        let mut i: usize = 0;
        while i < self.keys_by_id.len()
            invariant
                self.wf(),
                i <= self.keys_by_id@.len(),
                forall|j: int| 0 <= j < i ==> self.keys_by_id@[j] != c,
            decreases self.keys_by_id@.len() - i,
        {
            if self.keys_by_id[i] == c {
                assert(self.first_id_of(c, i as int));
                let ghost k = choose|k: int| self.first_id_of(c, k);
                assert(k == i);
                return Some(i as u8);
            }
            i = i + 1;
        }
        None
    }

    /// The character that glyph `id` draws.
    pub fn key_by_id(&self, id: u8) -> (r: Option<char>)
        requires
            self.wf(),
        ensures
            r == (if id < self.keys_by_id@.len() {
                Some(self.keys_by_id@[id as int])
            } else {
                None
            }),
    {
        if (id as usize) < self.keys_by_id.len() {
            Some(self.keys_by_id[id as usize])
        } else {
            None
        }
    }

    /// The drawing steps of glyph `id`.
    pub fn symbol_by_id(&self, id: u8) -> (r: Option<&SymbolDescription>)
        requires
            self.wf(),
        ensures
            r == (if id < self.symbols_by_id@.len() {
                Some(&self.symbols_by_id@[id as int])
            } else {
                None
            }),
    {
        if (id as usize) < self.symbols_by_id.len() {
            Some(&self.symbols_by_id[id as usize])
        } else {
            None
        }
    }
}

/// Builds a font from one glyph description per character of `font_keys`,
/// in that order; the blank gets id 0 and the `i`-th description id `i + 1`.
pub fn load_font(symbol_instructions: Vec<SymbolDescription>) -> (r: Result<Font, FontError>)
    ensures
        symbol_instructions@.len() != key_order().len() <==> r is Err,
        r is Err ==> r == Err::<Font, FontError>(FontError::WrongSymbolCount { expected: key_order().len() as usize, got: symbol_instructions@.len() as usize }),
        r matches Ok(f) ==> {
            &&& f.wf()
            &&& f.space@ == space_symbol()
            &&& f.highest_id == key_order().len()
            &&& f.keys_by_id@ == seq![' '] + key_order()
            &&& f.symbols_by_id@[0]@ == space_symbol()
            &&& forall|i: int| 0 <= i < key_order().len() ==> #[trigger] f.symbols_by_id@[i + 1] == symbol_instructions@[i]
        },
{
    let keys = font_keys();
    if symbol_instructions.len() != keys.len() {
        return Err(FontError::WrongSymbolCount { expected: keys.len(), got: symbol_instructions.len() });
    }
    let space = vec![Instruction { clear: true, x_start: 0, x_fill: true, x_end: 4, y_start: 0, y_fill: true, y_end: 10 }];
    let ghost given = symbol_instructions@;
    let mut rest = symbol_instructions;
    let mut keys = keys;
    let mut symbols_by_id: Vec<SymbolDescription> = Vec::new();
    let mut keys_by_id: Vec<char> = Vec::new();
    symbols_by_id.push(vec![Instruction { clear: true, x_start: 0, x_fill: true, x_end: 4, y_start: 0, y_fill: true, y_end: 10 }]);
    keys_by_id.push(' ');
    let highest_id = keys.len() as u8;
    symbols_by_id.append(&mut rest);
    keys_by_id.append(&mut keys);
    let font = Font { space, symbols_by_id, keys_by_id, highest_id };
    assert(font.keys_by_id@ =~= seq![' '] + key_order());
    assert forall|i: int| 0 <= i < key_order().len() implies #[trigger] font.symbols_by_id@[i + 1] == given[i] by {
    }
    Ok(font)
}

/// The glyph descriptions of `v` as sequences.
pub open spec fn symbols_view(v: Seq<Vec<Instruction>>) -> Seq<Seq<Instruction>> {
    v.map_values(|x: Vec<Instruction>| x@)
}

/// The glyph description being read, as a sequence.
pub open spec fn symbol_view(c: Option<Vec<Instruction>>) -> Option<Seq<Instruction>> {
    match c {
        Some(v) => Some(v@),
        None => None,
    }
}

/// Reads a font description: one drawing step per line, a glyph starting at
/// each line whose start bit is set; all-zero lines say nothing. Lines end
/// with a line feed, optionally after a carriage return.
pub fn parse_font_description(text: &[u8]) -> (r: Result<Vec<SymbolDescription>, FontError>)
    ensures
        r matches Ok(v) ==> parse_from(text@, 0, 0, Seq::empty(), None) == Ok::<
            Seq<Seq<Instruction>>,
            FontError,
        >(symbols_view(v@)),
        r matches Err(err) ==> parse_from(text@, 0, 0, Seq::empty(), None) == Err::<
            Seq<Seq<Instruction>>,
            FontError,
        >(err),
{
    let ghost target = parse_from(text@, 0, 0, Seq::empty(), None);
    let len = text.len();
    let mut p: usize = 0;
    let mut n: usize = 0;
    let mut done: Vec<SymbolDescription> = Vec::new();
    let mut cur: Option<SymbolDescription> = None;
    assert(symbols_view(done@) =~= Seq::empty());
    while p < len
        invariant
            len == text@.len(),
            p <= len,
            n <= p,
            parse_from(text@, p as nat, n as nat, symbols_view(done@), symbol_view(cur)) == target,
            target == parse_from(text@, 0, 0, Seq::empty(), None),
        decreases len - p,
    {
        let ghost d0 = symbols_view(done@);
        let ghost c0 = symbol_view(cur);
        let mut e: usize = p;
        proof {
            lemma_next_newline(text@, p as nat);
        }
        while e < len && text[e] != 0x0a
            invariant
                len == text@.len(),
                p <= e <= len,
                next_newline(text@, e as nat) == next_newline(text@, p as nat),
            decreases len - e,
        {
            e = e + 1;
        }
        assert(next_newline(text@, e as nat) == e);
        assert(e == next_newline(text@, p as nat));
        let content_end: usize = if e > p && text[e - 1] == 0x0d {
            e - 1
        } else {
            e
        };
        assert(text@.subrange(p as int, content_end as int) == line_at(text@, p as nat, e as nat));
        match decode_line_at(text, p, content_end, n) {
            Err(err) => {
                assert(target == Err::<Seq<Seq<Instruction>>, FontError>(err));
                return Err(err);
            },
            Ok(LineKind::Skip) => {},
            Ok(LineKind::Draw { start, ins }) => {
                if start {
                    match cur {
                        Some(c) => {
                            done.push(c);
                        },
                        None => {},
                    }
                    cur = Some(vec![ins]);
                    assert(symbols_view(done@) =~= (match c0 {
                        Some(c) => d0.push(c),
                        None => d0,
                    }));
                    assert(symbol_view(cur) == Some(seq![ins]));
                } else {
                    match cur {
                        Some(c) => {
                            let mut c = c;
                            c.push(ins);
                            cur = Some(c);
                        },
                        None => {
                            assert(target == Err::<Seq<Seq<Instruction>>, FontError>(
                                FontError::MissingStart { line: n },
                            ));
                            return Err(FontError::MissingStart { line: n });
                        },
                    }
                }
            },
        }
        let ghost next = parse_from(
            text@,
            (e + 1) as nat,
            (n + 1) as nat,
            symbols_view(done@),
            symbol_view(cur),
        );
        assert(next == target);
        if e < len {
            p = e + 1;
        } else {
            p = len;
        }
        n = n + 1;
        assert(parse_from(text@, p as nat, n as nat, symbols_view(done@), symbol_view(cur)) == next);
    }
    let ghost d = symbols_view(done@);
    assert(target == parse_from(text@, p as nat, n as nat, d, symbol_view(cur)));
    match cur {
        Some(c) => {
            let ghost cv = c@;
            done.push(c);
            assert(symbols_view(done@) =~= d.push(cv));
            Ok(done)
        },
        None => Err(FontError::NoSymbols),
    }
}

/// A drawing primitive in canvas pixels.
#[derive(Clone, Copy, Debug, PartialEq, Eq, Structural)]
pub enum Shape {
    /// A filled rectangle with top-left corner (`x`, `y`).
    Rect { x: i64, y: i64, w: i64, h: i64 },
    Line { x1: i64, y1: i64, x2: i64, y2: i64 },
    Dot { x: i64, y: i64 },
}

/// A primitive painted in the background colour when `clear`, else in the
/// foreground colour.
#[derive(Clone, Copy, Debug, PartialEq, Eq, Structural)]
pub struct Stroke {
    pub clear: bool,
    pub shape: Shape,
}

/// A line between two canvas pixels.
pub open spec fn line(clear: bool, x1: int, y1: int, x2: int, y2: int) -> Stroke {
    Stroke { clear, shape: Shape::Line { x1: x1 as i64, y1: y1 as i64, x2: x2 as i64, y2: y2 as i64 } }
}

/// A single canvas pixel.
pub open spec fn dot(clear: bool, x: int, y: int) -> Stroke {
    Stroke { clear, shape: Shape::Dot { x: x as i64, y: y as i64 } }
}

/// The primitives of one drawing step whose glyph origin is (`xo`, `yo`);
/// glyph y grows upward. Both fills make a rectangle; one fill makes a line,
/// or two parallel lines when the other axis spans; no fill marks the
/// corner points, one or two when the step is flat.
pub open spec fn op_strokes(op: Instruction, xo: int, yo: int) -> Seq<Stroke> {
    let (xs, xe, ys, ye) = (op.x_start as int, op.x_end as int, op.y_start as int, op.y_end as int);
    let c = op.clear;
    if op.x_fill && op.y_fill {
        seq![Stroke { clear: c, shape: Shape::Rect { x: (xo + xs) as i64, y: (yo - ys - 10) as i64, w: (xe - xs + 1) as i64, h: (ye - ys + 1) as i64 } }]
    } else if op.x_fill {
        if ys == ye {
            seq![line(c, xo + xs, yo - ys, xo + xe, yo - ye)]
        } else {
            seq![line(c, xo + xs, yo - ys, xo + xe, yo - ys), line(c, xo + xs, yo - ye, xo + xe, yo - ye)]
        }
    } else if op.y_fill {
        if xs == xe {
            seq![line(c, xo + xs, yo - ys, xo + xe, yo - ye)]
        } else {
            seq![line(c, xo + xs, yo - ys, xo + xs, yo - ye), line(c, xo + xe, yo - ys, xo + xe, yo - ye)]
        }
    } else if xs == xe && ys == ye {
        seq![dot(c, xo + xs, yo - ys)]
    } else if xs == xe || ys == ye {
        seq![dot(c, xo + xs, yo - ys), dot(c, xo + xe, yo - ye)]
    } else {
        seq![dot(c, xo + xs, yo - ys), dot(c, xo + xe, yo - ye), dot(c, xo + xs, yo - ye), dot(c, xo + xe, yo - ys)]
    }
}

/// The primitives of the drawing steps `ops`, in order.
pub open spec fn strokes_of(ops: Seq<Instruction>, xo: int, yo: int) -> Seq<Stroke>
    decreases ops.len(),
{
    if ops.len() == 0 {
        Seq::empty()
    } else {
        strokes_of(ops.drop_last(), xo, yo) + op_strokes(ops.last(), xo, yo)
    }
}

/// Canvas pixel of the glyph origin of cell (`x`, `y`): cells are 6 pixels
/// wide and 12 high, behind a 1-pixel border, and the origin is the cell's
/// bottom-left pixel.
pub open spec fn cell_origin(x: nat, y: nat) -> (int, int) {
    ((x * 6 + 1) as int, (y * 12 + 11) as int)
}

fn push_line(out: &mut Vec<Stroke>, clear: bool, x1: i64, y1: i64, x2: i64, y2: i64)
    ensures
        final(out)@ == old(out)@.push(line(clear, x1 as int, y1 as int, x2 as int, y2 as int)),
{
    out.push(Stroke { clear, shape: Shape::Line { x1, y1, x2, y2 } });
}

fn push_dot(out: &mut Vec<Stroke>, clear: bool, x: i64, y: i64)
    ensures
        final(out)@ == old(out)@.push(dot(clear, x as int, y as int)),
{
    out.push(Stroke { clear, shape: Shape::Dot { x, y } });
}

/// The primitives that draw glyph `symbol` into cell (`x`, `y`).
pub fn letter_strokes(symbol: &Vec<Instruction>, x: usize, y: usize) -> (r: Vec<Stroke>)
    requires
        x < 0x1_0000_0000,
        y < 0x1_0000_0000,
    ensures
        r@ == strokes_of(symbol@, cell_origin(x as nat, y as nat).0, cell_origin(x as nat, y as nat).1),
{
    let xo: i64 = x as i64 * 6 + 1;
    let yo: i64 = y as i64 * 12 + 11;
    let ghost ops = symbol@;
    let mut out: Vec<Stroke> = Vec::new();
    let mut i: usize = 0;
    assert(ops.take(0) =~= Seq::empty());
    while i < symbol.len()
        invariant
            ops == symbol@,
            i <= ops.len(),
            xo == cell_origin(x as nat, y as nat).0,
            yo == cell_origin(x as nat, y as nat).1,
            0 < xo < 0x10_0000_0000,
            0 < yo < 0x100_0000_0000,
            out@ == strokes_of(ops.take(i as int), xo as int, yo as int),
        decreases ops.len() - i,
    {
        let op = symbol[i];
        let xs = op.x_start as i64;
        let xe = op.x_end as i64;
        let ys = op.y_start as i64;
        let ye = op.y_end as i64;
        let c = op.clear;
        let ghost prev = out@;
        if op.x_fill && op.y_fill {
            out.push(Stroke { clear: c, shape: Shape::Rect { x: xo + xs, y: yo - ys - 10, w: xe - xs + 1, h: ye - ys + 1 } });
        } else if op.x_fill {
            if ys == ye {
                push_line(&mut out, c, xo + xs, yo - ys, xo + xe, yo - ye);
            } else {
                push_line(&mut out, c, xo + xs, yo - ys, xo + xe, yo - ys);
                push_line(&mut out, c, xo + xs, yo - ye, xo + xe, yo - ye);
            }
        } else if op.y_fill {
            if xs == xe {
                push_line(&mut out, c, xo + xs, yo - ys, xo + xe, yo - ye);
            } else {
                push_line(&mut out, c, xo + xs, yo - ys, xo + xs, yo - ye);
                push_line(&mut out, c, xo + xe, yo - ys, xo + xe, yo - ye);
            }
        } else if xs == xe && ys == ye {
            push_dot(&mut out, c, xo + xs, yo - ys);
        } else if xs == xe || ys == ye {
            push_dot(&mut out, c, xo + xs, yo - ys);
            push_dot(&mut out, c, xo + xe, yo - ye);
        } else {
            push_dot(&mut out, c, xo + xs, yo - ys);
            push_dot(&mut out, c, xo + xe, yo - ye);
            push_dot(&mut out, c, xo + xs, yo - ye);
            push_dot(&mut out, c, xo + xe, yo - ys);
        }
        assert(out@ =~= prev + op_strokes(op, xo as int, yo as int));
        assert(ops.take(i + 1).drop_last() =~= ops.take(i as int));
        i = i + 1;
    }
    assert(ops.take(ops.len() as int) =~= ops);
    out
}

/// The caret of cell column `x`, row `y`: a vertical line on the cell's left
/// edge, from 3 to 10 pixels above the cell's bottom.
pub fn caret_stroke(x: usize, y: usize) -> (r: Stroke)
    requires
        x < 0x1_0000_0000,
        y < 0x1_0000_0000,
    ensures
        r == line(false, x * 6, y * 12 + 11 - 3, x * 6, y * 12 + 11 - 10),
{
    let xo: i64 = x as i64 * 6;
    let yo: i64 = y as i64 * 12 + 11;
    Stroke { clear: false, shape: Shape::Line { x1: xo, y1: yo - 3, x2: xo, y2: yo - 10 } }
}

} // verus!
