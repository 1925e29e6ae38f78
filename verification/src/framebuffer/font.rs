//! A 9 by 15 pixel font, kept as one packed picture of all its characters.
//!
//! The picture is 144 pixels wide and 90 high: sixteen characters to a row,
//! six rows, starting with the space. It is stored row by row, eight pixels
//! to a byte, leftmost pixel in the highest bit.

use vstd::prelude::*;

verus! {

/// Bytes in the packed picture.
pub const RAW_LEN: usize = 1620;

/// Bytes in one row of the packed picture.
pub const RAW_ROW: usize = 18;

/// Width of the picture in pixels.
pub const MAP_WIDTH: usize = 144;

/// Height of the picture in pixels.
pub const MAP_HEIGHT: usize = 90;

/// Width of a character in pixels.
pub const CHAR_WIDTH: usize = 9;

/// Height of a character in pixels.
pub const CHAR_HEIGHT: usize = 15;

/// Characters in one row of the picture.
pub const CHARS_PER_ROW: usize = 16;

/// The first character of the font.
pub const FIRST_CHAR: u32 = 32;

/// The character after the last of the font.
pub const END_CHAR: u32 = 127;

/// The pixel in column `col` of row `row` of the packed picture: one if set,
/// zero if not.
pub open spec fn pixel(raw: Seq<u8>, row: int, col: int) -> u8 {
    (raw[row * RAW_ROW + col / 8] >> ((7 - col % 8) as u8)) & 1
}

/// Whether the font has the character `c`.
pub open spec fn printable(c: char) -> bool {
    FIRST_CHAR <= c as u32 && (c as u32) < END_CHAR
}

/// Row of the picture in which the character `c` starts.
pub open spec fn top(c: char) -> int {
    (c as u32 - FIRST_CHAR) / CHARS_PER_ROW as int * CHAR_HEIGHT
}

/// Column of the picture in which the character `c` starts.
pub open spec fn left(c: char) -> int {
    (c as u32 - FIRST_CHAR) % CHARS_PER_ROW as int * CHAR_WIDTH
}

/// The unpacked picture: one byte per pixel.
#[derive(Debug)]
pub struct Bitmap {
    map: Vec<Vec<u8>>,
}

impl View for Bitmap {
    type V = Seq<Seq<u8>>;

    closed spec fn view(&self) -> Seq<Seq<u8>> {
        Seq::new(self.map@.len(), |row: int| self.map@[row]@)
    }
}

impl Bitmap {
    #[verifier::type_invariant]
    spec fn well_formed(self) -> bool {
        &&& self.map@.len() == MAP_HEIGHT
        &&& forall|row: int| 0 <= row < MAP_HEIGHT ==> (#[trigger] self.map@[row])@.len() == MAP_WIDTH
    }

    /// The pixel in column `col` of row `row`.
    pub fn get(&self, row: usize, col: usize) -> (value: u8)
        requires
            row < MAP_HEIGHT,
            col < MAP_WIDTH,
        ensures
            value == self@[row as int][col as int],
    {
        proof {
            use_type_invariant(self);
        }
        self.map[row][col]
    }
}

/// The pixels of the character `c`, fifteen rows of nine, cut out of the
/// picture; `None` for a character the font does not have.
pub fn get_bitmap(bitmap: &Bitmap, c: char) -> (cut: Option<Vec<Vec<u8>>>)
    ensures
        cut is Some <==> printable(c),
        cut matches Some(rows) ==> {
            &&& rows@.len() == CHAR_HEIGHT
            &&& forall|r: int|
                0 <= r < CHAR_HEIGHT ==> (#[trigger] rows@[r])@ == bitmap@[top(c) + r].subrange(
                    left(c),
                    left(c) + CHAR_WIDTH,
                )
        },
{
    proof {
        use_type_invariant(bitmap);
    }
    let code: u32 = c as u32;
    if code < FIRST_CHAR || code >= END_CHAR {
        return None;
    }
    let i: usize = (code - FIRST_CHAR) as usize;
    let row: usize = i / CHARS_PER_ROW * CHAR_HEIGHT;
    let col: usize = i % CHARS_PER_ROW * CHAR_WIDTH;
    let mut rows: Vec<Vec<u8>> = Vec::new();
    let mut r: usize = 0;
    while r < CHAR_HEIGHT
        invariant
            0 <= r <= CHAR_HEIGHT,
            row == top(c),
            col == left(c),
            row + CHAR_HEIGHT <= MAP_HEIGHT,
            col + CHAR_WIDTH <= MAP_WIDTH,
            bitmap.map@.len() == MAP_HEIGHT,
            forall|y: int| 0 <= y < MAP_HEIGHT ==> (#[trigger] bitmap.map@[y])@.len() == MAP_WIDTH,
            rows@.len() == r,
            forall|y: int|
                0 <= y < r ==> (#[trigger] rows@[y])@ == bitmap@[top(c) + y].subrange(
                    left(c),
                    left(c) + CHAR_WIDTH,
                ),
        decreases CHAR_HEIGHT - r,
    {
        let source = &bitmap.map[row + r];
        let mut line: Vec<u8> = Vec::new();
        let mut k: usize = 0;
        while k < CHAR_WIDTH
            invariant
                0 <= k <= CHAR_WIDTH,
                col + CHAR_WIDTH <= MAP_WIDTH,
                source@.len() == MAP_WIDTH,
                line@ == source@.subrange(col as int, col + k),
            decreases CHAR_WIDTH - k,
        {
            line.push(source[col + k]);
            assert(line@ =~= source@.subrange(col as int, col + k + 1));
            k = k + 1;
        }
        rows.push(line);
        r = r + 1;
    }
    Some(rows)
}

/// Unpacks the picture: every bit becomes a byte that is one or zero.
pub fn bitmap_init(raw: &[u8; 1620]) -> (bitmap: Bitmap)
    ensures
        bitmap@.len() == MAP_HEIGHT,
        forall|row: int|
            0 <= row < MAP_HEIGHT ==> (#[trigger] bitmap@[row]).len() == MAP_WIDTH,
        forall|row: int, col: int|
            0 <= row < MAP_HEIGHT && 0 <= col < MAP_WIDTH ==> #[trigger] bitmap@[row][col] == pixel(
                raw@,
                row,
                col,
            ),
{
    let mut map: Vec<Vec<u8>> = Vec::new();
    let mut row: usize = 0;
    while row < MAP_HEIGHT
        invariant
            0 <= row <= MAP_HEIGHT,
            map@.len() == row,
            forall|y: int| 0 <= y < row ==> (#[trigger] map@[y])@.len() == MAP_WIDTH,
            forall|y: int, x: int|
                0 <= y < row && 0 <= x < MAP_WIDTH ==> (#[trigger] map@[y]@[x]) == pixel(raw@, y, x),
        decreases MAP_HEIGHT - row,
    {
        let mut line: Vec<u8> = Vec::new();
        let mut col: usize = 0;
        while col < MAP_WIDTH
            invariant
                0 <= col <= MAP_WIDTH,
                0 <= row < MAP_HEIGHT,
                line@.len() == col,
                forall|x: int| 0 <= x < col ==> #[trigger] line@[x] == pixel(raw@, row as int, x),
            decreases MAP_WIDTH - col,
        {
            let value: u8 = raw[row * RAW_ROW + col / 8];
            let shift: u8 = (7 - col % 8) as u8;
            line.push((value >> shift) & 1);
            col = col + 1;
        }
        map.push(line);
        row = row + 1;
    }
    let bitmap = Bitmap { map };
    assert forall|y: int, x: int| 0 <= y < MAP_HEIGHT && 0 <= x < MAP_WIDTH implies #[trigger] bitmap@[y][x]
        == pixel(raw@, y, x) by {
        assert(bitmap@[y] == bitmap.map@[y]@);
    }
    bitmap
}

} // verus!
