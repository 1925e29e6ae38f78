//! A text console on a linear framebuffer.
//!
//! The console works on a buffer of its own, laid out like the frame it
//! stands for; showing the buffer is left to the caller.

use crate::framebuffer::utils::Color;
use crate::framebuffer::utils::Pixel;
use crate::framebuffer::utils::Point;
use noto_sans_mono_bitmap::get_raster;
use noto_sans_mono_bitmap::FontWeight;
use noto_sans_mono_bitmap::RasterHeight;
use vstd::arithmetic::div_mod::lemma_fundamental_div_mod;
use vstd::arithmetic::div_mod::lemma_fundamental_div_mod_converse;
use vstd::arithmetic::div_mod::lemma_multiply_divide_lt;
use vstd::prelude::*;

verus! {

/// Height of a line of text, in pixels.
pub const LINE_HEIGHT: usize = 24;

/// Width of a character, in pixels.
pub const FONT_WIDTH: usize = 11;

/// The character drawn in place of one the font does not have.
pub const BACKUP_CHAR: char = '\u{fffd}';

/// How the bytes of a pixel encode its colour.
#[derive(Debug, Clone, Copy, PartialEq, Eq, Structural)]
pub enum PixelFormat {
    /// Red, green, blue, one byte each.
    Rgb,
    /// Blue, green, red, one byte each.
    Bgr,
    /// One byte of intensity.
    U8,
}

/// The geometry of a frame.
#[derive(Debug, Clone, Copy, PartialEq, Eq, Structural)]
pub struct FrameBufferInfo {
    /// Visible pixels in a row.
    pub width: usize,
    /// Rows.
    pub height: usize,
    pub pixel_format: PixelFormat,
    pub bytes_per_pixel: usize,
    /// Pixels from the start of one row to the start of the next.
    pub stride: usize,
}

impl FrameBufferInfo {
    /// Whether a frame of this geometry fits in `len` bytes: pixels are one
    /// to four bytes wide, a row holds its visible pixels, and all rows
    /// together are no longer than the buffer.
    pub open spec fn fits(self, len: int) -> bool {
        &&& 1 <= self.bytes_per_pixel <= 4
        &&& self.width <= self.stride
        &&& self.height * self.stride * self.bytes_per_pixel <= len
    }

    /// Index of the first byte of the pixel in column `x` of row `y`.
    pub open spec fn offset(self, x: int, y: int) -> int {
        (y * self.stride + x) * self.bytes_per_pixel
    }

    /// Column of the pixel that byte `k` belongs to.
    pub open spec fn column(self, k: int) -> int {
        (k / self.bytes_per_pixel as int) % self.stride as int
    }

    /// Row of the pixel that byte `k` belongs to.
    pub open spec fn row(self, k: int) -> int {
        (k / self.bytes_per_pixel as int) / self.stride as int
    }

    /// Position of byte `k` within its pixel.
    pub open spec fn channel(self, k: int) -> int {
        k % self.bytes_per_pixel as int
    }

    /// Whether the pixel in column `x` of row `y` is on the screen.
    pub open spec fn visible(self, x: int, y: int) -> bool {
        0 <= x < self.width && 0 <= y < self.height
    }

    /// Whether a frame of this geometry fits in `len` bytes.
    pub fn check(&self, len: usize) -> (fits: bool)
        ensures
            fits == self.fits(len as int),
    {
        if self.bytes_per_pixel < 1 || self.bytes_per_pixel > 4 || self.width > self.stride {
            return false;
        }
        match self.height.checked_mul(self.stride) {
            Some(pixels) => match pixels.checked_mul(self.bytes_per_pixel) {
                Some(bytes) => bytes <= len,
                None => false,
            },
            None => {
                assert(self.height * self.stride * self.bytes_per_pixel > usize::MAX)
                    by (nonlinear_arith)
                    requires
                        self.height * self.stride > usize::MAX,
                        self.bytes_per_pixel >= 1,
                ;
                false
            },
        }
    }
}

/// The four bytes a colour is stored as; a pixel takes as many of them as it
/// is wide.
pub open spec fn channels(format: PixelFormat, color: Color) -> Seq<u8> {
    match format {
        PixelFormat::Rgb => seq![color.0, color.1, color.2, 0u8],
        PixelFormat::Bgr => seq![color.2, color.1, color.0, 0u8],
        PixelFormat::U8 => seq![color.0, color.0, color.0, 0u8],
    }
}

/// The frame after one pixel was set. A pixel off the screen changes
/// nothing.
pub open spec fn painted(buffer: Seq<u8>, info: FrameBufferInfo, pixel: Pixel) -> Seq<u8> {
    Seq::new(
        buffer.len(),
        |k: int|
            if info.visible(pixel.0.0 as int, pixel.0.1 as int) && info.column(k) == pixel.0.0
                && info.row(k) == pixel.0.1 {
                channels(info.pixel_format, pixel.1)[info.channel(k)]
            } else {
                buffer[k]
            },
    )
}

/// The bytes of the pixel in column `x` of row `y` are those, and only
/// those, whose column is `x` and whose row is `y`.
pub proof fn lemma_pixel_bytes(info: FrameBufferInfo, x: int, y: int, k: int)
    requires
        info.bytes_per_pixel >= 1,
        0 <= x < info.stride,
        0 <= y,
        0 <= k,
    ensures
        info.offset(x, y) <= k < info.offset(x, y) + info.bytes_per_pixel <==> info.column(k) == x
            && info.row(k) == y,
        info.offset(x, y) <= k < info.offset(x, y) + info.bytes_per_pixel ==> info.channel(k) == k
            - info.offset(x, y),
        0 <= info.channel(k) < info.bytes_per_pixel,
{
    let b = info.bytes_per_pixel as int;
    let s = info.stride as int;
    let off = info.offset(x, y);
    lemma_fundamental_div_mod(k, b);
    lemma_fundamental_div_mod(k / b, s);
    if off <= k < off + b {
        lemma_fundamental_div_mod_converse(k, b, y * s + x, k - off);
        lemma_fundamental_div_mod_converse(y * s + x, s, y, x);
    }
    if info.column(k) == x && info.row(k) == y {
        assert(k / b == s * y + x);
        assert(k == b * (s * y + x) + k % b);
        assert(b * (s * y + x) == (y * s + x) * b) by (nonlinear_arith);
    }
}

/// Sets one pixel. A pixel off the screen is ignored.
pub fn set_pixel(buffer: &mut Vec<u8>, info: &FrameBufferInfo, pixel: &Pixel)
    requires
        info.fits(old(buffer)@.len() as int),
    ensures
        final(buffer)@ == painted(old(buffer)@, *info, *pixel),
{
    let (x, y) = pixel.point().into();
    if x < info.width && y < info.height {
        let color = pixel.color();
        let bytes: [u8; 4] = match info.pixel_format {
            PixelFormat::Rgb => [color.r(), color.g(), color.b(), 0],
            PixelFormat::Bgr => [color.b(), color.g(), color.r(), 0],
            PixelFormat::U8 => [color.r(), color.r(), color.r(), 0],
        };
        assert(bytes@ =~= channels(info.pixel_format, color));
        let len = buffer.len();
        assert((y * info.stride + x + 1) * info.bytes_per_pixel <= info.height * info.stride
            * info.bytes_per_pixel) by (nonlinear_arith)
            requires
                x < info.width <= info.stride,
                y < info.height,
                info.bytes_per_pixel >= 1,
        ;
        assert((y * info.stride + x + 1) * info.bytes_per_pixel == (y * info.stride + x)
            * info.bytes_per_pixel + info.bytes_per_pixel) by (nonlinear_arith);
        assert(y * info.stride + x <= (y * info.stride + x) * info.bytes_per_pixel)
            by (nonlinear_arith)
            requires
                info.bytes_per_pixel >= 1,
        ;
        assert(y * info.stride <= y * info.stride + x);
        let index: usize = (y * info.stride + x) * info.bytes_per_pixel;
        let mut i: usize = 0;
        while i < info.bytes_per_pixel
            invariant
                0 <= i <= info.bytes_per_pixel <= 4,
                index == info.offset(x as int, y as int),
                index + info.bytes_per_pixel <= buffer@.len() <= usize::MAX,
                buffer@.len() == old(buffer)@.len(),
                bytes@ == channels(info.pixel_format, color),
                forall|k: int|
                    0 <= k < buffer@.len() ==> #[trigger] buffer@[k] == if index <= k < index + i {
                        bytes@[k - index]
                    } else {
                        old(buffer)@[k]
                    },
            decreases info.bytes_per_pixel - i,
        {
            buffer.set(index + i, bytes[i]);
            i = i + 1;
        }
        assert forall|k: int| 0 <= k < buffer@.len() implies #[trigger] buffer@[k] == painted(
            old(buffer)@,
            *info,
            *pixel,
        )[k] by {
            lemma_pixel_bytes(*info, x as int, y as int, k);
        }
        assert(buffer@ =~= painted(old(buffer)@, *info, *pixel));
    } else {
        assert(buffer@ =~= painted(old(buffer)@, *info, *pixel));
    }
}

/// The raster of a character in the console's font: rows of pixel
/// intensities, top row first. `None` for a character the font lacks.
pub uninterp spec fn glyph(c: char) -> Option<Seq<Seq<u8>>>;

/// The rows of a raster as sequences.
pub open spec fn rows(raster: &[&[u8]]) -> Seq<Seq<u8>> {
    Seq::new(raster@.len(), |i: int| raster@[i]@)
}

/// `get_raster` for the regular weight at 24 pixels, followed by
/// `RasterizedChar::raster`: the raster of `c`, or `None` if the font has no
/// such character. The font is fixed data, so the answer depends on `c`
/// alone.
#[verifier::external_body]
fn char_raster(c: char) -> (raster: Option<&'static [&'static [u8]]>)
    ensures
        match raster {
            Some(raster) => glyph(c) == Some(rows(raster)),
            None => glyph(c) is None,
        },
{
    match get_raster(c, FontWeight::Regular, RasterHeight::Size24) {
        Some(rendered) => Some(rendered.raster()),
        None => None,
    }
}

/// The raster drawn for `c`: its own, or that of the backup character if
/// the font lacks `c`.
pub open spec fn raster_of(c: char) -> Option<Seq<Seq<u8>>> {
    if glyph(c) is Some {
        glyph(c)
    } else {
        glyph(BACKUP_CHAR)
    }
}

/// Looks up the raster to draw for `c`.
pub fn get_char_raster(c: char) -> (raster: Option<&'static [&'static [u8]]>)
    ensures
        match raster {
            Some(raster) => raster_of(c) == Some(rows(raster)),
            None => raster_of(c) is None,
        },
{
    match char_raster(c) {
        Some(raster) => Some(raster),
        None => char_raster(BACKUP_CHAR),
    }
}

/// Whether a raster has a pixel in its column `c` of its row `r`.
pub open spec fn covers(raster: Seq<Seq<u8>>, c: int, r: int) -> bool {
    0 <= r < raster.len() && 0 <= c < raster[r].len()
}

/// The grey of a given intensity.
pub open spec fn grey(intensity: u8) -> Color {
    Color(intensity, intensity, intensity)
}

/// The frame after the first `done_rows` rows of a raster, and the first
/// `done_cols` pixels of the row that follows, were drawn with the raster's
/// top left corner in column `x0` of row `y0`. Pixels off the screen are
/// left out.
pub open spec fn rendered_part(
    buffer: Seq<u8>,
    info: FrameBufferInfo,
    x0: int,
    y0: int,
    raster: Seq<Seq<u8>>,
    done_rows: int,
    done_cols: int,
) -> Seq<u8> {
    Seq::new(
        buffer.len(),
        |k: int|
            {
                let c = info.column(k) - x0;
                let r = info.row(k) - y0;
                if info.visible(info.column(k), info.row(k)) && covers(raster, c, r) && (r
                    < done_rows || (r == done_rows && c < done_cols)) {
                    channels(info.pixel_format, grey(raster[r][c]))[info.channel(k)]
                } else {
                    buffer[k]
                }
            },
    )
}

/// The frame after a raster was drawn with its top left corner in column
/// `x0` of row `y0`.
pub open spec fn rendered(
    buffer: Seq<u8>,
    info: FrameBufferInfo,
    x0: int,
    y0: int,
    raster: Seq<Seq<u8>>,
) -> Seq<u8> {
    rendered_part(buffer, info, x0, y0, raster, raster.len() as int, 0)
}

/// Draws a raster with its top left corner in column `x0` of row `y0`.
pub fn draw(buffer: &mut Vec<u8>, info: &FrameBufferInfo, x0: usize, y0: usize, raster: &[&[u8]])
    requires
        info.fits(old(buffer)@.len() as int),
    ensures
        final(buffer)@ == rendered(old(buffer)@, *info, x0 as int, y0 as int, rows(raster)),
{
    let ghost start = buffer@;
    let ghost glyph = rows(raster);
    assert(buffer@ =~= rendered_part(start, *info, x0 as int, y0 as int, glyph, 0, 0));
    let mut r: usize = 0;
    while r < raster.len()
        invariant
            0 <= r <= raster@.len(),
            glyph == rows(raster),
            info.fits(buffer@.len() as int),
            buffer@ == rendered_part(start, *info, x0 as int, y0 as int, glyph, r as int, 0),
        decreases raster@.len() - r,
    {
        let row = raster[r];
        assert(glyph[r as int] == row@);
        let mut c: usize = 0;
        while c < row.len()
            invariant
                0 <= c <= row@.len(),
                0 <= r < raster@.len(),
                glyph == rows(raster),
                glyph[r as int] == row@,
                info.fits(buffer@.len() as int),
                buffer@ == rendered_part(
                    start,
                    *info,
                    x0 as int,
                    y0 as int,
                    glyph,
                    r as int,
                    c as int,
                ),
            decreases row@.len() - c,
        {
            let ghost before = buffer@;
            let intensity = row[c];
            match (x0.checked_add(c), y0.checked_add(r)) {
                (Some(x), Some(y)) => {
                    let pixel = Pixel::new(
                        Point::new(x, y),
                        Color::new(intensity, intensity, intensity),
                    );
                    set_pixel(buffer, info, &pixel);
                },
                _ => {},
            }
            assert(buffer@ =~= rendered_part(
                start,
                *info,
                x0 as int,
                y0 as int,
                glyph,
                r as int,
                c + 1,
            ));
            c = c + 1;
        }
        assert(buffer@ =~= rendered_part(start, *info, x0 as int, y0 as int, glyph, r + 1, 0));
        r = r + 1;
    }
}

/// Number of rows that whole lines of text fill.
pub open spec fn text_rows(info: FrameBufferInfo) -> int {
    (info.height / LINE_HEIGHT) * LINE_HEIGHT
}

/// Number of rows that keep text when the frame scrolls by one line.
pub open spec fn kept_rows(info: FrameBufferInfo) -> int {
    if text_rows(info) >= LINE_HEIGHT {
        text_rows(info) - LINE_HEIGHT
    } else {
        0
    }
}

/// The frame after it was scrolled up by one line of text: every row that
/// keeps text takes over the row one line below it, padding included, and
/// the visible pixels of the last line of text turn black. Rows below the
/// last whole line stay as they are.
pub open spec fn scrolled(buffer: Seq<u8>, info: FrameBufferInfo) -> Seq<u8> {
    Seq::new(
        buffer.len(),
        |k: int|
            if k < kept_rows(info) * info.stride * info.bytes_per_pixel {
                buffer[k + LINE_HEIGHT * info.stride * info.bytes_per_pixel]
            } else if info.visible(info.column(k), info.row(k)) && kept_rows(info) <= info.row(k)
                < text_rows(info) {
                0u8
            } else {
                buffer[k]
            },
    )
}

/// A byte that lies before row `n` lies in a row before `n`.
pub proof fn lemma_row_bound(info: FrameBufferInfo, k: int, n: int)
    requires
        info.bytes_per_pixel >= 1,
        info.stride >= 1,
        0 <= k < n * info.stride * info.bytes_per_pixel,
    ensures
        info.row(k) < n,
{
    let b = info.bytes_per_pixel as int;
    let s = info.stride as int;
    assert(n * s * b == b * (s * n)) by (nonlinear_arith);
    lemma_multiply_divide_lt(k, b, s * n);
    lemma_multiply_divide_lt(k / b, s, n);
}

/// The frame with the black pixels of a scroll filled in as far as row `row`
/// and, in that row, column `col`.
spec fn blanked_part(moved: Seq<u8>, info: FrameBufferInfo, row: int, col: int) -> Seq<u8> {
    Seq::new(
        moved.len(),
        |k: int|
            if info.visible(info.column(k), info.row(k)) && kept_rows(info) <= info.row(k)
                < text_rows(info) && (info.row(k) < row || (info.row(k) == row && info.column(k)
                < col)) {
                0u8
            } else {
                moved[k]
            },
    )
}

/// Scrolls the frame up by one line of text.
pub fn scroll_up(buffer: &mut Vec<u8>, info: &FrameBufferInfo)
    requires
        info.fits(old(buffer)@.len() as int),
    ensures
        final(buffer)@ == scrolled(old(buffer)@, *info),
{
    let ghost start = buffer@;
    let len = buffer.len();
    let last: usize = info.height / LINE_HEIGHT * LINE_HEIGHT;
    let kept: usize = if last >= LINE_HEIGHT {
        last - LINE_HEIGHT
    } else {
        0
    };
    assert(last == text_rows(*info) && kept == kept_rows(*info));
    assert(last <= info.height);
    let ghost row_bytes = info.stride * info.bytes_per_pixel;
    assert(kept * info.stride * info.bytes_per_pixel + LINE_HEIGHT * info.stride
        * info.bytes_per_pixel <= info.height * info.stride * info.bytes_per_pixel || kept == 0)
        by (nonlinear_arith)
        requires
            kept == 0 || kept + LINE_HEIGHT <= info.height,
    ;
    assert(kept * info.stride <= kept * info.stride * info.bytes_per_pixel) by (nonlinear_arith)
        requires
            info.bytes_per_pixel >= 1,
    ;
    assert(0 * info.stride * info.bytes_per_pixel == 0) by (nonlinear_arith);
    assert(LINE_HEIGHT * info.stride <= LINE_HEIGHT * info.stride * info.bytes_per_pixel)
        by (nonlinear_arith)
        requires
            info.bytes_per_pixel >= 1,
    ;
    let moved: usize = kept * info.stride * info.bytes_per_pixel;
    if moved > 0 {
        let shift: usize = LINE_HEIGHT * info.stride * info.bytes_per_pixel;
        let mut k: usize = 0;
        while k < moved
            invariant
                0 <= k <= moved,
                moved + shift <= buffer@.len() <= usize::MAX,
                buffer@.len() == start.len(),
                forall|j: int|
                    0 <= j < buffer@.len() ==> #[trigger] buffer@[j] == if j < k {
                        start[j + shift]
                    } else {
                        start[j]
                    },
            decreases moved - k,
        {
            let byte = buffer[k + shift];
            buffer.set(k, byte);
            k = k + 1;
        }
    }
    let ghost shifted = buffer@;
    assert(shifted =~= Seq::new(
        start.len(),
        |k: int|
            if k < kept_rows(*info) * info.stride * info.bytes_per_pixel {
                start[k + LINE_HEIGHT * info.stride * info.bytes_per_pixel]
            } else {
                start[k]
            },
    ));
    assert(buffer@ =~= blanked_part(shifted, *info, kept as int, 0));
    let mut i: usize = kept;
    while i < last
        invariant
            kept <= i <= last <= info.height,
            last == text_rows(*info),
            kept == kept_rows(*info),
            info.fits(buffer@.len() as int),
            buffer@ == blanked_part(shifted, *info, i as int, 0),
        decreases last - i,
    {
        let mut j: usize = 0;
        while j < info.width
            invariant
                0 <= j <= info.width,
                kept <= i < last <= info.height,
                last == text_rows(*info),
                kept == kept_rows(*info),
                info.fits(buffer@.len() as int),
                buffer@ == blanked_part(shifted, *info, i as int, j as int),
            decreases info.width - j,
        {
            let pixel = Pixel::new(Point::new(j, i), Color::new(0, 0, 0));
            set_pixel(buffer, info, &pixel);
            assert(buffer@ =~= blanked_part(shifted, *info, i as int, j + 1));
            j = j + 1;
        }
        assert(buffer@ =~= blanked_part(shifted, *info, i + 1, 0));
        i = i + 1;
    }
    assert forall|k: int| 0 <= k < buffer@.len() implies #[trigger] buffer@[k] == scrolled(
        start,
        *info,
    )[k] by {
        if k < kept * info.stride * info.bytes_per_pixel {
            assert(info.stride >= 1) by (nonlinear_arith)
                requires
                    0 <= k < kept * info.stride * info.bytes_per_pixel,
            ;
            lemma_row_bound(*info, k, kept as int);
        }
    }
    assert(buffer@ =~= scrolled(start, *info));
}

/// The frame with every byte zero.
pub open spec fn blank(len: nat) -> Seq<u8> {
    Seq::new(len, |k: int| 0u8)
}

/// Zeroes the frame.
pub fn wipe(buffer: &mut Vec<u8>)
    ensures
        final(buffer)@ == blank(old(buffer)@.len()),
{
    let mut k: usize = 0;
    while k < buffer.len()
        invariant
            0 <= k <= buffer@.len(),
            buffer@.len() == old(buffer)@.len(),
            forall|j: int| 0 <= j < k ==> #[trigger] buffer@[j] == 0,
        decreases buffer@.len() - k,
    {
        buffer.set(k, 0);
        k = k + 1;
    }
    assert(buffer@ =~= blank(old(buffer)@.len()));
}

/// What a console is, seen from outside.
pub struct WriterView {
    pub info: FrameBufferInfo,
    /// The bytes of the frame.
    pub buffer: Seq<u8>,
    /// Column of the left edge of the next character.
    pub x_pos: usize,
    /// Row of the top edge of the next character.
    pub y_pos: usize,
}

/// The console with the cursor at the start of the next line. The cursor
/// stops at the largest row there is.
pub open spec fn line_fed(writer: WriterView) -> WriterView {
    WriterView { x_pos: 0, y_pos: writer.y_pos.saturating_add(LINE_HEIGHT), ..writer }
}

/// The console with the cursor at the start of its line.
pub open spec fn returned(writer: WriterView) -> WriterView {
    WriterView { x_pos: 0, ..writer }
}

/// The console scrolled up by one line of text, cursor and all.
pub open spec fn scrolled_up(writer: WriterView) -> WriterView {
    WriterView {
        buffer: scrolled(writer.buffer, writer.info),
        y_pos: writer.y_pos.saturating_sub(LINE_HEIGHT),
        ..writer
    }
}

/// The console with a raster drawn at the cursor and the cursor moved one
/// character to the right. Without a raster only the cursor moves.
pub open spec fn stamped(writer: WriterView, raster: Option<Seq<Seq<u8>>>) -> WriterView {
    WriterView {
        buffer: match raster {
            Some(raster) => rendered(
                writer.buffer,
                writer.info,
                writer.x_pos as int,
                writer.y_pos as int,
                raster,
            ),
            None => writer.buffer,
        },
        x_pos: writer.x_pos.saturating_add(FONT_WIDTH),
        ..writer
    }
}

/// The console made ready for one more character: on a new line if the
/// character would reach the right edge, and scrolled if the line would
/// reach below the bottom edge.
pub open spec fn placed(writer: WriterView) -> WriterView {
    let wrapped = if writer.x_pos.saturating_add(FONT_WIDTH) >= writer.info.width {
        line_fed(writer)
    } else {
        writer
    };
    if wrapped.y_pos.saturating_add(LINE_HEIGHT) > wrapped.info.height {
        scrolled_up(wrapped)
    } else {
        wrapped
    }
}

/// The console after one character was written to it.
pub open spec fn written(writer: WriterView, c: char) -> WriterView {
    if c == '\n' {
        line_fed(writer)
    } else if c == '\r' {
        returned(writer)
    } else {
        stamped(placed(writer), raster_of(c))
    }
}

/// The console after each character of a text was written to it in turn.
pub open spec fn written_all(writer: WriterView, text: Seq<char>) -> WriterView
    decreases text.len(),
{
    if text.len() == 0 {
        writer
    } else {
        written(written_all(writer, text.drop_last()), text.last())
    }
}

/// A text console that draws into a buffer laid out like the frame.
#[derive(Debug)]
pub struct FramebufferWriter {
    info: FrameBufferInfo,
    buffer: Vec<u8>,
    x_pos: usize,
    y_pos: usize,
}

impl View for FramebufferWriter {
    type V = WriterView;

    closed spec fn view(&self) -> WriterView {
        WriterView { info: self.info, buffer: self.buffer@, x_pos: self.x_pos, y_pos: self.y_pos }
    }
}

impl FramebufferWriter {
    #[verifier::type_invariant]
    spec fn well_formed(self) -> bool {
        self.info.fits(self.buffer@.len() as int)
    }

    /// A console on `buffer`, with the cursor in the top left corner. The
    /// buffer is handed back if a frame of the given geometry does not fit
    /// in it.
    pub fn new(info: FrameBufferInfo, buffer: Vec<u8>) -> (writer: Result<Self, Vec<u8>>)
        ensures
            match writer {
                Ok(writer) => info.fits(buffer@.len() as int) && writer@ == (WriterView {
                    info,
                    buffer: buffer@,
                    x_pos: 0,
                    y_pos: 0,
                }),
                Err(back) => !info.fits(buffer@.len() as int) && back == buffer,
            },
    {
        if info.check(buffer.len()) {
            Ok(FramebufferWriter { info, buffer, x_pos: 0, y_pos: 0 })
        } else {
            Err(buffer)
        }
    }

    /// Moves the console out of `self`, leaving an empty one behind, so that
    /// its buffer can be worked on.
    fn dismantle(&mut self) -> (writer: FramebufferWriter)
        ensures
            writer == *old(self),
            writer.info.fits(writer.buffer@.len() as int),
    {
        proof {
            use_type_invariant(&*self);
        }
        let mut writer = FramebufferWriter {
            info: FrameBufferInfo {
                width: 0,
                height: 0,
                pixel_format: PixelFormat::U8,
                bytes_per_pixel: 1,
                stride: 0,
            },
            buffer: Vec::new(),
            x_pos: 0,
            y_pos: 0,
        };
        core::mem::swap(self, &mut writer);
        writer
    }

    /// The geometry of the frame. It fits the buffer.
    pub fn info(&self) -> (info: FrameBufferInfo)
        ensures
            info == self@.info,
            info.fits(self@.buffer.len() as int),
    {
        proof {
            use_type_invariant(self);
        }
        self.info
    }

    /// The bytes of the frame.
    pub fn buffer(&self) -> (buffer: &Vec<u8>)
        ensures
            buffer@ == self@.buffer,
    {
        &self.buffer
    }

    /// Column and row of the top left corner of the next character.
    pub fn position(&self) -> (position: Point)
        ensures
            position == Point(self@.x_pos, self@.y_pos),
    {
        Point::new(self.x_pos, self.y_pos)
    }

    /// Blackens the frame and puts the cursor in the top left corner.
    pub fn clear(&mut self)
        ensures
            final(self)@ == (WriterView {
                buffer: blank(old(self)@.buffer.len()),
                x_pos: 0,
                y_pos: 0,
                ..old(self)@
            }),
    {
        let FramebufferWriter { info, mut buffer, x_pos: _, y_pos: _ } = self.dismantle();
        wipe(&mut buffer);
        *self = FramebufferWriter { info, buffer, x_pos: 0, y_pos: 0 };
    }

    /// Moves the cursor one character to the left, as far as the left edge.
    pub fn back(&mut self)
        ensures
            final(self)@ == (WriterView {
                x_pos: old(self)@.x_pos.saturating_sub(FONT_WIDTH),
                ..old(self)@
            }),
    {
        proof {
            use_type_invariant(&*self);
        }
        self.x_pos = self.x_pos.saturating_sub(FONT_WIDTH);
    }

    /// Moves the cursor one character to the right.
    pub fn forward(&mut self)
        ensures
            final(self)@ == (WriterView {
                x_pos: old(self)@.x_pos.saturating_add(FONT_WIDTH),
                ..old(self)@
            }),
    {
        proof {
            use_type_invariant(&*self);
        }
        self.x_pos = self.x_pos.saturating_add(FONT_WIDTH);
    }

    /// Moves the cursor to the start of the next line.
    pub fn newline(&mut self)
        ensures
            final(self)@ == line_fed(old(self)@),
    {
        proof {
            use_type_invariant(&*self);
        }
        self.y_pos = self.y_pos.saturating_add(LINE_HEIGHT);
        self.carriage_return();
    }

    /// Moves the cursor to the start of its line.
    pub fn carriage_return(&mut self)
        ensures
            final(self)@ == returned(old(self)@),
    {
        proof {
            use_type_invariant(&*self);
        }
        self.x_pos = 0;
    }

    /// Scrolls the frame up by one line of text and the cursor with it.
    pub fn scroll(&mut self)
        ensures
            final(self)@ == scrolled_up(old(self)@),
    {
        let FramebufferWriter { info, mut buffer, x_pos, y_pos } = self.dismantle();
        scroll_up(&mut buffer, &info);
        *self = FramebufferWriter {
            info,
            buffer,
            x_pos,
            y_pos: y_pos.saturating_sub(LINE_HEIGHT),
        };
    }

    /// Sets one pixel. A pixel off the screen is ignored.
    pub fn set_pixel(&mut self, pixel: &Pixel)
        ensures
            final(self)@ == (WriterView {
                buffer: painted(old(self)@.buffer, old(self)@.info, *pixel),
                ..old(self)@
            }),
    {
        let FramebufferWriter { info, mut buffer, x_pos, y_pos } = self.dismantle();
        self::set_pixel(&mut buffer, &info, pixel);
        *self = FramebufferWriter { info, buffer, x_pos, y_pos };
    }

    /// Draws a raster at the cursor and moves the cursor one character to
    /// the right. Without a raster only the cursor moves.
    pub fn write_rendered_char(&mut self, rendered_char: Option<&[&[u8]]>)
        ensures
            final(self)@ == stamped(
                old(self)@,
                match rendered_char {
                    Some(raster) => Some(rows(raster)),
                    None => None,
                },
            ),
    {
        let FramebufferWriter { info, mut buffer, x_pos, y_pos } = self.dismantle();
        match rendered_char {
            Some(raster) => {
                draw(&mut buffer, &info, x_pos, y_pos, raster);
            },
            None => {},
        }
        *self = FramebufferWriter { info, buffer, x_pos: x_pos.saturating_add(FONT_WIDTH), y_pos };
    }

    /// Writes one character: a line feed and a carriage return move the
    /// cursor; anything else is drawn at the cursor, on a new line if it
    /// would reach the right edge, after scrolling if it would reach below
    /// the bottom edge.
    pub fn write_char(&mut self, c: char)
        ensures
            final(self)@ == written(old(self)@, c),
    {
        if c == '\n' {
            self.newline();
        } else if c == '\r' {
            self.carriage_return();
        } else {
            let info = self.info();
            if self.x_pos.saturating_add(FONT_WIDTH) >= info.width {
                self.newline();
            }
            if self.y_pos.saturating_add(LINE_HEIGHT) > info.height {
                self.scroll();
            }
            let raster = get_char_raster(c);
            match raster {
                Some(raster) => self.write_rendered_char(Some(raster)),
                None => self.write_rendered_char(None),
            }
        }
    }

    /// Writes a text, character by character.
    pub fn write_str(&mut self, s: &str)
        ensures
            final(self)@ == written_all(old(self)@, s@),
    {
        assert(s@.take(0) =~= Seq::<char>::empty());
        for c in chars: s.chars()
            invariant
                chars.seq() == s@,
                self@ == written_all(old(self)@, s@.take(chars.index() as int)),
        {
            self.write_char(c);
            assert(s@.take(chars.index() + 1).drop_last() =~= s@.take(chars.index() as int));
        }
        assert(s@.take(s@.len() as int) =~= s@);
    }
}

} // verus!
