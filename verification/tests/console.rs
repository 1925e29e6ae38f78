use kernel::framebuffer::_print;
use kernel::framebuffer::init_framebuffer;
use kernel::framebuffer::utils::Color;
use kernel::framebuffer::utils::Pixel;
use kernel::framebuffer::utils::Point;
use kernel::framebuffer::wrapper::FrameBufferWrapper;
use kernel::framebuffer::writer::draw;
use kernel::framebuffer::writer::get_char_raster;
use kernel::framebuffer::writer::scroll_up;
use kernel::framebuffer::writer::set_pixel;
use kernel::framebuffer::writer::wipe;
use kernel::framebuffer::writer::FrameBufferInfo;
use kernel::framebuffer::writer::FramebufferWriter;
use kernel::framebuffer::writer::PixelFormat;
use kernel::framebuffer::writer::BACKUP_CHAR;
use kernel::framebuffer::writer::FONT_WIDTH;
use kernel::framebuffer::writer::LINE_HEIGHT;
use noto_sans_mono_bitmap::get_raster;
use noto_sans_mono_bitmap::get_raster_width;
use noto_sans_mono_bitmap::FontWeight;
use noto_sans_mono_bitmap::RasterHeight;

fn info(width: usize, height: usize, stride: usize, bytes_per_pixel: usize) -> FrameBufferInfo {
    FrameBufferInfo { width, height, pixel_format: PixelFormat::Rgb, bytes_per_pixel, stride }
}

fn console(width: usize, height: usize) -> FramebufferWriter {
    let info = info(width, height, width + 3, 4);
    FramebufferWriter::new(info, vec![0; (width + 3) * height * 4]).ok().unwrap()
}

fn at(writer: &FramebufferWriter, x: usize, y: usize) -> u8 {
    let info = writer.info();
    writer.buffer()[(y * info.stride + x) * info.bytes_per_pixel]
}

fn noto(c: char) -> &'static [&'static [u8]] {
    get_raster(c, FontWeight::Regular, RasterHeight::Size24).unwrap().raster()
}

fn shows(writer: &FramebufferWriter, c: char, x0: usize, y0: usize) -> bool {
    let raster = noto(c);
    (0..24).all(|r| (0..11).all(|k| at(writer, x0 + k, y0 + r) == raster[r][k]))
}

#[test]
fn font_metrics_match_the_font() {
    assert_eq!(LINE_HEIGHT, RasterHeight::Size24.val());
    assert_eq!(FONT_WIDTH, get_raster_width(FontWeight::Regular, RasterHeight::Size24));
    assert_eq!(BACKUP_CHAR, '\u{fffd}');
}

#[test]
fn geometry_is_checked_against_the_buffer() {
    assert!(info(4, 3, 5, 4).check(60));
    assert!(!info(4, 3, 5, 4).check(59));
    assert!(!info(6, 3, 5, 4).check(600));
    assert!(!info(4, 3, 5, 0).check(600));
    assert!(!info(4, 3, 5, 5).check(600));
    assert!(info(0, 0, 0, 1).check(0));
    assert!(!info(1, usize::MAX, usize::MAX, 4).check(usize::MAX));
    assert!(!info(1, usize::MAX, 1, 2).check(usize::MAX));
    assert_eq!(FramebufferWriter::new(info(4, 3, 5, 4), vec![7; 59]).err(), Some(vec![7; 59]));
}

#[test]
fn pixel_bytes_follow_the_format() {
    let color = Color::new(1, 2, 3);
    let pixel = Pixel::new(Point::new(2, 1), color);
    for (format, expected) in [
        (PixelFormat::Rgb, [1u8, 2, 3, 0]),
        (PixelFormat::Bgr, [3, 2, 1, 0]),
        (PixelFormat::U8, [1, 1, 1, 0]),
    ] {
        for bytes_per_pixel in 1..=4usize {
            let info =
                FrameBufferInfo { width: 4, height: 3, pixel_format: format, bytes_per_pixel, stride: 5 };
            let mut buffer = vec![9u8; 15 * bytes_per_pixel + 2];
            set_pixel(&mut buffer, &info, &pixel);
            let index = (1 * 5 + 2) * bytes_per_pixel;
            for (k, byte) in buffer.iter().enumerate() {
                if k >= index && k < index + bytes_per_pixel {
                    assert_eq!(*byte, expected[k - index]);
                } else {
                    assert_eq!(*byte, 9);
                }
            }
        }
    }
}

#[test]
fn pixel_off_the_screen_is_ignored() {
    let info = info(4, 3, 5, 4);
    let mut buffer = vec![9u8; 60];
    set_pixel(&mut buffer, &info, &Pixel::new(Point::new(4, 0), Color::new(1, 1, 1)));
    set_pixel(&mut buffer, &info, &Pixel::new(Point::new(0, 3), Color::new(1, 1, 1)));
    set_pixel(&mut buffer, &info, &Pixel::new(Point::new(usize::MAX, usize::MAX), Color::new(1, 1, 1)));
    assert_eq!(buffer, vec![9u8; 60]);
}

#[test]
fn raster_is_drawn_clipped_to_the_screen() {
    let info = info(4, 3, 5, 1);
    let mut buffer = vec![0u8; 15];
    let rows: [&[u8]; 2] = [&[1, 2, 3], &[4, 5, 6]];
    draw(&mut buffer, &info, 2, 2, &rows);
    assert_eq!(buffer, vec![0, 0, 0, 0, 0, 0, 0, 0, 0, 0, 0, 0, 1, 2, 0]);
    let mut buffer = vec![0u8; 15];
    draw(&mut buffer, &info, 1, 0, &rows);
    assert_eq!(buffer, vec![0, 1, 2, 3, 0, 0, 4, 5, 6, 0, 0, 0, 0, 0, 0]);
    let mut buffer = vec![7u8; 15];
    draw(&mut buffer, &info, usize::MAX, 0, &rows);
    assert_eq!(buffer, vec![7u8; 15]);
}

#[test]
fn font_lookup_falls_back_to_the_backup_character() {
    assert_eq!(get_char_raster('a'), Some(noto('a')));
    assert_eq!(get_char_raster('\u{fffd}'), Some(noto('\u{fffd}')));
    assert_eq!(get_char_raster('\u{4e2d}'), Some(noto('\u{fffd}')));
    assert_ne!(get_char_raster('a'), get_char_raster('b'));
}

#[test]
fn wipe_zeroes_every_byte() {
    let mut buffer = vec![5u8; 33];
    wipe(&mut buffer);
    assert_eq!(buffer, vec![0u8; 33]);
}

#[test]
fn scroll_moves_text_up_one_line_and_blanks_the_last() {
    let info = info(2, 50, 3, 2);
    let mut buffer: Vec<u8> = (0..300).map(|k| (k / 6) as u8 + 1).collect();
    let before = buffer.clone();
    scroll_up(&mut buffer, &info);
    for row in 0..50 {
        for col in 0..3 {
            for byte in 0..2 {
                let k = (row * 3 + col) * 2 + byte;
                let expected = if row < 24 {
                    before[k + 24 * 6]
                } else if row < 48 && col < 2 {
                    0
                } else {
                    before[k]
                };
                assert_eq!(buffer[k], expected, "row {row} col {col}");
            }
        }
    }
}

#[test]
fn scroll_leaves_a_screen_without_a_whole_line_alone() {
    let info = info(2, 23, 3, 2);
    let mut buffer = vec![4u8; 23 * 6];
    scroll_up(&mut buffer, &info);
    assert_eq!(buffer, vec![4u8; 23 * 6]);
    let info = info_one_line();
    let mut buffer = vec![4u8; 24 * 6];
    scroll_up(&mut buffer, &info);
    for (k, byte) in buffer.iter().enumerate() {
        assert_eq!(*byte, if (k / 2) % 3 < 2 { 0 } else { 4 });
    }
}

fn info_one_line() -> FrameBufferInfo {
    info(2, 24, 3, 2)
}

#[test]
fn characters_are_drawn_side_by_side() {
    let mut writer = console(100, 100);
    writer.write_char('h');
    writer.write_char('i');
    assert!(shows(&writer, 'h', 0, 0));
    assert!(shows(&writer, 'i', 11, 0));
    assert_eq!(writer.position(), Point::new(22, 0));
}

#[test]
fn line_feed_and_carriage_return_move_the_cursor() {
    let mut writer = console(100, 100);
    writer.write_char('a');
    writer.write_char('\r');
    assert_eq!(writer.position(), Point::new(0, 0));
    writer.write_char('a');
    writer.write_char('\n');
    assert_eq!(writer.position(), Point::new(0, 24));
    writer.forward();
    writer.forward();
    assert_eq!(writer.position(), Point::new(22, 24));
    writer.back();
    assert_eq!(writer.position(), Point::new(11, 24));
    writer.back();
    writer.back();
    assert_eq!(writer.position(), Point::new(0, 24));
    writer.newline();
    assert_eq!(writer.position(), Point::new(0, 48));
    writer.forward();
    writer.carriage_return();
    assert_eq!(writer.position(), Point::new(0, 48));
}

#[test]
fn text_wraps_at_the_right_edge() {
    let mut writer = console(30, 100);
    writer.write_str("abc");
    assert!(shows(&writer, 'a', 0, 0));
    assert!(shows(&writer, 'b', 11, 0));
    assert!(shows(&writer, 'c', 0, 24));
    assert_eq!(writer.position(), Point::new(11, 24));
}

#[test]
fn text_scrolls_at_the_bottom_edge() {
    let mut writer = console(100, 50);
    writer.write_str("a\nb\nc");
    assert!(shows(&writer, 'b', 0, 0));
    assert!(shows(&writer, 'c', 0, 24));
    assert_eq!(writer.position(), Point::new(11, 24));
    assert_eq!(at(&writer, 50, 30), 0);
}

#[test]
fn unknown_character_is_drawn_as_the_backup_character() {
    let mut writer = console(100, 100);
    writer.write_char('\u{4e2d}');
    assert!(shows(&writer, '\u{fffd}', 0, 0));
}

#[test]
fn clear_blackens_the_frame_and_homes_the_cursor() {
    let mut writer = console(100, 100);
    writer.write_str("hello\nworld");
    assert!(writer.buffer().iter().any(|b| *b != 0));
    writer.clear();
    assert!(writer.buffer().iter().all(|b| *b == 0));
    assert_eq!(writer.position(), Point::new(0, 0));
    assert_eq!(writer.buffer().len(), 103 * 100 * 4);
}

#[test]
fn writer_sets_single_pixels() {
    let mut writer = console(10, 10);
    writer.set_pixel(&Pixel::new(Point::new(3, 4), Color::new(10, 20, 30)));
    let index = (4 * 13 + 3) * 4;
    assert_eq!(&writer.buffer()[index..index + 4], &[10, 20, 30, 0]);
    assert_eq!(writer.buffer().iter().filter(|b| **b != 0).count(), 3);
    writer.write_rendered_char(None);
    assert_eq!(writer.position(), Point::new(11, 0));
    writer.scroll();
    assert_eq!(writer.position(), Point::new(11, 0));
}

#[test]
fn cursor_stops_at_the_largest_position() {
    let mut writer = console(10, 10);
    for _ in 0..3 {
        writer.forward();
    }
    assert_eq!(writer.position(), Point::new(33, 0));
    writer.write_char('x');
    assert_eq!(writer.position(), Point::new(11, 0));
}

#[test]
fn wrapper_has_no_console_until_a_frame_is_set() {
    let mut wrapper = FrameBufferWrapper::new();
    assert!(wrapper.get_framebuffer().is_none());
    wrapper.set_framebuffer(None);
    assert!(wrapper.get_framebuffer().is_none());
    wrapper.set_framebuffer(Some((info(4, 3, 5, 4), vec![8; 59])));
    assert!(wrapper.get_framebuffer().is_none());
    init_framebuffer(&mut wrapper, Some((info(40, 30, 40, 4), vec![8; 4800])));
    let writer = wrapper.get_framebuffer().unwrap();
    assert_eq!(writer.info(), info(40, 30, 40, 4));
    assert_eq!(writer.buffer(), &vec![0u8; 4800]);
    assert_eq!(writer.position(), Point::new(0, 0));
    wrapper.set_framebuffer(None);
    assert!(wrapper.get_framebuffer().is_some());
}

#[test]
fn print_writes_through_the_wrapper() {
    let mut wrapper = FrameBufferWrapper::new();
    init_framebuffer(&mut wrapper, Some((info(100, 100, 103, 4), vec![0; 103 * 100 * 4])));
    _print(&mut wrapper, "ok");
    let writer = wrapper.get_framebuffer().unwrap();
    assert!(shows(writer, 'o', 0, 0));
    assert!(shows(writer, 'k', 11, 0));
    assert_eq!(writer.position(), Point::new(22, 0));
}
