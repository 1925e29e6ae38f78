//! Text output on the pixel framebuffer.

pub mod font;
pub mod utils;
pub mod wrapper;
pub mod writer;

use crate::framebuffer::wrapper::FrameBufferWrapper;
use crate::framebuffer::writer::blank;
use crate::framebuffer::writer::written_all;
use crate::framebuffer::writer::FrameBufferInfo;
use crate::framebuffer::writer::WriterView;
use vstd::prelude::*;

verus! {

/// Writes a text to the console.
pub fn _print(wrapper: &mut FrameBufferWrapper, text: &str)
    requires
        old(wrapper).console() is Some,
    ensures
        final(wrapper).console() matches Some(console) && console@ == written_all(
            old(wrapper).console()->0@,
            text@,
        ),
{
    match wrapper.get_framebuffer() {
        Some(writer) => {
            writer.write_str(text);
        },
        None => {},
    }
}

/// Sets up the console on a frame, if there is one.
pub fn init_framebuffer(
    wrapper: &mut FrameBufferWrapper,
    frame_buffer: Option<(FrameBufferInfo, Vec<u8>)>,
)
    ensures
        match frame_buffer {
            Some((info, buffer)) if info.fits(buffer@.len() as int) => final(wrapper).console() matches Some(console) && console@ == (WriterView {
                info,
                buffer: blank(buffer@.len()),
                x_pos: 0,
                y_pos: 0,
            }),
            _ => final(wrapper).console() == old(wrapper).console(),
        },
{
    wrapper.set_framebuffer(frame_buffer);
}

} // verus!
