use crate::framebuffer::writer::blank;
use crate::framebuffer::writer::FrameBufferInfo;
use crate::framebuffer::writer::FramebufferWriter;
use crate::framebuffer::writer::WriterView;
use vstd::prelude::*;

verus! {

/// The place where the console lives once there is a frame to draw on.
#[derive(Debug)]
pub struct FrameBufferWrapper {
    writer: Option<FramebufferWriter>,
}

impl FrameBufferWrapper {
    /// The console, if one has been set up.
    pub closed spec fn console(&self) -> Option<FramebufferWriter> {
        self.writer
    }

    /// A wrapper without a console.
    pub fn new() -> (wrapper: Self)
        ensures
            wrapper.console() is None,
    {
        FrameBufferWrapper { writer: None }
    }

    /// The console, if one has been set up. What is done to it through the
    /// reference is done to the console in the wrapper.
    pub fn get_framebuffer(&mut self) -> (writer: Option<&mut FramebufferWriter>)
        ensures
            match old(self).console() {
                Some(console) => writer is Some && *writer.unwrap() == console && final(self).console() == Some(*final(writer.unwrap())),
                None => writer is None && final(self).console() is None,
            },
    {
        self.writer.as_mut()
    }

    /// Sets up a console on a frame of the given geometry and clears it.
    /// Without a frame, or with a frame that does not fit its buffer, the
    /// wrapper stays as it is.
    pub fn set_framebuffer(&mut self, frame_buffer: Option<(FrameBufferInfo, Vec<u8>)>)
        ensures
            match frame_buffer {
                Some((info, buffer)) if info.fits(buffer@.len() as int) => final(self).console() matches Some(console) && console@ == (WriterView {
                    info,
                    buffer: blank(buffer@.len()),
                    x_pos: 0,
                    y_pos: 0,
                }),
                _ => final(self).console() == old(self).console(),
            },
    {
        if let Some((info, buffer)) = frame_buffer {
            if let Ok(mut writer) = FramebufferWriter::new(info, buffer) {
                writer.clear();
                self.writer = Some(writer);
            }
        }
    }
}

} // verus!
