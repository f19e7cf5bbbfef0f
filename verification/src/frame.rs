//! The consumer-facing result of one grab.

use vstd::prelude::*;

use crate::geometry::CaptureBox;
use crate::staging_texture::StagingTexture;

verus! {

/// One grabbed frame.
///
/// The frame aliases the session's single live staging texture, so it
/// is only guaranteed valid until the next grab overwrites it. With CPU
/// access the embedding maps that texture for read immediately after
/// the copy and attaches the mapped pointer and row pitch; without, the
/// frame stands for the GPU-resident texture itself.
#[derive(Clone, Copy, Debug, PartialEq, Eq, Structural)]
pub struct Frame {
    /// Key of the backend frame this was produced from; the embedding
    /// looks the backend's own frame object up under it to perform the
    /// copy.
    pub frame_id: u64,
    /// Descriptor of the staging texture the frame aliases; its width
    /// and height are the frame's reported size.
    pub texture: StagingTexture,
    /// The subregion of the source surface that is copied into the
    /// staging texture.
    pub region: CaptureBox,
    /// Whether the staging texture is CPU-mappable, so the embedding
    /// must map it (read, then unmap immediately) and attach pointer
    /// and row pitch.
    pub cpu_access: bool,
    /// Whether producing this frame reallocated the staging texture
    /// (and so recreated the frame pool) for a new content size.
    pub reallocated: bool,
}

impl Frame {
    /// Package a grabbed frame.
    pub fn new(
        frame_id: u64,
        texture: StagingTexture,
        region: CaptureBox,
        cpu_access: bool,
        reallocated: bool,
    ) -> (f: Self)
        ensures
            f == (Frame { frame_id, texture, region, cpu_access, reallocated }),
    {
        Frame { frame_id, texture, region, cpu_access, reallocated }
    }

    /// The descriptor of the texture backing this frame.
    pub fn desc(&self) -> (d: StagingTexture)
        ensures
            d == self.texture,
    {
        self.texture
    }

    /// The frame's width in pixels.
    pub fn width(&self) -> (w: u32)
        ensures
            w == self.texture.width,
    {
        self.texture.width
    }

    /// The frame's height in pixels.
    pub fn height(&self) -> (h: u32)
        ensures
            h == self.texture.height,
    {
        self.texture.height
    }
}

} // verus!
