//! The descriptor of the session's staging texture: the GPU resource
//! into which each raw frame's client subregion is copied before it is
//! exposed to the consumer.
//!
//! At most one staging texture is live per session, always sized to the
//! current client region. The texture itself lives on the GPU and is
//! created by the embedding; this descriptor carries every parameter of
//! that creation, so the decision of *what* to allocate is verified.

use vstd::prelude::*;

verus! {

/// CPU-access flag requesting read access on a staging-usage texture.
pub const CPU_ACCESS_READ: u32 = 0x20000;

/// How the texture is allocated: resident on the GPU only, or in
/// staging memory that the CPU can map for reading.
#[derive(Clone, Copy, Debug, PartialEq, Eq, Structural)]
pub enum TextureUsage {
    /// Default usage: GPU-resident, not CPU-mappable.
    Gpu,
    /// Staging usage: CPU-mappable for read-back.
    Staging,
}

/// Full description of one staging texture allocation.
#[derive(Clone, Copy, Debug, PartialEq, Eq, Structural)]
pub struct StagingTexture {
    pub width: u32,
    pub height: u32,
    /// Pixel format, taken verbatim from the source frame's surface.
    pub format: u32,
    pub mip_levels: u32,
    pub array_size: u32,
    pub sample_count: u32,
    pub sample_quality: u32,
    pub bind_flags: u32,
    pub misc_flags: u32,
    pub usage: TextureUsage,
    pub cpu_access_flags: u32,
}

impl StagingTexture {
    /// What `new` builds, as a spec-level value.
    pub open spec fn spec_new(width: u32, height: u32, format: u32, cpu_access: bool) -> Self {
        StagingTexture {
            width,
            height,
            format,
            mip_levels: 1,
            array_size: 1,
            sample_count: 1,
            sample_quality: 0,
            bind_flags: 0,
            misc_flags: 0,
            usage: if cpu_access {
                TextureUsage::Staging
            } else {
                TextureUsage::Gpu
            },
            cpu_access_flags: if cpu_access {
                CPU_ACCESS_READ
            } else {
                0
            },
        }
    }

    /// Whether this allocation can be mapped for CPU reads.
    pub open spec fn spec_cpu_accessible(self) -> bool {
        self.usage is Staging && self.cpu_access_flags == CPU_ACCESS_READ
    }

    /// Describe the staging texture for one client region: a single
    /// plain 2D surface in the source's pixel format; CPU access asks
    /// for a staging-usage texture with read access, otherwise the
    /// texture is GPU-only with default usage.
    pub fn new(width: u32, height: u32, format: u32, cpu_access: bool) -> (t: Self)
        ensures
            t == Self::spec_new(width, height, format, cpu_access),
            t.spec_cpu_accessible() == cpu_access,
    {
        let usage = if cpu_access {
            TextureUsage::Staging
        } else {
            TextureUsage::Gpu
        };
        let cpu_access_flags = if cpu_access {
            CPU_ACCESS_READ
        } else {
            0
        };
        StagingTexture {
            width,
            height,
            format,
            mip_levels: 1,
            array_size: 1,
            sample_count: 1,
            sample_quality: 0,
            bind_flags: 0,
            misc_flags: 0,
            usage,
            cpu_access_flags,
        }
    }
}

} // verus!
