//! Surface configuration: pixel format selection, the configuration record,
//! and its resize rules.

use vstd::prelude::*;

verus! {

/// A pixel format the presentation surface can be configured with. The
/// `..Srgb` variants store gamma-encoded color; `Other` stands for any format
/// the backend may report beyond the common ones.
#[derive(Clone, Copy, Debug, PartialEq, Eq, Structural)]
pub enum PixelFormat {
    Rgba8Unorm,
    Rgba8UnormSrgb,
    Bgra8Unorm,
    Bgra8UnormSrgb,
    Rgba16Float,
    Other,
}

impl PixelFormat {
    /// Whether the format is a standard gamma-encoded (sRGB) color format.
    pub open spec fn is_srgb_spec(self) -> bool {
        self is Rgba8UnormSrgb || self is Bgra8UnormSrgb
    }

    pub fn is_srgb(&self) -> (r: bool)
        ensures
            r == self.is_srgb_spec(),
    {
        match self {
            PixelFormat::Rgba8UnormSrgb => true,
            PixelFormat::Bgra8UnormSrgb => true,
            _ => false,
        }
    }
}

/// How presentation of a finished frame is scheduled by the backend.
#[derive(Clone, Copy, Debug, PartialEq, Eq, Structural)]
pub enum PresentMode {
    AutoVsync,
    AutoNoVsync,
    Fifo,
    FifoRelaxed,
    Immediate,
    Mailbox,
}

/// How the surface's alpha channel is composited with the windowing system.
#[derive(Clone, Copy, Debug, PartialEq, Eq, Structural)]
pub enum AlphaMode {
    Auto,
    Opaque,
    PreMultiplied,
    PostMultiplied,
    Inherit,
}

/// Usage bits asked of the surface's textures: render-attachment use only.
pub const RENDER_ATTACHMENT_USAGE: u32 = 16;

/// The number of frames the presentation engine may queue before blocking
/// further acquisition.
pub const DESIRED_MAXIMUM_FRAME_LATENCY: u32 = 2;

/// The configuration applied to the presentation surface. Dimensions of a
/// configuration that has been applied are always strictly positive.
#[derive(Clone, Copy, Debug, PartialEq, Eq, Structural)]
pub struct SurfaceConfiguration {
    pub usage: u32,
    pub format: PixelFormat,
    pub width: u32,
    pub height: u32,
    pub present_mode: PresentMode,
    pub alpha_mode: AlphaMode,
    pub desired_maximum_frame_latency: u32,
}

impl SurfaceConfiguration {
    /// A configuration may only be applied with strictly positive dimensions.
    pub open spec fn well_formed(self) -> bool {
        self.width > 0 && self.height > 0
    }

    /// Applies a resize request. A request with a zero dimension is invalid
    /// and leaves the configuration unchanged; a valid request replaces the
    /// dimensions exactly and touches nothing else.
    pub fn resize(&mut self, width: u32, height: u32) -> (applied: bool)
        ensures
            applied == (width > 0 && height > 0),
            applied ==> *final(self) == (SurfaceConfiguration {
                width,
                height,
                ..*old(self)
            }),
            !applied ==> *final(self) == *old(self),
            old(self).well_formed() ==> final(self).well_formed(),
    {
        if width == 0 || height == 0 {
            return false;
        }
        self.width = width;
        self.height = height;
        true
    }
}

/// The first gamma-encoded format in `formats`, or `fallback` when none is.
pub open spec fn first_srgb_or(formats: Seq<PixelFormat>, fallback: PixelFormat) -> PixelFormat
    decreases formats.len(),
{
    if formats.len() == 0 {
        fallback
    } else if formats[0].is_srgb_spec() {
        formats[0]
    } else {
        first_srgb_or(formats.drop_first(), fallback)
    }
}

/// The format the surface is configured with: the first format the backend
/// flags as gamma-encoded, or the first reported format when none is flagged.
pub open spec fn chosen_format(formats: Seq<PixelFormat>) -> PixelFormat
    recommends
        formats.len() > 0,
{
    first_srgb_or(formats, formats[0])
}

proof fn lemma_first_srgb_or_found(formats: Seq<PixelFormat>, fallback: PixelFormat, i: int)
    requires
        0 <= i < formats.len(),
        formats[i].is_srgb_spec(),
        forall|j: int| 0 <= j < i ==> !formats[j].is_srgb_spec(),
    ensures
        first_srgb_or(formats, fallback) == formats[i],
    decreases i,
{
    if i > 0 {
        assert(!formats[0].is_srgb_spec());
        let rest = formats.drop_first();
        assert(rest[i - 1] == formats[i]);
        assert forall|j: int| 0 <= j < i - 1 implies !rest[j].is_srgb_spec() by {
            assert(rest[j] == formats[j + 1]);
        }
        lemma_first_srgb_or_found(rest, fallback, i - 1);
    }
}

proof fn lemma_first_srgb_or_none(formats: Seq<PixelFormat>, fallback: PixelFormat)
    requires
        forall|j: int| 0 <= j < formats.len() ==> !formats[j].is_srgb_spec(),
    ensures
        first_srgb_or(formats, fallback) == fallback,
    decreases formats.len(),
{
    if formats.len() > 0 {
        let rest = formats.drop_first();
        assert forall|j: int| 0 <= j < rest.len() implies !rest[j].is_srgb_spec() by {
            assert(rest[j] == formats[j + 1]);
        }
        lemma_first_srgb_or_none(rest, fallback);
    }
}

/// Selects the surface format from the backend's reported list: the first
/// sRGB-flagged format, otherwise the first format overall.
pub fn choose_surface_format(formats: &Vec<PixelFormat>) -> (r: PixelFormat)
    requires
        formats@.len() > 0,
    ensures
        r == chosen_format(formats@),
{
    let mut i: usize = 0;
    while i < formats.len()
        invariant
            0 <= i <= formats@.len(),
            formats@.len() > 0,
            forall|j: int| 0 <= j < i ==> !formats@[j].is_srgb_spec(),
        decreases formats@.len() - i,
    {
        if formats[i].is_srgb() {
            proof {
                lemma_first_srgb_or_found(formats@, formats@[0], i as int);
            }
            return formats[i];
        }
        i += 1;
    }
    proof {
        lemma_first_srgb_or_none(formats@, formats@[0]);
    }
    formats[0]
}

/// The initial surface configuration: render-attachment usage, the chosen
/// format, the window size clamped to be strictly positive, the backend's
/// first reported present and alpha modes, and a frame-latency bound of two.
pub fn initial_config(
    formats: &Vec<PixelFormat>,
    present_modes: &Vec<PresentMode>,
    alpha_modes: &Vec<AlphaMode>,
    width: u32,
    height: u32,
) -> (c: SurfaceConfiguration)
    requires
        formats@.len() > 0,
        present_modes@.len() > 0,
        alpha_modes@.len() > 0,
    ensures
        c.usage == RENDER_ATTACHMENT_USAGE,
        c.format == chosen_format(formats@),
        c.width == (if width == 0 { 1u32 } else { width }),
        c.height == (if height == 0 { 1u32 } else { height }),
        c.present_mode == present_modes@[0],
        c.alpha_mode == alpha_modes@[0],
        c.desired_maximum_frame_latency == DESIRED_MAXIMUM_FRAME_LATENCY,
        c.well_formed(),
{
    let format = choose_surface_format(formats);
    SurfaceConfiguration {
        usage: RENDER_ATTACHMENT_USAGE,
        format,
        width: if width == 0 { 1 } else { width },
        height: if height == 0 { 1 } else { height },
        present_mode: present_modes[0],
        alpha_mode: alpha_modes[0],
        desired_maximum_frame_latency: DESIRED_MAXIMUM_FRAME_LATENCY,
    }
}

} // verus!
