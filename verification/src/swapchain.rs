//! Planning a presentable image chain: surface-format choice, present-mode
//! choice, extent clamping and image-count selection, computed from the
//! surface's reported capabilities.

use vstd::prelude::*;

verus! {

/// A two-dimensional pixel extent.
#[derive(Clone, Copy, Debug, PartialEq, Eq, Structural)]
pub struct Extent2D {
    pub width: u32,
    pub height: u32,
}

/// A color format / color space pair as reported for the surface, by raw
/// numeric identifier.
#[derive(Clone, Copy, Debug, PartialEq, Eq, Structural)]
pub struct SurfaceFormat {
    pub format: u32,
    pub color_space: u32,
}

/// Raw identifier of the preferred display-correct 8-bit sRGB format.
pub const FORMAT_B8G8R8A8_SRGB: u32 = 50;

/// Raw identifier of the standard sRGB non-linear color space.
pub const COLOR_SPACE_SRGB_NONLINEAR: u32 = 0;

/// Sentinel width meaning the surface reports no fixed current extent.
pub const EXTENT_UNDEFINED: u32 = 0xffff_ffff;

/// How presented images are paced against the display.
#[derive(Clone, Copy, Debug, PartialEq, Eq, Structural)]
pub enum PresentMode {
    Immediate,
    Mailbox,
    Fifo,
    FifoRelaxed,
}

/// Surface capabilities as reported at planning time.
#[derive(Clone, Copy, Debug, PartialEq, Eq, Structural)]
pub struct SurfaceCaps {
    pub min_image_count: u32,
    /// Zero means the surface imposes no maximum.
    pub max_image_count: u32,
    /// `EXTENT_UNDEFINED` as width means the surface has no fixed extent.
    pub current_extent: Extent2D,
    pub min_image_extent: Extent2D,
    pub max_image_extent: Extent2D,
}

impl SurfaceCaps {
    /// What every well-formed surface report satisfies.
    pub open spec fn wf(self) -> bool {
        &&& 1 <= self.min_image_count < 0xffff_ffffu32
        &&& self.max_image_count == 0 || self.min_image_count <= self.max_image_count
        &&& self.min_image_extent.width <= self.max_image_extent.width
        &&& self.min_image_extent.height <= self.max_image_extent.height
    }
}

/// The preferred surface format: display-correct 8-bit sRGB.
pub open spec fn is_preferred_format(f: SurfaceFormat) -> bool {
    f.format == FORMAT_B8G8R8A8_SRGB && f.color_space == COLOR_SPACE_SRGB_NONLINEAR
}

/// What the format choice must be: the preferred pair when supported,
/// otherwise the first reported format.
pub open spec fn format_choice_ok(formats: Seq<SurfaceFormat>, f: SurfaceFormat) -> bool {
    if exists|i: int| 0 <= i < formats.len() && is_preferred_format(formats[i]) {
        is_preferred_format(f) && formats.contains(f)
    } else {
        formats.len() > 0 && f == formats[0]
    }
}

/// Choose the surface format: the preferred sRGB pair when the surface
/// supports it, otherwise the first reported format; no format at all is an
/// error.
pub fn choose_surface_format(formats: &Vec<SurfaceFormat>) -> (r: Option<SurfaceFormat>)
    ensures
        r is Some <==> formats@.len() > 0,
        r matches Some(f) ==> format_choice_ok(formats@, f),
{
    let mut i: usize = 0;
    while i < formats.len()
        invariant
            0 <= i <= formats@.len(),
            forall|j: int| 0 <= j < i ==> !is_preferred_format(formats@[j]),
        decreases formats@.len() - i,
    {
        let f = formats[i];
        if f.format == FORMAT_B8G8R8A8_SRGB && f.color_space == COLOR_SPACE_SRGB_NONLINEAR {
            assert(formats@.contains(f));
            return Some(f);
        }
        i += 1;
    }
    if formats.len() > 0 {
        Some(formats[0])
    } else {
        None
    }
}

/// The present mode the planner picks from what the surface supports.
pub open spec fn spec_choose_present_mode(modes: Seq<PresentMode>) -> PresentMode {
    if modes.contains(PresentMode::Immediate) {
        PresentMode::Immediate
    } else if modes.contains(PresentMode::Mailbox) {
        PresentMode::Mailbox
    } else {
        PresentMode::Fifo
    }
}

/// Choose the present mode: prefer the no-wait immediate mode, fall back to
/// the no-tear triple-buffered mailbox mode, and finally to the
/// always-available vsynced fifo mode.
pub fn choose_present_mode(modes: &Vec<PresentMode>) -> (r: PresentMode)
    ensures
        r == spec_choose_present_mode(modes@),
{
    let mut i: usize = 0;
    while i < modes.len()
        invariant
            0 <= i <= modes@.len(),
            forall|j: int| 0 <= j < i ==> modes@[j] != PresentMode::Immediate,
        decreases modes@.len() - i,
    {
        if modes[i] == PresentMode::Immediate {
            assert(modes@.contains(PresentMode::Immediate));
            return PresentMode::Immediate;
        }
        i += 1;
    }
    assert(!modes@.contains(PresentMode::Immediate));
    let mut i: usize = 0;
    while i < modes.len()
        invariant
            0 <= i <= modes@.len(),
            forall|j: int| 0 <= j < i ==> modes@[j] != PresentMode::Mailbox,
            !modes@.contains(PresentMode::Immediate),
        decreases modes@.len() - i,
    {
        if modes[i] == PresentMode::Mailbox {
            assert(modes@.contains(PresentMode::Mailbox));
            return PresentMode::Mailbox;
        }
        i += 1;
    }
    assert(!modes@.contains(PresentMode::Mailbox));
    PresentMode::Fifo
}

/// The extent the planner settles on for a requested size.
pub open spec fn spec_choose_extent(caps: SurfaceCaps, width: u32, height: u32) -> Extent2D {
    if caps.current_extent.width != EXTENT_UNDEFINED {
        caps.current_extent
    } else {
        Extent2D {
            width: clamp_u32(width, caps.min_image_extent.width, caps.max_image_extent.width),
            height: clamp_u32(height, caps.min_image_extent.height, caps.max_image_extent.height),
        }
    }
}

/// `v` clamped into `[lo, hi]`.
pub open spec fn clamp_u32(v: u32, lo: u32, hi: u32) -> u32 {
    if v < lo {
        lo
    } else if v > hi {
        hi
    } else {
        v
    }
}

/// Choose the chain extent: the surface's fixed current extent when it
/// reports one, otherwise the requested size clamped into the surface bounds.
pub fn choose_extent(caps: &SurfaceCaps, width: u32, height: u32) -> (r: Extent2D)
    requires
        caps.wf(),
    ensures
        r == spec_choose_extent(*caps, width, height),
{
    if caps.current_extent.width != EXTENT_UNDEFINED {
        caps.current_extent
    } else {
        let w = if width < caps.min_image_extent.width {
            caps.min_image_extent.width
        } else if width > caps.max_image_extent.width {
            caps.max_image_extent.width
        } else {
            width
        };
        let h = if height < caps.min_image_extent.height {
            caps.min_image_extent.height
        } else if height > caps.max_image_extent.height {
            caps.max_image_extent.height
        } else {
            height
        };
        Extent2D { width: w, height: h }
    }
}

/// The image count the planner requests: one more than the surface minimum,
/// clamped to the surface maximum when one is reported.
pub open spec fn spec_choose_image_count(caps: SurfaceCaps) -> u32 {
    if caps.max_image_count > 0 && caps.min_image_count + 1 > caps.max_image_count {
        caps.max_image_count
    } else {
        (caps.min_image_count + 1) as u32
    }
}

/// Choose how many chain images to request.
pub fn choose_image_count(caps: &SurfaceCaps) -> (n: u32)
    requires
        caps.wf(),
    ensures
        n == spec_choose_image_count(*caps),
        caps.min_image_count <= n,
        caps.max_image_count > 0 ==> n <= caps.max_image_count,
{
    let mut n = caps.min_image_count + 1;
    if caps.max_image_count > 0 && n > caps.max_image_count {
        n = caps.max_image_count;
    }
    n
}

/// Why a chain could not be planned.
#[derive(Clone, Copy, Debug, PartialEq, Eq, Structural)]
pub enum ChainError {
    /// The surface reported no color format at all.
    NoSurfaceFormat,
}

impl ChainError {
    /// A short description for diagnostics.
    pub fn message(&self) -> (r: &'static str)
        ensures
            r@ == "no suitable surface format"@,
    {
        match self {
            ChainError::NoSurfaceFormat => "no suitable surface format",
        }
    }
}

/// Everything a new presentable image chain is built from.
#[derive(Clone, Copy, Debug, PartialEq, Eq, Structural)]
pub struct SwapchainPlan {
    pub format: SurfaceFormat,
    pub present_mode: PresentMode,
    pub extent: Extent2D,
    pub image_count: u32,
}

impl SwapchainPlan {
    /// The plan that follows from a surface report and a requested size.
    pub open spec fn wf_for(
        self,
        caps: SurfaceCaps,
        formats: Seq<SurfaceFormat>,
        modes: Seq<PresentMode>,
        width: u32,
        height: u32,
    ) -> bool {
        &&& format_choice_ok(formats, self.format)
        &&& self.present_mode == spec_choose_present_mode(modes)
        &&& self.extent == spec_choose_extent(caps, width, height)
        &&& self.image_count == spec_choose_image_count(caps)
    }
}

/// Plan a presentable image chain from the surface report and a requested
/// size: format, present mode, extent and image count, as the individual
/// choice functions settle them.
pub fn plan_swapchain(
    caps: &SurfaceCaps,
    formats: &Vec<SurfaceFormat>,
    modes: &Vec<PresentMode>,
    width: u32,
    height: u32,
) -> (r: Result<SwapchainPlan, ChainError>)
    requires
        caps.wf(),
    ensures
        r is Ok <==> formats@.len() > 0,
        r matches Ok(p) ==> p.wf_for(*caps, formats@, modes@, width, height),
        r matches Ok(p) ==> caps.min_image_count <= p.image_count,
        r matches Ok(p) ==> caps.max_image_count > 0 ==> p.image_count <= caps.max_image_count,
        r is Err ==> r == Result::<SwapchainPlan, ChainError>::Err(ChainError::NoSurfaceFormat),
{
    let format = match choose_surface_format(formats) {
        Some(f) => f,
        None => {
            return Err(ChainError::NoSurfaceFormat);
        },
    };
    let present_mode = choose_present_mode(modes);
    let extent = choose_extent(caps, width, height);
    let image_count = choose_image_count(caps);
    Ok(SwapchainPlan { format, present_mode, extent, image_count })
}

} // verus!
