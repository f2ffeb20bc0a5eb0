use vstd::prelude::*;

use crate::error::RenderError;

verus! {

/// Pixel size of a drawable surface.
#[derive(Clone, Copy, Debug, PartialEq, Eq, Structural)]
pub struct Extent2D {
    pub width: u32,
    pub height: u32,
}

impl Extent2D {
    /// A zero-area extent: the window is minimized or still resizing,
    /// and no swapchain can be built against it.
    pub open spec fn is_degenerate(self) -> bool {
        self.width == 0 || self.height == 0
    }

    /// Executable check matching `is_degenerate`.
    pub fn is_zero(&self) -> (r: bool)
        ensures
            r == self.is_degenerate(),
    {
        self.width == 0 || self.height == 0
    }
}

/// A color format paired with a color space, as the surface reports them.
/// The numeric codes are the ones the platform graphics API assigns.
#[derive(Clone, Copy, Debug, PartialEq, Eq, Structural)]
pub struct SurfaceFormat {
    pub format: u32,
    pub color_space: u32,
}

/// Code of the 8-bit BGRA sRGB color format the renderer prefers.
pub const PREFERRED_FORMAT: u32 = 50;

/// Code of the nonlinear sRGB color space the renderer prefers.
pub const PREFERRED_COLOR_SPACE: u32 = 0;

/// The (format, color space) pair the renderer asks for first.
pub open spec fn preferred_pair() -> SurfaceFormat {
    SurfaceFormat { format: PREFERRED_FORMAT, color_space: PREFERRED_COLOR_SPACE }
}

/// Whether a reported format is the preferred pair.
pub open spec fn is_preferred(f: SurfaceFormat) -> bool {
    f == preferred_pair()
}

/// What the surface and device report at (re)creation time.
#[derive(Clone, Debug)]
pub struct SurfaceCaps {
    /// Fewest presentable images the device supports.
    pub min_image_count: u32,
    /// Most presentable images the device supports; `None` means unbounded.
    pub max_image_count: Option<u32>,
    /// Drawable size the surface currently reports, if it reports one.
    pub current_extent: Option<Extent2D>,
    /// Supported (format, color space) pairs, in the surface's order.
    pub formats: Vec<SurfaceFormat>,
}

impl SurfaceCaps {
    /// Capability reports are consistent: the minimum is positive and the
    /// maximum, when bounded, is no smaller than the minimum.
    pub open spec fn wf(self) -> bool {
        &&& self.min_image_count >= 1
        &&& (self.max_image_count matches Some(m) ==> m >= self.min_image_count)
    }
}

/// One presentable image of a swapchain generation.
#[derive(Clone, Copy, Debug, PartialEq, Eq, Structural)]
pub struct SwapchainImage {
    /// Generation of the chain the image belongs to.
    pub generation: u64,
    /// Position of the image within its chain.
    pub index: u32,
    /// Pixel size of the image, equal to the chain's extent.
    pub extent: Extent2D,
}

/// Metadata of one swapchain generation. A chain is never patched in
/// place: a rebuild replaces it wholesale with the next generation.
#[derive(Clone, Copy, Debug, PartialEq, Eq, Structural)]
pub struct Swapchain {
    /// Color format and color space the chain was created with.
    pub format: SurfaceFormat,
    /// Pixel size of every image in the chain.
    pub extent: Extent2D,
    /// Number of presentable images in the chain.
    pub image_count: u32,
    /// How many rebuilds preceded this chain.
    pub generation: u64,
}

/// A swapchain together with its presentable images.
#[derive(Clone, Debug)]
pub struct SwapchainBundle {
    pub swapchain: Swapchain,
    pub images: Vec<SwapchainImage>,
}

impl SwapchainBundle {
    /// The images describe exactly the chain they came with: one image per
    /// slot, indexed in order, all at the chain's extent and generation.
    pub open spec fn wf(self) -> bool {
        &&& self.images@.len() == self.swapchain.image_count
        &&& forall|i: int|
            0 <= i < self.images@.len() ==> self.images@[i] == (SwapchainImage {
                generation: self.swapchain.generation,
                index: i as u32,
                extent: self.swapchain.extent,
            })
    }
}

/// Image count actually requested from the device: the caller's request
/// raised to at least 2 and at least the device minimum, then capped at
/// the device maximum where one is reported (the cap prevails).
pub open spec fn clamped_image_count(requested: u32, min_count: u32, max_count: Option<u32>) -> u32 {
    let lo: u32 = if min_count >= 2 { min_count } else { 2 };
    let raised: u32 = if requested >= lo { requested } else { lo };
    match max_count {
        Some(m) => if raised <= m { raised } else { m },
        None => raised,
    }
}

/// Executable clamping matching `clamped_image_count`.
pub fn clamp_image_count(requested: u32, min_count: u32, max_count: Option<u32>) -> (r: u32)
    ensures
        r == clamped_image_count(requested, min_count, max_count),
{
    let lo: u32 = if min_count >= 2 { min_count } else { 2 };
    let raised: u32 = if requested >= lo { requested } else { lo };
    match max_count {
        Some(m) => if raised <= m { raised } else { m },
        None => raised,
    }
}

/// A surface reporting an exact image count (minimum equal to maximum)
/// pins the created count to it, whatever was requested.
pub proof fn lemma_image_count_pinned(requested: u32, n: u32)
    requires
        n >= 2,
    ensures
        clamped_image_count(requested, n, Some(n)) == n,
{
}

/// Extent a (re)created chain resolves to: the surface's reported current
/// extent, falling back to the caller-supplied size.
pub open spec fn resolved_extent(current: Option<Extent2D>, fallback: Extent2D) -> Extent2D {
    match current {
        Some(e) => e,
        None => fallback,
    }
}

/// The format a new chain is created with: the first reported pair that
/// matches the preferred one — which is then the preferred pair itself —
/// falling back to the first reported pair.
pub open spec fn chosen_format(formats: Seq<SurfaceFormat>) -> SurfaceFormat
    recommends
        formats.len() > 0,
{
    if exists|i: int| 0 <= i < formats.len() && is_preferred(formats[i]) {
        preferred_pair()
    } else {
        formats[0]
    }
}

/// Picks the creation format from the surface's reported pairs.
/// Fails only when the surface supports no format at all.
pub fn choose_format(formats: &Vec<SurfaceFormat>) -> (r: Result<SurfaceFormat, RenderError>)
    ensures
        r is Ok <==> formats@.len() > 0,
        r matches Err(e) ==> e == RenderError::DeviceError,
        r matches Ok(f) ==> f == chosen_format(formats@),
{
    if formats.len() == 0 {
        return Err(RenderError::DeviceError);
    }
    let mut i: usize = 0;
    while i < formats.len()
        invariant
            0 <= i <= formats@.len(),
            forall|j: int| 0 <= j < i ==> !is_preferred(formats@[j]),
        decreases formats@.len() - i,
    {
        let f = formats[i];
        if f.format == PREFERRED_FORMAT && f.color_space == PREFERRED_COLOR_SPACE {
            assert(is_preferred(formats@[i as int]));
            return Ok(f);
        }
        i += 1;
    }
    Ok(formats[0])
}

/// Builds the image list of a fresh chain generation.
fn make_images(count: u32, generation: u64, extent: Extent2D) -> (images: Vec<SwapchainImage>)
    ensures
        images@.len() == count,
        forall|i: int|
            0 <= i < images@.len() ==> images@[i] == (SwapchainImage {
                generation,
                index: i as u32,
                extent,
            }),
{
    let mut images: Vec<SwapchainImage> = Vec::new();
    let mut i: u32 = 0;
    while i < count
        invariant
            0 <= i <= count,
            images@.len() == i,
            forall|j: int|
                0 <= j < images@.len() ==> images@[j] == (SwapchainImage {
                    generation,
                    index: j as u32,
                    extent,
                }),
        decreases count - i,
    {
        images.push(SwapchainImage { generation, index: i, extent });
        i += 1;
    }
    images
}

/// Creates the first swapchain generation against the given surface report.
///
/// Chooses the format per `chosen_format`, resolves the extent from the
/// surface (falling back to `fallback_extent`), and clamps the requested
/// image count per `clamped_image_count`. Fails with `DeviceError` exactly
/// when the surface reports no supported format.
pub fn create_swapchain(caps: &SurfaceCaps, requested_images: u32, fallback_extent: Extent2D) -> (r:
    Result<SwapchainBundle, RenderError>)
    requires
        caps.wf(),
    ensures
        r is Ok <==> caps.formats@.len() > 0,
        r matches Err(e) ==> e == RenderError::DeviceError,
        r matches Ok(b) ==> {
            &&& b.wf()
            &&& b.swapchain.generation == 0
            &&& b.swapchain.format == chosen_format(caps.formats@)
            &&& b.swapchain.extent == resolved_extent(caps.current_extent, fallback_extent)
            &&& b.swapchain.image_count == clamped_image_count(
                requested_images,
                caps.min_image_count,
                caps.max_image_count,
            )
        },
{
    let format = choose_format(&caps.formats)?;
    let extent = match caps.current_extent {
        Some(e) => e,
        None => fallback_extent,
    };
    let image_count = clamp_image_count(requested_images, caps.min_image_count, caps.max_image_count);
    let swapchain = Swapchain { format, extent, image_count, generation: 0 };
    let images = make_images(image_count, 0, extent);
    Ok(SwapchainBundle { swapchain, images })
}

/// Replaces a chain with its next generation.
///
/// Reuses every creation parameter of the old chain except the extent,
/// which is resolved from the surface's current report, falling back to
/// the caller-supplied size. Must only be called once all GPU work that
/// references the old chain has been ordered before it; the old chain's
/// images are invalid the instant this returns. Fails with `DeviceError`
/// exactly when the surface reports no supported format, as creation does.
pub fn recreate_swapchain(
    caps: &SurfaceCaps,
    old_swapchain: &Swapchain,
    fallback_extent: Extent2D,
) -> (r: Result<SwapchainBundle, RenderError>)
    requires
        caps.wf(),
        old_swapchain.generation < u64::MAX,
    ensures
        r is Ok <==> caps.formats@.len() > 0,
        r matches Err(e) ==> e == RenderError::DeviceError,
        r matches Ok(b) ==> {
            &&& b.wf()
            &&& b.swapchain.generation == old_swapchain.generation + 1
            &&& b.swapchain.format == old_swapchain.format
            &&& b.swapchain.image_count == old_swapchain.image_count
            &&& b.swapchain.extent == resolved_extent(caps.current_extent, fallback_extent)
        },
{
    if caps.formats.len() == 0 {
        return Err(RenderError::DeviceError);
    }
    let extent = match caps.current_extent {
        Some(e) => e,
        None => fallback_extent,
    };
    let generation = old_swapchain.generation + 1;
    let swapchain = Swapchain {
        format: old_swapchain.format,
        extent,
        image_count: old_swapchain.image_count,
        generation,
    };
    let images = make_images(old_swapchain.image_count, generation, extent);
    Ok(SwapchainBundle { swapchain, images })
}

} // verus!
