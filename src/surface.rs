use vstd::prelude::*;
use crate::error::VulkanError;

verus! {

/// The size of a presentable image, in pixels.
#[derive(Debug, Clone, Copy, PartialEq, Eq, Hash, Structural)]
pub struct Extent {
    pub width: u32,
    pub height: u32,
}

impl Extent {
    pub open spec fn zero_area(&self) -> bool {
        self.width == 0 || self.height == 0
    }

    /// True when either side is zero: no frame can be drawn at this size.
    pub fn is_zero_area(&self) -> (r: bool)
        ensures
            r == self.zero_area(),
    {
        self.width == 0 || self.height == 0
    }
}

/// How presented images are blended with what lies behind the window.
#[derive(Debug, Clone, Copy, PartialEq, Eq, Hash, Structural)]
pub enum CompositeAlpha {
    Opaque,
    PreMultiplied,
    PostMultiplied,
    Inherit,
}

/// What the surface reports it can do.
#[derive(Debug, Clone)]
pub struct SurfaceCapabilities {
    pub min_image_count: u32,
    /// Supported blend modes, in the order the surface reports them.
    pub supported_composite_alpha: Vec<CompositeAlpha>,
}

/// The chosen configuration of the set of presentable images.
#[derive(Debug, Clone, Copy, PartialEq, Eq, Hash, Structural)]
pub struct SurfaceConfig {
    pub image_count: u32,
    /// Position of the colour format in the list of formats the surface offers.
    pub format_index: usize,
    pub composite_alpha: CompositeAlpha,
    pub extent: Extent,
}

/// The configuration first chosen for a surface: the fewest images it allows,
/// its first colour format, its first blend mode (opaque when it lists none),
/// at the requested size.
pub open spec fn initial_config(caps_min: u32, alphas: Seq<CompositeAlpha>, extent: Extent) -> SurfaceConfig {
    SurfaceConfig {
        image_count: caps_min,
        format_index: 0,
        composite_alpha: if alphas.len() > 0 { alphas[0] } else { CompositeAlpha::Opaque },
        extent,
    }
}

/// The same configuration at another size.
pub open spec fn resized(c: SurfaceConfig, extent: Extent) -> SurfaceConfig {
    SurfaceConfig { extent, ..c }
}

impl SurfaceConfig {
    /// Chooses the configuration of a new surface that offers `format_count`
    /// colour formats. Fails with `SwapchainError`, and only then, when it
    /// offers none.
    pub fn create(caps: &SurfaceCapabilities, format_count: usize, extent: Extent) -> (r: Result<SurfaceConfig, VulkanError>)
        ensures
            r.is_err() == (format_count == 0),
            r matches Err(e) ==> e is SwapchainError,
            r matches Ok(c) ==> c == initial_config(caps.min_image_count, caps.supported_composite_alpha@, extent),
    {
        if format_count == 0 {
            return Err(VulkanError::SwapchainError(String::from_str("No suitable surface format found")));
        }
        let composite_alpha = if caps.supported_composite_alpha.len() > 0 {
            caps.supported_composite_alpha[0]
        } else {
            CompositeAlpha::Opaque
        };
        Ok(SurfaceConfig { image_count: caps.min_image_count, format_index: 0, composite_alpha, extent })
    }

    /// The configuration of the surface rebuilt at `extent`: image count,
    /// format and blend mode are kept. A zero-area size is never rebuilt to.
    pub fn recreate(&self, extent: Extent) -> (r: SurfaceConfig)
        requires
            !extent.zero_area(),
        ensures
            r == resized(*self, extent),
    {
        SurfaceConfig { extent, ..*self }
    }

    /// The size of the depth image that goes with this surface.
    pub fn depth_extent(&self) -> (r: Extent)
        ensures
            r == self.extent,
    {
        self.extent
    }
}

/// Resizing to some size and back again gives the configuration first had:
/// image count, format and blend mode never change, and only the size of the
/// intermediate step differs.
pub proof fn lemma_resize_round_trip(c: SurfaceConfig, e: Extent)
    ensures
        resized(resized(c, e), c.extent) == c,
        resized(c, e).image_count == c.image_count,
        resized(c, e).format_index == c.format_index,
        resized(c, e).composite_alpha == c.composite_alpha,
        resized(c, e).extent == e,
{
}

} // verus!
