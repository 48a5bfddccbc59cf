//! The image chain on plain values: what to ask of the surface when the chain
//! is built, and the framebuffers and viewport that follow from its images.

use vstd::prelude::*;

verus! {

/// A size in pixels.
#[derive(Clone, Copy, Debug, PartialEq, Eq, Structural)]
pub struct Extent {
    pub width: u32,
    pub height: u32,
}

/// How the presented image is blended with what lies behind the window.
#[derive(Clone, Copy, Debug, PartialEq, Eq, Structural)]
pub enum CompositeAlpha {
    Opaque,
    PreMultiplied,
    PostMultiplied,
    Inherit,
}

/// What the surface reports it can do, as read at the moment of asking.
#[derive(Clone, Copy, Debug, PartialEq, Eq, Structural)]
pub struct SurfaceCapabilities {
    /// The fewest images a chain on this surface may have.
    pub min_image_count: u32,
    /// The usage flags the surface supports for its images, as a bit set.
    pub supported_usage_flags: u32,
}

/// The request from which an image chain is built.
#[derive(Clone, Copy, Debug, PartialEq, Eq, Structural)]
pub struct SwapchainCreateInfo {
    pub min_image_count: u32,
    /// The pixel format, by its numeric code.
    pub image_format: i32,
    pub image_extent: Extent,
    /// The usage flags of the images, as a bit set.
    pub image_usage: u32,
    pub composite_alpha: CompositeAlpha,
}

/// One presentable image of the chain.
#[derive(Clone, Copy, Debug, PartialEq, Eq, Structural)]
pub struct Image {
    pub extent: Extent,
}

/// A render target bound to one image of the chain.
#[derive(Clone, Copy, Debug, PartialEq, Eq, Structural)]
pub struct Framebuffer {
    /// The place of its image in the chain.
    pub image: usize,
    pub extent: Extent,
}

/// The rectangle of the target that is drawn to, in whole pixels, and the
/// depth range, in whole units.
#[derive(Clone, Copy, Debug, PartialEq, Eq, Structural)]
pub struct Viewport {
    pub offset_x: u32,
    pub offset_y: u32,
    pub extent: Extent,
    pub depth_near: u32,
    pub depth_far: u32,
}

impl Viewport {
    /// The viewport before any image chain exists: at the origin, empty, with
    /// the depth range from 0 to 1.
    pub open spec fn initial() -> Viewport {
        Viewport {
            offset_x: 0,
            offset_y: 0,
            extent: Extent { width: 0, height: 0 },
            depth_near: 0,
            depth_far: 1,
        }
    }

    /// The viewport before any image chain exists.
    pub fn new() -> (viewport: Viewport)
        ensures
            viewport == Viewport::initial(),
    {
        Viewport {
            offset_x: 0,
            offset_y: 0,
            extent: Extent { width: 0, height: 0 },
            depth_near: 0,
            depth_far: 1,
        }
    }
}

/// The request for a chain on a surface with the given capabilities and
/// formats, for a window whose client area is `window_extent`: the fewest
/// images the surface allows, the first format it offers, the window's extent,
/// every usage it supports, and opaque blending.
pub open spec fn swapchain_request(
    capabilities: SurfaceCapabilities,
    formats: Seq<i32>,
    window_extent: Extent,
) -> SwapchainCreateInfo
    recommends
        formats.len() > 0,
{
    SwapchainCreateInfo {
        min_image_count: capabilities.min_image_count,
        image_format: formats[0],
        image_extent: window_extent,
        image_usage: capabilities.supported_usage_flags,
        composite_alpha: CompositeAlpha::Opaque,
    }
}

/// Builds the request for an image chain from what the surface reports now.
/// Used when the chain is first built and each time it is built anew, so that
/// nothing is carried over from an earlier reading of the surface.
pub fn init_swapchain(
    capabilities: &SurfaceCapabilities,
    formats: &Vec<i32>,
    window_extent: Extent,
) -> (info: SwapchainCreateInfo)
    requires
        formats.len() > 0,
    ensures
        info == swapchain_request(*capabilities, formats@, window_extent),
{
    SwapchainCreateInfo {
        min_image_count: capabilities.min_image_count,
        image_format: formats[0],
        image_extent: window_extent,
        image_usage: capabilities.supported_usage_flags,
        composite_alpha: CompositeAlpha::Opaque,
    }
}

/// The framebuffers of a chain: one for each image, in the order of the
/// images, each as large as its image.
pub open spec fn framebuffers_of(images: Seq<Image>) -> Seq<Framebuffer> {
    Seq::new(images.len(), |i: int| Framebuffer { image: i as usize, extent: images[i].extent })
}

/// The images of a chain of `count` images that are all `extent` large.
pub open spec fn uniform_images(count: nat, extent: Extent) -> Seq<Image> {
    Seq::new(count, |i: int| Image { extent })
}

/// Derives what depends on the size of the images: sets the viewport's extent
/// to that of the first image, leaving the rest of the viewport as it was, and
/// returns one framebuffer for each image.
pub fn window_size_dependent_setup(images: &Vec<Image>, viewport: &mut Viewport) -> (framebuffers:
    Vec<Framebuffer>)
    requires
        images.len() > 0,
    ensures
        *final(viewport) == (Viewport { extent: images[0].extent, ..*old(viewport) }),
        framebuffers@ == framebuffers_of(images@),
{
    viewport.extent = images[0].extent;
    let mut framebuffers: Vec<Framebuffer> = Vec::new();
    let mut i: usize = 0;
    while i < images.len()
        invariant
            i <= images.len(),
            framebuffers@ == framebuffers_of(images@.take(i as int)),
        decreases images.len() - i,
    {
        framebuffers.push(Framebuffer { image: i, extent: images[i].extent });
        assert(framebuffers@ =~= framebuffers_of(images@.take(i + 1)));
        i += 1;
    }
    assert(images@.take(images.len() as int) =~= images@);
    framebuffers
}

} // verus!
