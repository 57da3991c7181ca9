//! Depth-format selection and image planning.
//!
//! The depth buffer probes a fixed, ordered candidate list of depth-capable
//! formats and takes the first whose optimal-tiling features include
//! depth-stencil-attachment support; none qualifying is fatal.  Image and
//! image-view parameters are planned as plain values.

use vstd::prelude::*;

use crate::buffers::MEMORY_PROPERTY_DEVICE_LOCAL;
use crate::error::SetupError;
use crate::swapchain::Extent2d;

verus! {

/// Pixel format id: 32-bit float depth.
pub const FORMAT_D32_SFLOAT: u32 = 126;

/// Pixel format id: 32-bit float depth with 8-bit stencil.
pub const FORMAT_D32_SFLOAT_S8_UINT: u32 = 130;

/// Pixel format id: 24-bit depth with 8-bit stencil.
pub const FORMAT_D24_UNORM_S8_UINT: u32 = 129;

/// Format feature flag: usable as a depth-stencil attachment.
pub const FORMAT_FEATURE_DEPTH_STENCIL_ATTACHMENT: u32 = 0x200;

/// Image usage flag: depth-stencil attachment.
pub const IMAGE_USAGE_DEPTH_STENCIL_ATTACHMENT: u32 = 0x20;

/// Image aspect flag: color plane.
pub const IMAGE_ASPECT_COLOR: u32 = 0x1;

/// Image aspect flag: depth plane.
pub const IMAGE_ASPECT_DEPTH: u32 = 0x2;

/// How an image's texels are laid out.
#[derive(Clone, Copy, Debug, PartialEq, Eq, Structural)]
pub enum ImageTiling {
    /// Row-major layout, host-readable.
    Linear,
    /// Implementation-defined layout, fastest for the GPU.
    Optimal,
}

/// A format id together with the features the platform reports for it.
#[derive(Clone, Copy, Debug, PartialEq, Eq, Structural)]
pub struct FormatProperties {
    /// Pixel format id.
    pub format: u32,
    /// Features available under linear tiling.
    pub linear_tiling_features: u32,
    /// Features available under optimal tiling.
    pub optimal_tiling_features: u32,
}

/// The features `p` offers under tiling `t`.
pub open spec fn spec_tiling_features(p: FormatProperties, t: ImageTiling) -> u32 {
    match t {
        ImageTiling::Linear => p.linear_tiling_features,
        ImageTiling::Optimal => p.optimal_tiling_features,
    }
}

/// Format `p` offers every feature in `features` under tiling `t`.
pub open spec fn spec_format_supports(p: FormatProperties, t: ImageTiling, features: u32) -> bool {
    spec_tiling_features(p, t) & features == features
}

/// Takes the first candidate, in list order, whose features under the given
/// tiling contain every required feature.  Fails iff no candidate qualifies.
pub fn find_supported_format(
    candidates: &Vec<FormatProperties>,
    tiling: ImageTiling,
    features: u32,
) -> (r: Result<u32, SetupError>)
    ensures
        match r {
            Ok(f) => exists|i: int|
                {
                    &&& 0 <= i < candidates@.len()
                    &&& f == #[trigger] candidates@[i].format
                    &&& spec_format_supports(candidates@[i], tiling, features)
                    &&& forall|j: int|
                        0 <= j < i ==> !spec_format_supports(
                            #[trigger] candidates@[j],
                            tiling,
                            features,
                        )
                },
            Err(e) => {
                &&& e == SetupError::NoSupportedFormat
                &&& forall|j: int|
                    0 <= j < candidates@.len() ==> !spec_format_supports(
                        #[trigger] candidates@[j],
                        tiling,
                        features,
                    )
            },
        },
{
    let mut i: usize = 0;
    while i < candidates.len()
        invariant
            i <= candidates@.len(),
            forall|j: int|
                0 <= j < i ==> !spec_format_supports(#[trigger] candidates@[j], tiling, features),
        decreases candidates@.len() - i,
    {
        let c = candidates[i];
        let offered = match tiling {
            ImageTiling::Linear => c.linear_tiling_features,
            ImageTiling::Optimal => c.optimal_tiling_features,
        };
        if offered & features == features {
            assert(spec_format_supports(candidates@[i as int], tiling, features));
            return Ok(c.format);
        }
        i += 1;
    }
    Err(SetupError::NoSupportedFormat)
}

/// The fixed, ordered depth-format candidate list.
pub open spec fn spec_depth_format_candidates() -> Seq<u32> {
    seq![FORMAT_D32_SFLOAT, FORMAT_D32_SFLOAT_S8_UINT, FORMAT_D24_UNORM_S8_UINT]
}

/// The ordered depth-format candidates to probe, most precise first.
pub fn depth_format_candidates() -> (r: Vec<u32>)
    ensures
        r@ == spec_depth_format_candidates(),
{
    let mut v: Vec<u32> = Vec::new();
    v.push(FORMAT_D32_SFLOAT);
    v.push(FORMAT_D32_SFLOAT_S8_UINT);
    v.push(FORMAT_D24_UNORM_S8_UINT);
    proof {
        assert(v@ =~= spec_depth_format_candidates());
    }
    v
}

/// Picks the depth format: the first candidate whose optimal-tiling features
/// include depth-stencil-attachment support.  `candidates` holds the queried
/// properties of the candidate formats, in probe order.
pub fn find_depth_format(candidates: &Vec<FormatProperties>) -> (r: Result<u32, SetupError>)
    ensures
        match r {
            Ok(f) => exists|i: int|
                {
                    &&& 0 <= i < candidates@.len()
                    &&& f == #[trigger] candidates@[i].format
                    &&& spec_format_supports(
                        candidates@[i],
                        ImageTiling::Optimal,
                        FORMAT_FEATURE_DEPTH_STENCIL_ATTACHMENT,
                    )
                    &&& forall|j: int|
                        0 <= j < i ==> !spec_format_supports(
                            #[trigger] candidates@[j],
                            ImageTiling::Optimal,
                            FORMAT_FEATURE_DEPTH_STENCIL_ATTACHMENT,
                        )
                },
            Err(e) => {
                &&& e == SetupError::NoSupportedFormat
                &&& forall|j: int|
                    0 <= j < candidates@.len() ==> !spec_format_supports(
                        #[trigger] candidates@[j],
                        ImageTiling::Optimal,
                        FORMAT_FEATURE_DEPTH_STENCIL_ATTACHMENT,
                    )
            },
        },
{
    find_supported_format(candidates, ImageTiling::Optimal, FORMAT_FEATURE_DEPTH_STENCIL_ATTACHMENT)
}

/// One planned GPU image: dimensions, format, layout and memory placement.
#[derive(Clone, Copy, Debug, PartialEq, Eq, Structural)]
pub struct ImageRequest {
    /// Width in pixels.
    pub width: u32,
    /// Height in pixels.
    pub height: u32,
    /// Pixel format id.
    pub format: u32,
    /// Texel layout.
    pub tiling: ImageTiling,
    /// Image usage flags.
    pub usage: u32,
    /// Required memory property flags.
    pub properties: u32,
    /// Mip levels; always one here.
    pub mip_levels: u32,
    /// Array layers; always one here.
    pub array_layers: u32,
}

/// Plans the depth image for the given extent: device-local, optimal tiling,
/// depth-stencil usage, one mip level and one layer.
pub fn depth_image_request(extent: Extent2d, depth_format: u32) -> (r: ImageRequest)
    ensures
        r == (ImageRequest {
            width: extent.width,
            height: extent.height,
            format: depth_format,
            tiling: ImageTiling::Optimal,
            usage: IMAGE_USAGE_DEPTH_STENCIL_ATTACHMENT,
            properties: MEMORY_PROPERTY_DEVICE_LOCAL,
            mip_levels: 1u32,
            array_layers: 1u32,
        }),
{
    ImageRequest {
        width: extent.width,
        height: extent.height,
        format: depth_format,
        tiling: ImageTiling::Optimal,
        usage: IMAGE_USAGE_DEPTH_STENCIL_ATTACHMENT,
        properties: MEMORY_PROPERTY_DEVICE_LOCAL,
        mip_levels: 1,
        array_layers: 1,
    }
}

/// One planned image view: which image, which plane, fixed 2D shape.
#[derive(Clone, Copy, Debug, PartialEq, Eq, Structural)]
pub struct ImageViewPlan {
    /// Index of the image the view reads.
    pub image_index: usize,
    /// Pixel format id.
    pub format: u32,
    /// Aspect flags: the plane the view exposes.
    pub aspect: u32,
    /// Mip levels; always one here.
    pub mip_levels: u32,
    /// Array layers; always one here.
    pub array_layers: u32,
}

/// The view planned for image `i` of the chain.
pub open spec fn spec_color_view_plan(i: int, format: u32) -> ImageViewPlan {
    ImageViewPlan {
        image_index: i as usize,
        format,
        aspect: IMAGE_ASPECT_COLOR,
        mip_levels: 1u32,
        array_layers: 1u32,
    }
}

/// Plans one color view per presentable image, in image order, each with the
/// chain's format, the color aspect, one mip level and one layer.
pub fn create_image_views(image_count: usize, format: u32) -> (r: Vec<ImageViewPlan>)
    ensures
        r@.len() == image_count,
        forall|i: int| 0 <= i < image_count ==> r@[i] == spec_color_view_plan(i, format),
{
    let mut plans: Vec<ImageViewPlan> = Vec::new();
    let mut i: usize = 0;
    while i < image_count
        invariant
            i <= image_count,
            plans@.len() == i,
            forall|j: int| 0 <= j < i ==> plans@[j] == spec_color_view_plan(j, format),
        decreases image_count - i,
    {
        plans.push(
            ImageViewPlan {
                image_index: i,
                format,
                aspect: IMAGE_ASPECT_COLOR,
                mip_levels: 1,
                array_layers: 1,
            },
        );
        i += 1;
    }
    plans
}

} // verus!
