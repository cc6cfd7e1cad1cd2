use vstd::prelude::*;

verus! {

/// Raw code of the 32-bit float depth format.
pub const FORMAT_D32_SFLOAT: i32 = 126;

/// Raw code of the 24-bit depth, 8-bit stencil format.
pub const FORMAT_D24_UNORM_S8_UINT: i32 = 129;

/// Raw code of the 32-bit float depth, 8-bit stencil format.
pub const FORMAT_D32_SFLOAT_S8_UINT: i32 = 130;

/// Format feature bit: usable as a depth-stencil attachment.
pub const FEATURE_DEPTH_STENCIL_ATTACHMENT: u32 = 0x200;

/// How an image's texels are laid out in memory.
#[derive(Clone, Copy, Debug, PartialEq, Eq, Structural)]
pub enum ImageTiling {
    Linear,
    Optimal,
}

/// The feature bits that a device supports for one format.
#[derive(Clone, Copy, Debug, PartialEq, Eq, Structural)]
pub struct FormatProperties {
    pub linear_tiling_features: u32,
    pub optimal_tiling_features: u32,
}

/// A format to consider, with what the device supports for it.
#[derive(Clone, Copy, Debug, PartialEq, Eq, Structural)]
pub struct FormatCandidate {
    pub format: i32,
    pub properties: FormatProperties,
}

/// None of the candidate formats has the required features.
#[derive(Clone, Copy, Debug, PartialEq, Eq, Structural)]
pub struct NoSupportedFormatError;

/// The properties grant every bit of `features` for `tiling`.
pub open spec fn supports(p: FormatProperties, tiling: ImageTiling, features: u32) -> bool {
    let granted = match tiling {
        ImageTiling::Linear => p.linear_tiling_features,
        ImageTiling::Optimal => p.optimal_tiling_features,
    };
    granted & features == features
}

/// The format of the first candidate, in priority order, whose properties
/// grant `features` for `tiling`.
pub open spec fn first_supported(candidates: Seq<FormatCandidate>, tiling: ImageTiling, features: u32) -> Option<
    i32,
>
    decreases candidates.len(),
{
    if candidates.len() == 0 {
        None
    } else if supports(candidates[0].properties, tiling, features) {
        Some(candidates[0].format)
    } else {
        first_supported(candidates.drop_first(), tiling, features)
    }
}

/// The first candidate, in priority order, whose properties grant `features`
/// for `tiling`.
pub fn get_supported_format(candidates: &Vec<FormatCandidate>, tiling: ImageTiling, features: u32) -> (r:
    Result<i32, NoSupportedFormatError>)
    ensures
        r == match first_supported(candidates@, tiling, features) {
            Some(format) => Ok(format),
            None => Err(NoSupportedFormatError),
        },
{
    let mut i: usize = 0;
    assert(candidates@.subrange(0, candidates@.len() as int) =~= candidates@);
    while i < candidates.len()
        invariant
            i <= candidates@.len(),
            first_supported(candidates@, tiling, features) == first_supported(
                candidates@.subrange(i as int, candidates@.len() as int),
                tiling,
                features,
            ),
        decreases candidates@.len() - i,
    {
        let candidate = candidates[i];
        let granted = match tiling {
            ImageTiling::Linear => candidate.properties.linear_tiling_features,
            ImageTiling::Optimal => candidate.properties.optimal_tiling_features,
        };
        let ghost rest = candidates@.subrange(i as int, candidates@.len() as int);
        assert(rest[0] == candidate);
        if granted & features == features {
            return Ok(candidate.format);
        }
        assert(rest.drop_first() =~= candidates@.subrange(i + 1, candidates@.len() as int));
        i = i + 1;
    }
    Err(NoSupportedFormatError)
}

/// The depth formats to try, most preferred first.
pub open spec fn depth_candidates() -> Seq<i32> {
    seq![FORMAT_D32_SFLOAT, FORMAT_D32_SFLOAT_S8_UINT, FORMAT_D24_UNORM_S8_UINT]
}

/// The depth formats to try, most preferred first.
pub fn depth_format_candidates() -> (r: Vec<i32>)
    ensures
        r@ == depth_candidates(),
{
    let r = vec![FORMAT_D32_SFLOAT, FORMAT_D32_SFLOAT_S8_UINT, FORMAT_D24_UNORM_S8_UINT];
    assert(r@ =~= depth_candidates());
    r
}

/// The depth candidates, each with what the device supports for it.
pub open spec fn depth_candidate_list(properties: Seq<FormatProperties>) -> Seq<FormatCandidate> {
    Seq::new(
        depth_candidates().len(),
        |i: int| FormatCandidate { format: depth_candidates()[i], properties: properties[i] },
    )
}

/// The most preferred depth format that is a depth-stencil attachment under
/// optimal tiling; `properties[i]` is what the device supports for
/// `depth_candidates()[i]`.
pub fn get_depth_format(properties: &Vec<FormatProperties>) -> (r: Result<i32, NoSupportedFormatError>)
    requires
        properties@.len() == depth_candidates().len(),
    ensures
        r == match first_supported(
            depth_candidate_list(properties@),
            ImageTiling::Optimal,
            FEATURE_DEPTH_STENCIL_ATTACHMENT,
        ) {
            Some(format) => Ok(format),
            None => Err(NoSupportedFormatError),
        },
{
    let formats = depth_format_candidates();
    let mut candidates: Vec<FormatCandidate> = Vec::new();
    let mut i: usize = 0;
    while i < formats.len()
        invariant
            formats@ == depth_candidates(),
            properties@.len() == formats@.len(),
            i <= formats@.len(),
            candidates@ == depth_candidate_list(properties@).subrange(0, i as int),
        decreases formats@.len() - i,
    {
        candidates.push(FormatCandidate { format: formats[i], properties: properties[i] });
        assert(candidates@ =~= depth_candidate_list(properties@).subrange(0, i + 1));
        i = i + 1;
    }
    assert(candidates@ =~= depth_candidate_list(properties@));
    get_supported_format(&candidates, ImageTiling::Optimal, FEATURE_DEPTH_STENCIL_ATTACHMENT)
}

/// The part that an attachment plays in the render pass.
#[derive(Clone, Copy, Debug, PartialEq, Eq, Structural)]
pub enum AttachmentRole {
    /// The multisampled color target.
    Color,
    /// The depth buffer.
    Depth,
    /// The swapchain image that the color target resolves into.
    Resolve,
}

/// The render pass's attachment order, which every framebuffer follows.
pub open spec fn attachment_roles() -> Seq<AttachmentRole> {
    seq![AttachmentRole::Color, AttachmentRole::Depth, AttachmentRole::Resolve]
}

/// The render pass's attachments, in the order the render pass declares them.
pub fn attachment_order() -> (r: Vec<AttachmentRole>)
    ensures
        r@ == attachment_roles(),
{
    let r = vec![AttachmentRole::Color, AttachmentRole::Depth, AttachmentRole::Resolve];
    assert(r@ =~= attachment_roles());
    r
}

/// The image views of one framebuffer, in the render pass's attachment order:
/// the color target, the depth buffer, then the swapchain image.
pub fn framebuffer_attachments(color_view: u64, depth_view: u64, swapchain_view: u64) -> (r: Vec<u64>)
    ensures
        r@.len() == attachment_roles().len(),
        forall|i: int|
            0 <= i < r@.len() ==> #[trigger] r@[i] == match attachment_roles()[i] {
                AttachmentRole::Color => color_view,
                AttachmentRole::Depth => depth_view,
                AttachmentRole::Resolve => swapchain_view,
            },
{
    let r = vec![color_view, depth_view, swapchain_view];
    assert(r@ =~= seq![color_view, depth_view, swapchain_view]);
    r
}

} // verus!
