use vstd::prelude::*;

verus! {

/// Format feature bit: linear filtering when sampling, which blitting mip
/// levels needs.
pub const FEATURE_SAMPLED_IMAGE_FILTER_LINEAR: u32 = 0x1000;

/// A decoded RGBA8 image, as the image-decoding side hands it over.
pub struct Texture {
    data: Vec<u8>,
    width: u32,
    height: u32,
}

impl Texture {
    /// The pixel bytes.
    pub closed spec fn pixels(&self) -> Seq<u8> {
        self.data@
    }

    pub closed spec fn spec_width(&self) -> u32 {
        self.width
    }

    pub closed spec fn spec_height(&self) -> u32 {
        self.height
    }

    pub fn construct(data: Vec<u8>, width: u32, height: u32) -> (r: Self)
        ensures
            r.pixels() == data@,
            r.spec_width() == width,
            r.spec_height() == height,
    {
        Texture { data, width, height }
    }

    pub fn data(&self) -> (r: &[u8])
        ensures
            r@ == self.pixels(),
    {
        self.data.as_slice()
    }

    pub fn width(&self) -> (r: u32)
        ensures
            r == self.spec_width(),
    {
        self.width
    }

    pub fn height(&self) -> (r: u32)
        ensures
            r == self.spec_height(),
    {
        self.height
    }

    /// Number of bytes of pixel data.
    pub fn buffer_size(&self) -> (r: usize)
        ensures
            r == self.pixels().len(),
    {
        self.data.len()
    }
}

/// The format cannot be blitted with linear filtering, so mip levels cannot be generated.
#[derive(Clone, Copy, Debug, PartialEq, Eq, Structural)]
pub struct UnsupportedFormatError;

/// Checks that the texture format's optimal-tiling features allow linear blits.
pub fn check_linear_blit(optimal_tiling_features: u32) -> (r: Result<(), UnsupportedFormatError>)
    ensures
        r is Ok <==> optimal_tiling_features & FEATURE_SAMPLED_IMAGE_FILTER_LINEAR
            == FEATURE_SAMPLED_IMAGE_FILTER_LINEAR,
{
    if optimal_tiling_features & FEATURE_SAMPLED_IMAGE_FILTER_LINEAR == FEATURE_SAMPLED_IMAGE_FILTER_LINEAR {
        Ok(())
    } else {
        Err(UnsupportedFormatError)
    }
}

/// How many times `n` halves before reaching 1.
pub open spec fn floor_log2(n: u32) -> nat
    decreases n,
{
    if n <= 1 {
        0
    } else {
        1 + floor_log2(n / 2)
    }
}

/// A full mip chain: one level per halving of the larger side, plus the base.
pub open spec fn mip_count(width: u32, height: u32) -> nat {
    floor_log2(if width > height {
        width
    } else {
        height
    }) + 1
}

/// Two to the power `k`.
pub open spec fn two_to(k: nat) -> nat
    decreases k,
{
    if k == 0 {
        1
    } else {
        2 * two_to((k - 1) as nat)
    }
}

proof fn lemma_log_bound(n: u32, k: nat)
    requires
        k >= 1,
        (n as nat) < two_to(k),
    ensures
        floor_log2(n) < k,
    decreases k,
{
    reveal_with_fuel(two_to, 2);
    if n > 1 {
        lemma_log_bound(n / 2, (k - 1) as nat);
    }
}

/// Number of mip levels of a full chain for an image of this size.
pub fn mip_levels(width: u32, height: u32) -> (r: u32)
    ensures
        r == mip_count(width, height),
{
    let top = if width > height {
        width
    } else {
        height
    };
    proof {
        reveal_with_fuel(two_to, 33);
        assert(two_to(32) == 4294967296);
        lemma_log_bound(top, 32);
    }
    let mut n = top;
    let mut count: u32 = 1;
    while n > 1
        invariant
            1 <= count,
            count + floor_log2(n) == floor_log2(top) + 1,
            floor_log2(top) < 32,
        decreases n,
    {
        n = n / 2;
        count = count + 1;
    }
    count
}

/// The size of mip level `level` along a side of `d` texels: halved per
/// level, never below 1.
pub open spec fn mip_dim(d: u32, level: nat) -> u32
    decreases level,
{
    if level == 0 {
        d
    } else {
        let prev = mip_dim(d, (level - 1) as nat);
        if prev > 1 {
            prev / 2
        } else {
            1
        }
    }
}

/// One blit of the mip chain: level `level - 1` scaled into level `level`.
#[derive(Clone, Copy, Debug, PartialEq, Eq, Structural)]
pub struct MipBlit {
    pub level: u32,
    pub src_width: u32,
    pub src_height: u32,
    pub dst_width: u32,
    pub dst_height: u32,
}

/// The blits that generate levels 1 to `levels - 1` of a mip chain, in order,
/// each from the level before it.
pub fn mip_blits(width: u32, height: u32, levels: u32) -> (r: Vec<MipBlit>)
    ensures
        r@.len() == if levels == 0 {
            0
        } else {
            levels - 1
        },
        forall|k: int|
            0 <= k < r@.len() ==> #[trigger] r@[k] == (MipBlit {
                level: (k + 1) as u32,
                src_width: mip_dim(width, k as nat),
                src_height: mip_dim(height, k as nat),
                dst_width: mip_dim(width, (k + 1) as nat),
                dst_height: mip_dim(height, (k + 1) as nat),
            }),
{
    let mut r: Vec<MipBlit> = Vec::new();
    let mut w = width;
    let mut h = height;
    let mut level: u32 = 1;
    while level < levels
        invariant
            1 <= level,
            levels == 0 ==> level == 1,
            levels == 0 || level <= levels,
            r@.len() == level - 1,
            w == mip_dim(width, (level - 1) as nat),
            h == mip_dim(height, (level - 1) as nat),
            forall|k: int|
                0 <= k < r@.len() ==> #[trigger] r@[k] == (MipBlit {
                    level: (k + 1) as u32,
                    src_width: mip_dim(width, k as nat),
                    src_height: mip_dim(height, k as nat),
                    dst_width: mip_dim(width, (k + 1) as nat),
                    dst_height: mip_dim(height, (k + 1) as nat),
                }),
        decreases levels - level,
    {
        let dst_w = if w > 1 {
            w / 2
        } else {
            1
        };
        let dst_h = if h > 1 {
            h / 2
        } else {
            1
        };
        r.push(MipBlit { level, src_width: w, src_height: h, dst_width: dst_w, dst_height: dst_h });
        w = dst_w;
        h = dst_h;
        level = level + 1;
    }
    r
}

} // verus!
