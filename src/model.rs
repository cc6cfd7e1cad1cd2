use vstd::prelude::*;

use crate::shader::{
    descriptor_set_layout_bindings, kind_for, layout_bindings, shader_type_for, DescriptorType, ShaderType,
};

verus! {

/// Byte size of the uniform block each swapchain image gets: one 4x4 float matrix.
pub const UNIFORM_BUFFER_SIZE: u64 = 64;

/// Byte size of the push-constant block: the model and view matrices.
pub const PUSH_CONSTANT_SIZE: u32 = 128;

/// How many descriptors of one type a descriptor pool holds.
#[derive(Clone, Copy, Debug, PartialEq, Eq, Structural)]
pub struct PoolSize {
    pub descriptor_type: DescriptorType,
    pub descriptor_count: u32,
}

/// What a bundle's descriptor pool is sized for.
#[derive(Clone, Copy, Debug, PartialEq, Eq, Structural)]
pub struct DescriptorPoolLayout {
    pub max_sets: u32,
    pub uniform_buffers: u32,
    pub samplers: u32,
}

/// A pool for one set per swapchain image, each with the variant's bindings.
pub open spec fn pool_layout(kind: ShaderType, image_count: u32) -> DescriptorPoolLayout {
    DescriptorPoolLayout {
        max_sets: image_count,
        uniform_buffers: image_count,
        samplers: if kind == ShaderType::Textured {
            image_count
        } else {
            0
        },
    }
}

/// A pool for one set per swapchain image, each with the variant's bindings.
pub fn descriptor_pool_layout(kind: ShaderType, image_count: u32) -> (r: DescriptorPoolLayout)
    ensures
        r == pool_layout(kind, image_count),
{
    DescriptorPoolLayout {
        max_sets: image_count,
        uniform_buffers: image_count,
        samplers: if kind == ShaderType::Textured {
            image_count
        } else {
            0
        },
    }
}

impl DescriptorPoolLayout {
    /// The pool sizes to create the pool with, leaving out empty ones.
    pub fn pool_sizes(&self) -> (r: Vec<PoolSize>)
        ensures
            r@ == if self.samplers == 0 {
                seq![PoolSize { descriptor_type: DescriptorType::UniformBuffer, descriptor_count: self.uniform_buffers }]
            } else {
                seq![
                    PoolSize { descriptor_type: DescriptorType::UniformBuffer, descriptor_count: self.uniform_buffers },
                    PoolSize { descriptor_type: DescriptorType::CombinedImageSampler, descriptor_count: self.samplers },
                ]
            },
    {
        let mut r: Vec<PoolSize> = Vec::new();
        r.push(PoolSize { descriptor_type: DescriptorType::UniformBuffer, descriptor_count: self.uniform_buffers });
        if self.samplers != 0 {
            r.push(
                PoolSize { descriptor_type: DescriptorType::CombinedImageSampler, descriptor_count: self.samplers },
            );
        }
        r
    }
}

/// Why a bundle could not be made.
#[derive(Clone, Copy, Debug, PartialEq, Eq, Structural)]
pub enum BundleError {
    /// The object has no vertex or no index.
    EmptyGeometry,
    /// The object has more indices than one draw call can take.
    TooManyIndices,
    /// A part of the bundle was not allocated.
    InvalidBundle,
}

/// The structure of the GPU resources of one drawable object: its shader
/// variant, its index count, and its swapchain-dependent uniform buffers and
/// descriptor sets, one per swapchain image.
#[derive(Clone, Copy, Debug, PartialEq, Eq, Structural)]
pub struct BundleLayout {
    pub shader: ShaderType,
    pub has_texture: bool,
    pub vertex_count: usize,
    pub index_count: u32,
    pub uniform_buffer_count: u32,
    pub descriptor_pool: DescriptorPoolLayout,
    pub descriptor_set_count: u32,
}

/// The layout after rebuilding the swapchain-dependent parts for `image_count`
/// images; geometry, texture and shader variant stay.
pub open spec fn reloaded(b: BundleLayout, image_count: u32) -> BundleLayout {
    BundleLayout {
        uniform_buffer_count: image_count,
        descriptor_pool: pool_layout(b.shader, image_count),
        descriptor_set_count: image_count,
        ..b
    }
}

/// Reloading is idempotent: rebuilding the swapchain-dependent parts twice in a
/// row for the same swapchain gives the same counts and bindings as once.
pub proof fn lemma_reload_idempotent(b: BundleLayout, image_count: u32)
    ensures
        reloaded(reloaded(b, image_count), image_count) == reloaded(b, image_count),
{
}

impl BundleLayout {
    /// The layout for an object with the given geometry sizes and texture
    /// presence, drawn into a swapchain of `image_count` images.
    pub fn from_object(has_texture: bool, vertex_count: usize, index_count: usize, image_count: u32) -> (r:
        Result<Self, BundleError>)
        ensures
            match r {
                Ok(b) => {
                    &&& vertex_count > 0 && index_count > 0 && index_count <= u32::MAX
                    &&& b == (BundleLayout {
                        shader: kind_for(has_texture),
                        has_texture,
                        vertex_count,
                        index_count: index_count as u32,
                        uniform_buffer_count: image_count,
                        descriptor_pool: pool_layout(kind_for(has_texture), image_count),
                        descriptor_set_count: image_count,
                    })
                },
                Err(e) => if vertex_count == 0 || index_count == 0 {
                    e == BundleError::EmptyGeometry
                } else {
                    index_count > u32::MAX && e == BundleError::TooManyIndices
                },
            },
    {
        if vertex_count == 0 || index_count == 0 {
            return Err(BundleError::EmptyGeometry);
        }
        if index_count > u32::MAX as usize {
            return Err(BundleError::TooManyIndices);
        }
        let shader = shader_type_for(has_texture);
        Ok(
            BundleLayout {
                shader,
                has_texture,
                vertex_count,
                index_count: index_count as u32,
                uniform_buffer_count: image_count,
                descriptor_pool: descriptor_pool_layout(shader, image_count),
                descriptor_set_count: image_count,
            },
        )
    }

    /// Rebuilds the uniform buffers and descriptor sets for a swapchain of
    /// `image_count` images; vertex, index and texture data stay.
    pub fn reload_swapchain(&mut self, image_count: u32)
        ensures
            *final(self) == reloaded(*old(self), image_count),
    {
        self.uniform_buffer_count = image_count;
        self.descriptor_pool = descriptor_pool_layout(self.shader, image_count);
        self.descriptor_set_count = image_count;
    }
}

/// Which parts of a bundle hold live allocations.
#[derive(Clone, Copy, Debug, PartialEq, Eq, Structural)]
pub struct BundleParts {
    pub vertex_buffer: bool,
    pub uniform_buffers: bool,
    pub descriptor: bool,
    /// `None` when the object has no texture.
    pub texture: Option<bool>,
}

/// A bundle is made only of fully allocated parts.
pub open spec fn parts_complete(p: BundleParts) -> bool {
    p.vertex_buffer && p.uniform_buffers && p.descriptor && match p.texture {
        Some(t) => t,
        None => true,
    }
}

/// Refuses to assemble a bundle from parts that are not all allocated.
pub fn check_bundle_parts(parts: &BundleParts) -> (r: Result<(), BundleError>)
    ensures
        r is Ok <==> parts_complete(*parts),
        r matches Err(e) ==> e == BundleError::InvalidBundle,
{
    let texture_ok = match parts.texture {
        Some(t) => t,
        None => true,
    };
    if parts.vertex_buffer && parts.uniform_buffers && parts.descriptor && texture_ok {
        Ok(())
    } else {
        Err(BundleError::InvalidBundle)
    }
}

/// One object's draw in a frame's recording: its secondary command buffer
/// binds the object's shader variant and its descriptor set for the image,
/// then draws all its indices once.
#[derive(Clone, Copy, Debug, PartialEq, Eq, Structural)]
pub struct DrawCall {
    pub model: usize,
    pub shader: ShaderType,
    pub descriptor_set: usize,
    pub index_count: u32,
    pub instance_count: u32,
}

/// The draws of a frame into swapchain image `image`: one per bundle, in the
/// order the bundles were added.
pub fn draw_calls(bundles: &Vec<BundleLayout>, image: usize) -> (r: Vec<DrawCall>)
    requires
        forall|i: int|
            0 <= i < bundles@.len() ==> image < (#[trigger] bundles@[i]).descriptor_set_count,
    ensures
        r@.len() == bundles@.len(),
        forall|i: int|
            0 <= i < r@.len() ==> #[trigger] r@[i] == (DrawCall {
                model: i as usize,
                shader: bundles@[i].shader,
                descriptor_set: image,
                index_count: bundles@[i].index_count,
                instance_count: 1,
            }),
{
    let mut r: Vec<DrawCall> = Vec::new();
    let mut i: usize = 0;
    while i < bundles.len()
        invariant
            i <= bundles@.len(),
            r@.len() == i,
            forall|k: int|
                0 <= k < i ==> #[trigger] r@[k] == (DrawCall {
                    model: k as usize,
                    shader: bundles@[k].shader,
                    descriptor_set: image,
                    index_count: bundles@[k].index_count,
                    instance_count: 1,
                }),
        decreases bundles@.len() - i,
    {
        let b = &bundles[i];
        r.push(
            DrawCall {
                model: i,
                shader: b.shader,
                descriptor_set: image,
                index_count: b.index_count,
                instance_count: 1,
            },
        );
        i = i + 1;
    }
    r
}

/// How many secondary command buffers an image's pool must still allocate so
/// that each of `model_count` bundles has one, given `allocated` already.
pub fn secondary_buffers_to_allocate(allocated: usize, model_count: usize) -> (r: usize)
    ensures
        r == if model_count > allocated {
            model_count - allocated
        } else {
            0
        },
        allocated + r >= model_count,
{
    if model_count > allocated {
        model_count - allocated
    } else {
        0
    }
}

/// One write that fills a binding of a bundle's descriptor set: the set of
/// swapchain image `set`, and for a uniform buffer, that image's buffer.
#[derive(Clone, Copy, Debug, PartialEq, Eq, Structural)]
pub struct DescriptorWrite {
    pub set: u32,
    pub binding: u32,
    pub descriptor_type: DescriptorType,
}

/// The writes that fill `set_count` descriptor sets of a variant: for each
/// set in order, one write per binding of the variant's layout.
pub open spec fn set_writes(kind: ShaderType, set_count: u32) -> Seq<DescriptorWrite> {
    let bindings = layout_bindings(kind);
    Seq::new(
        (set_count * bindings.len()) as nat,
        |k: int|
            DescriptorWrite {
                set: (k / bindings.len() as int) as u32,
                binding: bindings[k % bindings.len() as int].binding,
                descriptor_type: bindings[k % bindings.len() as int].descriptor_type,
            },
    )
}

/// The writes that fill a bundle's descriptor sets, one per set and binding.
pub fn descriptor_writes(kind: ShaderType, set_count: u32) -> (r: Vec<DescriptorWrite>)
    requires
        2 * set_count <= usize::MAX,
    ensures
        r@ == set_writes(kind, set_count),
{
    let bindings = descriptor_set_layout_bindings(kind);
    let n = bindings.len();
    let mut r: Vec<DescriptorWrite> = Vec::new();
    let mut set: u32 = 0;
    while set < set_count
        invariant
            bindings@ == layout_bindings(kind),
            n == bindings@.len(),
            1 <= n <= 2,
            set <= set_count,
            2 * set_count <= usize::MAX,
            r@ == set_writes(kind, set_count).subrange(0, set * n),
        decreases set_count - set,
    {
        let mut j: usize = 0;
        while j < n
            invariant
                bindings@ == layout_bindings(kind),
                n == bindings@.len(),
                1 <= n <= 2,
                set < set_count,
                2 * set_count <= usize::MAX,
                j <= n,
                r@ == set_writes(kind, set_count).subrange(0, set * n + j),
            decreases n - j,
        {
            proof {
                assert(set * n + j < set_count * n) by (nonlinear_arith)
                    requires
                        0 <= j < n,
                        set < set_count,
                ;
            }
            let b = bindings[j];
            r.push(DescriptorWrite { set, binding: b.binding, descriptor_type: b.descriptor_type });
            proof {
                let k = set * n + j;
                assert(k / (n as int) == set as int && k % (n as int) == j as int) by (nonlinear_arith)
                    requires
                        k == set * n + j,
                        0 <= j < n,
                        1 <= n,
                ;
                assert(k < set_count * n) by (nonlinear_arith)
                    requires
                        k == set * n + j,
                        0 <= j < n,
                        set < set_count,
                ;
                assert(r@ =~= set_writes(kind, set_count).subrange(0, k + 1));
            }
            j = j + 1;
        }
        proof {
            assert(set * n + n == (set + 1) * n) by (nonlinear_arith);
            assert((set + 1) * n <= set_count * n) by (nonlinear_arith)
                requires
                    set < set_count,
                    1 <= n,
            ;
        }
        set = set + 1;
    }
    proof {
        assert(set_writes(kind, set_count).len() == set_count * n);
        assert(r@ =~= set_writes(kind, set_count));
    }
    r
}

} // verus!
