use vstd::prelude::*;

use crate::model::{draw_calls, pool_layout, reloaded, BundleError, BundleLayout, DrawCall};
use crate::shader::{cache_wf, kind_for, shader_type_for, ShaderContainer, ShaderType, VulkanShader};

verus! {

/// The renderer's objects as a mathematical value.
pub ghost struct SceneView {
    /// The shader variants built so far, by kind.
    pub shaders: Map<ShaderType, VulkanShader>,
    /// One bundle per added object, in the order they were added.
    pub bundles: Seq<BundleLayout>,
    /// Images of the current swapchain.
    pub image_count: u32,
}

/// The shader-variant cache and the per-object bundles of a renderer.
pub struct Scene {
    shaders: ShaderContainer,
    bundles: Vec<BundleLayout>,
    image_count: u32,
}

impl View for Scene {
    type V = SceneView;

    closed spec fn view(&self) -> SceneView {
        SceneView { shaders: self.shaders@, bundles: self.bundles@, image_count: self.image_count }
    }
}

/// A bundle whose swapchain-dependent parts fit a swapchain of `image_count` images.
pub open spec fn sized_for(b: BundleLayout, image_count: u32) -> bool {
    &&& b.uniform_buffer_count == image_count
    &&& b.descriptor_set_count == image_count
    &&& b.descriptor_pool == pool_layout(b.shader, image_count)
}

/// Every cached variant is filed under its kind, every bundle's variant is
/// cached, and every bundle fits the current swapchain.
pub open spec fn scene_wf(s: SceneView) -> bool {
    &&& cache_wf(s.shaders)
    &&& forall|i: int|
        0 <= i < s.bundles.len() ==> s.shaders.contains_key((#[trigger] s.bundles[i]).shader)
            && sized_for(s.bundles[i], s.image_count)
}

/// Every bundle after rebuilding its swapchain-dependent parts for `image_count` images.
pub open spec fn reload_all(bundles: Seq<BundleLayout>, image_count: u32) -> Seq<BundleLayout> {
    Seq::new(bundles.len(), |i: int| reloaded(bundles[i], image_count))
}

/// Reloading is idempotent: rebuilding every bundle's swapchain-dependent
/// parts twice in a row for the same swapchain gives the same counts and
/// bindings as doing it once.
pub proof fn lemma_reload_all_idempotent(bundles: Seq<BundleLayout>, image_count: u32)
    ensures
        reload_all(reload_all(bundles, image_count), image_count) == reload_all(bundles, image_count),
{
    assert(reload_all(reload_all(bundles, image_count), image_count) =~= reload_all(bundles, image_count));
}

impl Scene {
    /// No variant and no object yet, for a swapchain of `image_count` images.
    pub fn new(image_count: u32) -> (r: Self)
        ensures
            r@ == (SceneView {
                shaders: Map::empty(),
                bundles: Seq::empty(),
                image_count,
            }),
            scene_wf(r@),
    {
        let r = Scene { shaders: ShaderContainer::new(), bundles: Vec::new(), image_count };
        assert(r@.bundles =~= Seq::<BundleLayout>::empty());
        r
    }

    pub fn image_count(&self) -> (r: u32)
        ensures
            r == self@.image_count,
    {
        self.image_count
    }

    /// The cached variant of this kind, if it was built.
    pub fn shader(&self, kind: ShaderType) -> (r: Option<VulkanShader>)
        ensures
            match r {
                Some(s) => self@.shaders.contains_key(kind) && self@.shaders[kind] == s,
                None => !self@.shaders.contains_key(kind),
            },
    {
        self.shaders.get(kind)
    }

    /// The kinds of the cached variants.
    pub fn shader_kinds(&self) -> (r: Vec<ShaderType>)
        ensures
            r@.to_set() == self@.shaders.dom(),
            r@.no_duplicates(),
    {
        self.shaders.kinds()
    }

    /// The variant that an object needs and that is not built yet, if any.
    pub fn missing_shader(&self, has_texture: bool) -> (r: Option<ShaderType>)
        ensures
            r == if self@.shaders.contains_key(kind_for(has_texture)) {
                None
            } else {
                Some(kind_for(has_texture))
            },
    {
        let kind = shader_type_for(has_texture);
        match self.shaders.get(kind) {
            Some(_) => None,
            None => Some(kind),
        }
    }

    /// Caches a newly built variant; the bundles stay.
    pub fn insert_shader(&mut self, shader: VulkanShader)
        requires
            scene_wf(old(self)@),
        ensures
            scene_wf(final(self)@),
            final(self)@ == (SceneView {
                shaders: old(self)@.shaders.insert(shader.shader_type, shader),
                ..old(self)@
            }),
    {
        self.shaders.insert(shader);
    }

    /// Takes the pipeline rebuilt for the new swapchain for a cached variant.
    pub fn reload_shader(&mut self, kind: ShaderType, pipeline: u64, pipeline_layout: u64)
        requires
            scene_wf(old(self)@),
            old(self)@.shaders.contains_key(kind),
        ensures
            scene_wf(final(self)@),
            final(self)@ == (SceneView {
                shaders: old(self)@.shaders.insert(
                    kind,
                    VulkanShader { pipeline, pipeline_layout, ..old(self)@.shaders[kind] },
                ),
                ..old(self)@
            }),
    {
        self.shaders.reload_swapchain(kind, pipeline, pipeline_layout);
    }

    /// Adds the bundle of an object, drawn with the variant its texture
    /// presence selects, which must be cached already. Fails, changing
    /// nothing, on empty geometry or more indices than a draw can take.
    pub fn add_object(&mut self, has_texture: bool, vertex_count: usize, index_count: usize) -> (r: Result<
        BundleLayout,
        BundleError,
    >)
        requires
            scene_wf(old(self)@),
            old(self)@.shaders.contains_key(kind_for(has_texture)),
        ensures
            scene_wf(final(self)@),
            match r {
                Ok(b) => {
                    &&& vertex_count > 0 && index_count > 0 && index_count <= u32::MAX
                    &&& b == (BundleLayout {
                        shader: kind_for(has_texture),
                        has_texture,
                        vertex_count,
                        index_count: index_count as u32,
                        uniform_buffer_count: old(self)@.image_count,
                        descriptor_pool: pool_layout(kind_for(has_texture), old(self)@.image_count),
                        descriptor_set_count: old(self)@.image_count,
                    })
                    &&& final(self)@ == (SceneView { bundles: old(self)@.bundles.push(b), ..old(self)@ })
                },
                Err(e) => {
                    &&& final(self)@ == old(self)@
                    &&& if vertex_count == 0 || index_count == 0 {
                        e == BundleError::EmptyGeometry
                    } else {
                        index_count > u32::MAX && e == BundleError::TooManyIndices
                    }
                },
            },
    {
        let b = BundleLayout::from_object(has_texture, vertex_count, index_count, self.image_count)?;
        self.bundles.push(b);
        proof {
            assert forall|i: int| 0 <= i < self.bundles@.len() implies self@.shaders.contains_key(
                (#[trigger] self.bundles@[i]).shader,
            ) && sized_for(self.bundles@[i], self.image_count) by {
                if i < old(self).bundles@.len() {
                    assert(self.bundles@[i] == old(self).bundles@[i]);
                }
            }
        }
        Ok(b)
    }

    /// The bundles, in the order their objects were added.
    pub fn bundles(&self) -> (r: &Vec<BundleLayout>)
        ensures
            r@ == self@.bundles,
    {
        &self.bundles
    }

    /// Rebuilds every bundle's uniform buffers and descriptor sets for a new
    /// swapchain of `image_count` images; geometry, textures and variants stay.
    pub fn reload_swapchain(&mut self, image_count: u32)
        requires
            scene_wf(old(self)@),
        ensures
            scene_wf(final(self)@),
            final(self)@ == (SceneView {
                bundles: reload_all(old(self)@.bundles, image_count),
                image_count,
                ..old(self)@
            }),
    {
        let mut i: usize = 0;
        while i < self.bundles.len()
            invariant
                self.shaders == old(self).shaders,
                self.image_count == old(self).image_count,
                cache_wf(self.shaders@),
                self.bundles@.len() == old(self).bundles@.len(),
                i <= self.bundles@.len(),
                forall|j: int|
                    0 <= j < i ==> #[trigger] self.bundles@[j] == reloaded(old(self).bundles@[j], image_count),
                forall|j: int| i <= j < self.bundles@.len() ==> #[trigger] self.bundles@[j] == old(self).bundles@[j],
                forall|j: int|
                    0 <= j < old(self).bundles@.len() ==> self.shaders@.contains_key(
                        (#[trigger] old(self).bundles@[j]).shader,
                    ),
            decreases self.bundles@.len() - i,
        {
            let mut b = self.bundles[i];
            b.reload_swapchain(image_count);
            self.bundles.set(i, b);
            i = i + 1;
        }
        self.image_count = image_count;
        proof {
            assert(self.bundles@ =~= reload_all(old(self).bundles@, image_count));
            assert forall|j: int| 0 <= j < self.bundles@.len() implies self@.shaders.contains_key(
                (#[trigger] self.bundles@[j]).shader,
            ) && sized_for(self.bundles@[j], image_count) by {
                assert(self.bundles@[j] == reloaded(old(self).bundles@[j], image_count));
            }
        }
    }

    /// The draws of a frame into swapchain image `image`: one per bundle, in
    /// the order the objects were added.
    pub fn draw_calls(&self, image: usize) -> (r: Vec<DrawCall>)
        requires
            scene_wf(self@),
            image < self@.image_count,
        ensures
            r@.len() == self@.bundles.len(),
            forall|i: int|
                0 <= i < r@.len() ==> #[trigger] r@[i] == (DrawCall {
                    model: i as usize,
                    shader: self@.bundles[i].shader,
                    descriptor_set: image,
                    index_count: self@.bundles[i].index_count,
                    instance_count: 1,
                }),
    {
        proof {
            assert forall|i: int| 0 <= i < self.bundles@.len() implies image < (
            #[trigger] self.bundles@[i]).descriptor_set_count by {
                assert(sized_for(self.bundles@[i], self.image_count));
            }
        }
        draw_calls(&self.bundles, image)
    }
}

} // verus!
