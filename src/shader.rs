use vstd::prelude::*;

verus! {

/// The closed set of shader variants.
#[derive(Clone, Copy, Debug, PartialEq, Eq, Hash, Structural)]
pub enum ShaderType {
    /// Samples a texture: binds a uniform buffer and a combined image sampler.
    Textured,
    /// Vertex colors only: binds a uniform buffer.
    Untextured,
}

/// The variant an object is drawn with: textured exactly when it has a texture.
pub open spec fn kind_for(has_texture: bool) -> ShaderType {
    if has_texture {
        ShaderType::Textured
    } else {
        ShaderType::Untextured
    }
}

/// The variant an object is drawn with: textured exactly when it has a texture.
pub fn shader_type_for(has_texture: bool) -> (r: ShaderType)
    ensures
        r == kind_for(has_texture),
{
    if has_texture {
        ShaderType::Textured
    } else {
        ShaderType::Untextured
    }
}

/// What a descriptor binds.
#[derive(Clone, Copy, Debug, PartialEq, Eq, Structural)]
pub enum DescriptorType {
    UniformBuffer,
    CombinedImageSampler,
}

/// The shader stage that reads a binding.
#[derive(Clone, Copy, Debug, PartialEq, Eq, Structural)]
pub enum ShaderStage {
    Vertex,
    Fragment,
}

/// One binding of a descriptor-set layout.
#[derive(Clone, Copy, Debug, PartialEq, Eq, Structural)]
pub struct LayoutBinding {
    pub binding: u32,
    pub descriptor_type: DescriptorType,
    pub descriptor_count: u32,
    pub stage: ShaderStage,
}

/// The uniform buffer that the vertex stage reads at binding 0.
pub open spec fn ubo_binding() -> LayoutBinding {
    LayoutBinding {
        binding: 0,
        descriptor_type: DescriptorType::UniformBuffer,
        descriptor_count: 1,
        stage: ShaderStage::Vertex,
    }
}

/// The texture sampler that the fragment stage reads at binding 1.
pub open spec fn sampler_binding() -> LayoutBinding {
    LayoutBinding {
        binding: 1,
        descriptor_type: DescriptorType::CombinedImageSampler,
        descriptor_count: 1,
        stage: ShaderStage::Fragment,
    }
}

/// The bindings of a variant's descriptor-set layout.
pub open spec fn layout_bindings(kind: ShaderType) -> Seq<LayoutBinding> {
    match kind {
        ShaderType::Textured => seq![ubo_binding(), sampler_binding()],
        ShaderType::Untextured => seq![ubo_binding()],
    }
}

/// The bindings of a variant's descriptor-set layout: the uniform buffer at
/// binding 0, and for textured variants the combined image sampler at 1.
pub fn descriptor_set_layout_bindings(kind: ShaderType) -> (r: Vec<LayoutBinding>)
    ensures
        r@ == layout_bindings(kind),
{
    let mut r: Vec<LayoutBinding> = Vec::new();
    r.push(
        LayoutBinding {
            binding: 0,
            descriptor_type: DescriptorType::UniformBuffer,
            descriptor_count: 1,
            stage: ShaderStage::Vertex,
        },
    );
    if kind == ShaderType::Textured {
        r.push(
            LayoutBinding {
                binding: 1,
                descriptor_type: DescriptorType::CombinedImageSampler,
                descriptor_count: 1,
                stage: ShaderStage::Fragment,
            },
        );
    }
    assert(r@ =~= layout_bindings(kind));
    r
}

/// The objects of one shader variant, as raw handles.
#[derive(Clone, Copy, Debug, PartialEq, Eq, Structural)]
pub struct VulkanShader {
    pub shader_type: ShaderType,
    pub pipeline: u64,
    pub pipeline_layout: u64,
    pub descriptor_set_layout: u64,
}

impl VulkanShader {
    pub fn new(shader_type: ShaderType, pipeline: u64, pipeline_layout: u64, descriptor_set_layout: u64) -> (r:
        Self)
        ensures
            r == (VulkanShader { shader_type, pipeline, pipeline_layout, descriptor_set_layout }),
    {
        VulkanShader { shader_type, pipeline, pipeline_layout, descriptor_set_layout }
    }

    /// Takes the pipeline rebuilt for a new swapchain; the descriptor-set
    /// layout stays, as it does not depend on the swapchain.
    pub fn reload_swapchain(&mut self, pipeline: u64, pipeline_layout: u64)
        ensures
            *final(self) == (VulkanShader { pipeline, pipeline_layout, ..*old(self) }),
    {
        self.pipeline = pipeline;
        self.pipeline_layout = pipeline_layout;
    }

    pub fn pipeline(&self) -> (r: u64)
        ensures
            r == self.pipeline,
    {
        self.pipeline
    }

    pub fn pipeline_layout(&self) -> (r: u64)
        ensures
            r == self.pipeline_layout,
    {
        self.pipeline_layout
    }

    pub fn descriptor_set_layout(&self) -> (r: u64)
        ensures
            r == self.descriptor_set_layout,
    {
        self.descriptor_set_layout
    }
}

/// The shader variants built so far, at most one per kind, shared by every
/// object of that kind.
pub struct ShaderContainer {
    textured: Option<VulkanShader>,
    untextured: Option<VulkanShader>,
}

impl View for ShaderContainer {
    type V = Map<ShaderType, VulkanShader>;

    closed spec fn view(&self) -> Map<ShaderType, VulkanShader> {
        let t = match self.textured {
            Some(s) => map![ShaderType::Textured => s],
            None => Map::empty(),
        };
        match self.untextured {
            Some(s) => t.insert(ShaderType::Untextured, s),
            None => t,
        }
    }
}

/// Every cached variant is filed under its own kind.
pub open spec fn cache_wf(m: Map<ShaderType, VulkanShader>) -> bool {
    forall|k: ShaderType| #[trigger] m.contains_key(k) ==> m[k].shader_type == k
}

impl ShaderContainer {
    pub fn new() -> (r: Self)
        ensures
            r@ == Map::<ShaderType, VulkanShader>::empty(),
            cache_wf(r@),
    {
        let r = ShaderContainer { textured: None, untextured: None };
        assert(r@ =~= Map::<ShaderType, VulkanShader>::empty());
        r
    }

    /// The cached variant of this kind, if it was built.
    pub fn get(&self, kind: ShaderType) -> (r: Option<VulkanShader>)
        ensures
            match r {
                Some(s) => self@.contains_key(kind) && self@[kind] == s,
                None => !self@.contains_key(kind),
            },
    {
        match kind {
            ShaderType::Textured => self.textured,
            ShaderType::Untextured => self.untextured,
        }
    }

    /// Caches a newly built variant under its kind.
    pub fn insert(&mut self, shader: VulkanShader)
        ensures
            final(self)@ == old(self)@.insert(shader.shader_type, shader),
            cache_wf(old(self)@) ==> cache_wf(final(self)@),
    {
        match shader.shader_type {
            ShaderType::Textured => {
                self.textured = Some(shader);
            },
            ShaderType::Untextured => {
                self.untextured = Some(shader);
            },
        }
        assert(self@ =~= old(self)@.insert(shader.shader_type, shader));
    }

    /// How many variants are cached.
    pub fn len(&self) -> (r: usize)
        ensures
            r == self@.len(),
    {
        proof {
            lemma_view_len(self);
        }
        let a: usize = if self.textured.is_some() {
            1
        } else {
            0
        };
        let b: usize = if self.untextured.is_some() {
            1
        } else {
            0
        };
        a + b
    }

    /// The kinds of the cached variants, textured first.
    pub fn kinds(&self) -> (r: Vec<ShaderType>)
        ensures
            r@.to_set() == self@.dom(),
            r@.no_duplicates(),
    {
        let mut r: Vec<ShaderType> = Vec::new();
        if self.textured.is_some() {
            r.push(ShaderType::Textured);
        }
        if self.untextured.is_some() {
            r.push(ShaderType::Untextured);
        }
        proof {
            assert(r@.to_set() =~= self@.dom()) by {
                assert forall|k: ShaderType| r@.to_set().contains(k) <==> self@.dom().contains(k) by {
                    if r@.contains(k) {
                        let i = choose|i: int| 0 <= i < r@.len() && r@[i] == k;
                    }
                    if self@.dom().contains(k) {
                        match k {
                            ShaderType::Textured => assert(r@[0] == k),
                            ShaderType::Untextured => assert(r@[r@.len() - 1] == k),
                        }
                    }
                }
            }
        }
        r
    }

    /// Takes the pipeline rebuilt for a new swapchain for the cached variant
    /// of this kind; its descriptor-set layout stays.
    pub fn reload_swapchain(&mut self, kind: ShaderType, pipeline: u64, pipeline_layout: u64)
        requires
            old(self)@.contains_key(kind),
        ensures
            final(self)@ == old(self)@.insert(
                kind,
                VulkanShader { pipeline, pipeline_layout, ..old(self)@[kind] },
            ),
            cache_wf(old(self)@) ==> cache_wf(final(self)@),
    {
        match kind {
            ShaderType::Textured => {
                if let Some(mut s) = self.textured {
                    s.reload_swapchain(pipeline, pipeline_layout);
                    self.textured = Some(s);
                }
            },
            ShaderType::Untextured => {
                if let Some(mut s) = self.untextured {
                    s.reload_swapchain(pipeline, pipeline_layout);
                    self.untextured = Some(s);
                }
            },
        }
        assert(self@ =~= old(self)@.insert(
            kind,
            VulkanShader { pipeline, pipeline_layout, ..old(self)@[kind] },
        ));
    }
}

proof fn lemma_view_len(c: &ShaderContainer)
    ensures
        c@.len() == (if c.textured is Some {
            1int
        } else {
            0
        }) + (if c.untextured is Some {
            1int
        } else {
            0
        }),
{
    let t = match c.textured {
        Some(s) => map![ShaderType::Textured => s],
        None => Map::<ShaderType, VulkanShader>::empty(),
    };
    if c.textured is Some {
        assert(t.dom() =~= set![ShaderType::Textured]);
    } else {
        assert(t.dom() =~= Set::<ShaderType>::empty());
    }
    assert(!t.contains_key(ShaderType::Untextured));
}

} // verus!
