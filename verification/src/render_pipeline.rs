//! The two render passes, the pipelines that serve them, and the cache that
//! hands pipelines out by name.

use crate::device::{BindGroupLayoutId, CompareFunction, Device, RenderPipelineId, TextureFormat};
use crate::pipeline_state::{
    blend_component_additive, blend_component_over, blend_component_replace, BlendComponent,
    BlendFactor, BlendOperation, BlendState, ColorTargetState, DepthStencilState, EntryPoint, Face,
    FrontFace, MultisampleState, PolygonMode, PrimitiveState, PrimitiveTopology,
    RenderPipelineDescriptor, RenderPipelineView, ShaderSource, VertexBufferLayout,
    VertexBufferLayoutView,
};
use vstd::prelude::*;

verus! {

/// The two kinds of pass of a frame: the first lays down depth and ambient
/// colour, the second adds the light of one source.
#[derive(Clone, Copy, Debug, PartialEq, Eq, Structural)]
pub enum Pass {
    Ambient,
    Lit,
}

/// What a pipeline is built from.
#[derive(Debug)]
pub struct Properties {
    pub vs_main: EntryPoint,
    pub fs_main: EntryPoint,
    pub layout: Vec<BindGroupLayoutId>,
    pub color_format: TextureFormat,
    pub depth_format: Option<TextureFormat>,
    pub vertex_layouts: Vec<VertexBufferLayout>,
    pub shader: ShaderSource,
    pub pass: Pass,
}

/// The properties of a pipeline as a mathematical value.
pub ghost struct PropertiesView {
    pub vs_main: EntryPoint,
    pub fs_main: EntryPoint,
    pub layout: Seq<BindGroupLayoutId>,
    pub color_format: TextureFormat,
    pub depth_format: Option<TextureFormat>,
    pub vertex_layouts: Seq<VertexBufferLayoutView>,
    pub shader: ShaderSource,
    pub pass: Pass,
}

impl View for Properties {
    type V = PropertiesView;

    open spec fn view(&self) -> PropertiesView {
        PropertiesView {
            vs_main: self.vs_main,
            fs_main: self.fs_main,
            layout: self.layout@,
            color_format: self.color_format,
            depth_format: self.depth_format,
            vertex_layouts: self.vertex_layouts@.map_values(|l: VertexBufferLayout| l@),
            shader: self.shader,
            pass: self.pass,
        }
    }
}

/// Whether a pass writes depth: the ambient pass does, a lit pass tests
/// against what the ambient pass wrote.
pub open spec fn pass_writes_depth(pass: Pass) -> bool {
    pass == Pass::Ambient
}

/// How a pass blends: the ambient pass overwrites, a lit pass adds its
/// colour and lays its alpha over.
pub open spec fn pass_blend(pass: Pass) -> BlendState {
    match pass {
        Pass::Ambient => BlendState {
            color: blend_component_replace(),
            alpha: blend_component_replace(),
        },
        Pass::Lit => BlendState {
            color: blend_component_additive(),
            alpha: blend_component_over(),
        },
    }
}

/// Triangle lists with counter-clockwise front faces, back faces culled,
/// filled.
pub open spec fn mesh_primitive() -> PrimitiveState {
    PrimitiveState {
        topology: PrimitiveTopology::TriangleList,
        front_face: FrontFace::Ccw,
        cull_mode: Some(Face::Back),
        polygon_mode: PolygonMode::Fill,
    }
}

/// One sample per pixel.
pub open spec fn single_sample() -> MultisampleState {
    MultisampleState { count: 1, mask_all: true, alpha_to_coverage_enabled: false }
}

/// The depth state of a pass on an attachment of the given format: the
/// test passes on less-or-equal.
pub open spec fn pass_depth(pass: Pass, format: TextureFormat) -> DepthStencilState {
    DepthStencilState {
        format,
        depth_write_enabled: pass_writes_depth(pass),
        depth_compare: CompareFunction::LessEqual,
    }
}

/// The pipeline that the given properties describe.
pub open spec fn pipeline_for(properties: PropertiesView) -> RenderPipelineView {
    RenderPipelineView {
        layout: properties.layout,
        shader: properties.shader,
        vertex_entry: properties.vs_main,
        fragment_entry: properties.fs_main,
        vertex_buffers: properties.vertex_layouts,
        target: ColorTargetState {
            format: properties.color_format,
            blend: Some(pass_blend(properties.pass)),
        },
        primitive: mesh_primitive(),
        depth_stencil: match properties.depth_format {
            Some(format) => Some(pass_depth(properties.pass, format)),
            None => None,
        },
        multisample: single_sample(),
    }
}

/// Builds the description of the pipeline for the given properties.
pub fn describe_pipeline(properties: Properties) -> (desc: RenderPipelineDescriptor)
    ensures
        desc@ == pipeline_for(properties@),
{
    let depth_write_enabled = match properties.pass {
        Pass::Ambient => true,
        Pass::Lit => false,
    };
    let replace = BlendComponent {
        src_factor: BlendFactor::One,
        dst_factor: BlendFactor::Zero,
        operation: BlendOperation::Add,
    };
    let blend_state = match properties.pass {
        Pass::Ambient => BlendState { color: replace, alpha: replace },
        Pass::Lit => BlendState {
            color: BlendComponent {
                src_factor: BlendFactor::One,
                dst_factor: BlendFactor::One,
                operation: BlendOperation::Add,
            },
            alpha: BlendComponent {
                src_factor: BlendFactor::One,
                dst_factor: BlendFactor::OneMinusSrcAlpha,
                operation: BlendOperation::Add,
            },
        },
    };
    let depth_stencil = match properties.depth_format {
        Some(format) => Some(
            DepthStencilState {
                format,
                depth_write_enabled,
                depth_compare: CompareFunction::LessEqual,
            },
        ),
        None => None,
    };
    RenderPipelineDescriptor {
        layout: properties.layout,
        shader: properties.shader,
        vertex_entry: properties.vs_main,
        fragment_entry: properties.fs_main,
        vertex_buffers: properties.vertex_layouts,
        target: ColorTargetState { format: properties.color_format, blend: Some(blend_state) },
        primitive: PrimitiveState {
            topology: PrimitiveTopology::TriangleList,
            front_face: FrontFace::Ccw,
            cull_mode: Some(Face::Back),
            polygon_mode: PolygonMode::Fill,
        },
        depth_stencil,
        multisample: MultisampleState {
            count: 1,
            mask_all: true,
            alpha_to_coverage_enabled: false,
        },
    }
}

/// The pipeline cache: pipelines by name, no name twice. Nothing is ever
/// evicted.
pub struct RenderPipelineVendor {
    names: Vec<String>,
    pipelines: Vec<RenderPipelineId>,
}

impl View for RenderPipelineVendor {
    type V = Map<Seq<char>, RenderPipelineId>;

    closed spec fn view(&self) -> Map<Seq<char>, RenderPipelineId> {
        Map::new(
            |name: Seq<char>| self.holds(name),
            |name: Seq<char>| self.pipelines[self.index_of(name)],
        )
    }
}

impl RenderPipelineVendor {
    #[verifier::type_invariant]
    spec fn well_formed(self) -> bool {
        &&& self.names.len() == self.pipelines.len()
        &&& forall|i: int, j: int|
            #![trigger self.names[i], self.names[j]]
            0 <= i < j < self.names.len() ==> self.names[i]@ != self.names[j]@
    }

    spec fn is_at(self, name: Seq<char>, i: int) -> bool {
        0 <= i < self.names.len() && self.names[i]@ == name
    }

    spec fn holds(self, name: Seq<char>) -> bool {
        exists|i: int| self.is_at(name, i)
    }

    spec fn index_of(self, name: Seq<char>) -> int {
        choose|i: int| self.is_at(name, i)
    }

    /// A cache without pipelines.
    pub fn new() -> (vendor: Self)
        ensures
            vendor@ == Map::<Seq<char>, RenderPipelineId>::empty(),
    {
        let vendor = RenderPipelineVendor { names: Vec::new(), pipelines: Vec::new() };
        assert(vendor@ =~= Map::<Seq<char>, RenderPipelineId>::empty());
        vendor
    }

    fn find(&self, key: &String) -> (found: Option<usize>)
        ensures
            match found {
                Some(i) => self.is_at(key@, i as int),
                None => !self.holds(key@),
            },
    {
        let mut i: usize = 0;
        while i < self.names.len()
            invariant
                i <= self.names.len(),
                forall|k: int| 0 <= k < i ==> (#[trigger] self.names[k])@ != key@,
            decreases self.names.len() - i,
        {
            if self.names[i] == *key {
                return Some(i);
            }
            i = i + 1;
        }
        assert forall|k: int| !self.is_at(key@, k) by {
            if 0 <= k < self.names.len() {
                assert(self.names[k]@ != key@);
            }
        }
        None
    }

    /// Whether a pipeline is cached under the name.
    pub fn has_pipeline(&self, named: &str) -> (has: bool)
        ensures
            has == self@.contains_key(named@),
    {
        let key = named.to_owned();
        self.find(&key).is_some()
    }

    /// The pipeline cached under the name, if there is one.
    pub fn get_pipeline(&self, named: &str) -> (pipeline: Option<RenderPipelineId>)
        ensures
            pipeline == (if self@.contains_key(named@) {
                Some(self@[named@])
            } else {
                None
            }),
    {
        proof {
            use_type_invariant(self);
        }
        let key = named.to_owned();
        match self.find(&key) {
            Some(i) => {
                proof {
                    self.lemma_one_place(named@, i as int, self.index_of(named@));
                }
                Some(self.pipelines[i])
            },
            None => None,
        }
    }

    proof fn lemma_one_place(self, name: Seq<char>, i: int, j: int)
        requires
            self.well_formed(),
            self.is_at(name, i),
            self.is_at(name, j),
        ensures
            i == j,
    {
        if i < j {
            assert(self.names[i]@ != self.names[j]@);
        }
        if j < i {
            assert(self.names[j]@ != self.names[i]@);
        }
    }

    /// Builds the pipeline that the properties describe and caches it under
    /// the name, in place of any pipeline cached under that name before.
    pub fn create_render_pipeline(
        &mut self,
        named: &str,
        device: &mut Device,
        properties: Properties,
    ) -> (pipeline: RenderPipelineId)
        ensures
            pipeline.0 == old(device)@.render_pipelines.len(),
            final(device)@ == old(device)@.with_render_pipeline(pipeline_for(properties@)),
            final(self)@ == old(self)@.insert(named@, pipeline),
    {
        proof {
            use_type_invariant(&*self);
        }
        let pipeline = device.create_render_pipeline(describe_pipeline(properties));
        let key = named.to_owned();
        let found = self.find(&key);
        match found {
            Some(i) => {
                self.pipelines[i] = pipeline;
            },
            None => {
                let mut taken = RenderPipelineVendor::new();
                std::mem::swap(self, &mut taken);
                let RenderPipelineVendor { names, pipelines } = taken;
                let mut names = names;
                let mut pipelines = pipelines;
                names.push(key);
                pipelines.push(pipeline);
                assert forall|k: int| 0 <= k < old(self).names.len() implies #[trigger] names[k]@
                    != named@ by {
                    assert(!old(self).is_at(named@, k));
                }
                *self = RenderPipelineVendor { names, pipelines };
            },
        }
        proof {
            let before = *old(self);
            let after = *self;
            let at: int = match found {
                Some(i) => i as int,
                None => before.names.len() as int,
            };
            assert(after.is_at(named@, at));
            assert forall|name: Seq<char>, i: int| name != named@ implies (before.is_at(name, i)
                <==> after.is_at(name, i)) by {}
            assert forall|name: Seq<char>| after.holds(name) == (before.holds(name) || name
                == named@) by {
                if name != named@ {
                    if before.holds(name) {
                        assert(after.is_at(name, before.index_of(name)));
                    }
                    if after.holds(name) {
                        assert(before.is_at(name, after.index_of(name)));
                    }
                }
            }
            assert forall|name: Seq<char>| after.holds(name) implies after.pipelines[after.index_of(
                name,
            )] == (if name == named@ {
                pipeline
            } else {
                before.pipelines[before.index_of(name)]
            }) by {
                if name == named@ {
                    after.lemma_one_place(name, at, after.index_of(name));
                } else {
                    let i = after.index_of(name);
                    assert(before.is_at(name, i));
                    before.lemma_one_place(name, i, before.index_of(name));
                }
            }
            assert(after@ =~= before@.insert(named@, pipeline));
        }
        pipeline
    }
}

impl Default for RenderPipelineVendor {
    fn default() -> (vendor: Self)
        ensures
            vendor@ == Map::<Seq<char>, RenderPipelineId>::empty(),
    {
        RenderPipelineVendor::new()
    }
}

} // verus!
