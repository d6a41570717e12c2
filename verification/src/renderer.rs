//! The renderer core: the state the renderer owns and the decisions it
//! makes, frame by frame.
//!
//! The core holds the surface configuration, the depth attachment that must
//! match it, the uniform (view-projection) state, the pipeline
//! configuration, and the arena of meshes with the instances that reference
//! them by handle. Its methods decide what the host shell performs against
//! the GPU: which bytes each upload carries, how a resize is applied or
//! refused, and the exact ordered draw list of a frame.

use vstd::prelude::*;

use crate::frame::{spec_draw, spec_frame_draws, DrawCall, FramePlan};
use crate::mesh::{Mesh, MeshInstance};
use crate::pipeline::{is_standard_pipeline, pipeline_descriptor, PipelineDesc};
use crate::surface::{create_depth_texture, select_surface_format, spec_selected_format,
    DepthTexture, SurfaceCaps, SurfaceConfig, SurfaceError};
use crate::transform::Mat4Bits;
use crate::vertex::Vertex;

verus! {

/// The state of the renderer between frames.
pub struct Renderer {
    /// The configuration the surface is currently presented with.
    pub config: SurfaceConfig,
    /// The depth attachment, recreated whenever the surface is
    /// reconfigured.
    pub depth_texture: DepthTexture,
    /// The view-projection matrix the uniform buffer currently holds.
    pub uniform: Mat4Bits,
    /// The pipeline configuration, fixed at construction.
    pub pipeline: PipelineDesc,
    /// The mesh arena; instances refer into it by position.
    pub meshes: Vec<Mesh>,
    /// The registered instances, drawn in registration order.
    pub instances: Vec<MeshInstance>,
}

impl Renderer {
    /// The invariant every method preserves: the surface keeps a positive
    /// size, the depth attachment matches it, every mesh's cached index
    /// count is honest, and every instance is clean or flagged and points
    /// into the arena.
    pub open spec fn wf(&self) -> bool {
        &&& self.config.width > 0
        &&& self.config.height > 0
        &&& self.depth_texture.width == self.config.width
        &&& self.depth_texture.height == self.config.height
        &&& forall|i: int| 0 <= i < self.meshes@.len() ==> (#[trigger] self.meshes@[i]).wf()
        &&& forall|i: int|
            0 <= i < self.instances@.len() ==> (#[trigger] self.instances@[i]).wf()
        &&& forall|i: int|
            0 <= i < self.instances@.len() ==> (#[trigger] self.instances@[i]).mesh
                < self.meshes@.len()
    }

    /// Builds the renderer state for a surface with the given capabilities
    /// and initial pixel size: the first sRGB capability format (else the
    /// first offered), the preferred present and alpha modes, a depth
    /// attachment at the surface's size, a zeroed uniform buffer, and no
    /// meshes.
    pub fn new(caps: &SurfaceCaps, width: u32, height: u32) -> (r: Renderer)
        requires
            caps.formats@.len() > 0,
            caps.present_modes@.len() > 0,
            caps.alpha_modes@.len() > 0,
            width > 0,
            height > 0,
        ensures
            r.wf(),
            r.config == (SurfaceConfig {
                format: spec_selected_format(caps.formats@),
                width,
                height,
                present_mode: caps.present_modes@[0],
                alpha_mode: caps.alpha_modes@[0],
            }),
            r.uniform.is_zero(),
            r.meshes@.len() == 0,
            r.instances@.len() == 0,
            is_standard_pipeline(r.pipeline, spec_selected_format(caps.formats@)),
    {
        let format = select_surface_format(&caps.formats);
        let config = SurfaceConfig {
            format,
            width,
            height,
            present_mode: caps.present_modes[0],
            alpha_mode: caps.alpha_modes[0],
        };
        let depth_texture = create_depth_texture(&config);
        let pipeline = pipeline_descriptor(&format);
        Renderer {
            config,
            depth_texture,
            uniform: Mat4Bits::zeroed(),
            pipeline,
            meshes: Vec::new(),
            instances: Vec::new(),
        }
    }

    /// Registers a mesh built from the given arrays together with one
    /// instance of it at the given transform. The new instance's buffer
    /// starts out holding the transform, so no refresh is pending.
    pub fn create_mesh(&mut self, vertices: Vec<Vertex>, indices: Vec<u32>, transform: &Mat4Bits)
        requires
            old(self).wf(),
            indices@.len() <= u32::MAX,
        ensures
            final(self).wf(),
            final(self).meshes@.len() == old(self).meshes@.len() + 1,
            forall|j: int|
                0 <= j < old(self).meshes@.len() ==> final(self).meshes@[j] == old(
                    self,
                ).meshes@[j],
            final(self).meshes@.last().vertices@ == vertices@,
            final(self).meshes@.last().indices@ == indices@,
            final(self).meshes@.last().index_count == indices@.len(),
            final(self).instances@ == old(self).instances@.push(
                MeshInstance {
                    mesh: old(self).meshes@.len() as usize,
                    transform: *transform,
                    uploaded: *transform,
                    dirty: false,
                },
            ),
            final(self).config == old(self).config,
            final(self).depth_texture == old(self).depth_texture,
            final(self).uniform == old(self).uniform,
            final(self).pipeline == old(self).pipeline,
    {
        let mesh_id = self.meshes.len();
        let mesh = Mesh::new(vertices, indices);
        self.meshes.push(mesh);
        let inst = MeshInstance::new(mesh_id, transform);
        self.instances.push(inst);
    }

    /// Registers one more instance of an already registered mesh: the two
    /// instances share the mesh's vertex and index buffers through the
    /// handle. Returns the new instance's handle.
    pub fn add_instance(&mut self, mesh: usize, transform: &Mat4Bits) -> (id: usize)
        requires
            old(self).wf(),
            mesh < old(self).meshes@.len(),
        ensures
            final(self).wf(),
            id == old(self).instances@.len(),
            final(self).instances@ == old(self).instances@.push(
                MeshInstance {
                    mesh,
                    transform: *transform,
                    uploaded: *transform,
                    dirty: false,
                },
            ),
            final(self).meshes@ == old(self).meshes@,
            final(self).config == old(self).config,
            final(self).depth_texture == old(self).depth_texture,
            final(self).uniform == old(self).uniform,
            final(self).pipeline == old(self).pipeline,
    {
        let id = self.instances.len();
        let inst = MeshInstance::new(mesh, transform);
        self.instances.push(inst);
        id
    }

    /// Replaces one instance's transform. Only that instance is touched,
    /// and only its CPU-side copy: the GPU copy is refreshed by the next
    /// frame that draws it.
    pub fn set_transform(&mut self, instance: usize, transform: &Mat4Bits)
        requires
            old(self).wf(),
            instance < old(self).instances@.len(),
        ensures
            final(self).wf(),
            final(self).instances@ == old(self).instances@.update(
                instance as int,
                MeshInstance {
                    mesh: old(self).instances@[instance as int].mesh,
                    transform: *transform,
                    uploaded: old(self).instances@[instance as int].uploaded,
                    dirty: true,
                },
            ),
            final(self).meshes@ == old(self).meshes@,
            final(self).config == old(self).config,
            final(self).depth_texture == old(self).depth_texture,
            final(self).uniform == old(self).uniform,
            final(self).pipeline == old(self).pipeline,
    {
        let mut inst = self.instances[instance];
        inst.set_transform(transform);
        self.instances.set(instance, inst);
    }

    /// Overwrites the uniform buffer wholesale with a new view-projection
    /// matrix.
    pub fn update_uniform_buffer(&mut self, view_proj: &Mat4Bits)
        requires
            old(self).wf(),
        ensures
            final(self).wf(),
            final(self).uniform == *view_proj,
            final(self).meshes@ == old(self).meshes@,
            final(self).instances@ == old(self).instances@,
            final(self).config == old(self).config,
            final(self).depth_texture == old(self).depth_texture,
            final(self).pipeline == old(self).pipeline,
    {
        self.uniform = *view_proj;
    }

    /// Decides one frame.
    ///
    /// A supplied camera matrix first overwrites the uniform state — also
    /// when the surface then fails, matching the submission order of the
    /// frame protocol. `surface` is the outcome the host observed acquiring
    /// the next presentable image; an error is handed back unchanged, and
    /// no draw is decided for such a frame. Otherwise the frame plan lists
    /// one indexed draw per registered instance, in registration order,
    /// refreshing exactly the stale instance buffers, and the core
    /// remembers every instance as clean.
    pub fn render(&mut self, view_proj: Option<&Mat4Bits>, surface: Result<(), SurfaceError>) -> (r:
        Result<FramePlan, SurfaceError>)
        requires
            old(self).wf(),
        ensures
            final(self).wf(),
            final(self).config == old(self).config,
            final(self).depth_texture == old(self).depth_texture,
            final(self).meshes@ == old(self).meshes@,
            final(self).pipeline == old(self).pipeline,
            (match view_proj {
                Some(m) => final(self).uniform == *m,
                None => final(self).uniform == old(self).uniform,
            }),
            surface matches Err(e) ==> r == Err::<FramePlan, SurfaceError>(e)
                && final(self).instances@ == old(self).instances@,
            surface is Ok ==> (r matches Ok(plan) && {
                &&& plan.uniform_write == (match view_proj {
                    Some(m) => Some(*m),
                    None => None::<Mat4Bits>,
                })
                &&& plan.draws@ == spec_frame_draws(old(self).meshes@, old(self).instances@)
            }),
            surface is Ok ==> final(self).instances@.len() == old(self).instances@.len(),
            surface is Ok ==> forall|j: int|
                0 <= j < old(self).instances@.len() ==> (#[trigger] final(self).instances@[j])
                    == (MeshInstance {
                    mesh: old(self).instances@[j].mesh,
                    transform: old(self).instances@[j].transform,
                    uploaded: old(self).instances@[j].transform,
                    dirty: false,
                }),
    {
        let ghost orig: Renderer = *self;
        match view_proj {
            Some(m) => {
                self.uniform = *m;
            },
            None => {},
        }
        let uniform_write: Option<Mat4Bits> = match view_proj {
            Some(m) => Some(*m),
            None => None,
        };
        let ghost u: Mat4Bits = self.uniform;
        if let Err(e) = surface {
            return Err(e);
        }
        let mut draws: Vec<DrawCall> = Vec::new();
        let mut i: usize = 0;
        while i < self.instances.len()
            invariant
                i <= self.instances@.len(),
                self.instances@.len() == orig.instances@.len(),
                self.meshes@ == orig.meshes@,
                self.config == orig.config,
                self.depth_texture == orig.depth_texture,
                self.pipeline == orig.pipeline,
                self.uniform == u,
                orig.wf(),
                forall|j: int|
                    i <= j < self.instances@.len() ==> (#[trigger] self.instances@[j])
                        == orig.instances@[j],
                forall|j: int|
                    0 <= j < i ==> (#[trigger] self.instances@[j]) == (MeshInstance {
                        mesh: orig.instances@[j].mesh,
                        transform: orig.instances@[j].transform,
                        uploaded: orig.instances@[j].transform,
                        dirty: false,
                    }),
                draws@.len() == i,
                forall|j: int|
                    0 <= j < i ==> (#[trigger] draws@[j]) == spec_draw(
                        orig.meshes@,
                        orig.instances@[j],
                        j,
                    ),
            decreases self.instances@.len() - i,
        {
            let inst = self.instances[i];
            let upload: Option<Mat4Bits> = if inst.dirty {
                Some(inst.transform)
            } else {
                None
            };
            let call = DrawCall {
                mesh: inst.mesh,
                instance: i,
                index_count: self.meshes[inst.mesh].index_count,
                instance_count: 1,
                transform_upload: upload,
            };
            draws.push(call);
            self.instances.set(
                i,
                MeshInstance {
                    mesh: inst.mesh,
                    transform: inst.transform,
                    uploaded: inst.transform,
                    dirty: false,
                },
            );
            i = i + 1;
        }
        proof {
            assert(draws@ =~= spec_frame_draws(orig.meshes@, orig.instances@));
        }
        Ok(FramePlan { uniform_write, draws })
    }

    /// Applies a window resize. A zero dimension means a minimized window:
    /// the previous configuration and depth attachment are retained
    /// untouched. A positive size replaces the configured width and height
    /// exactly and recreates the depth attachment at that size.
    pub fn resize_surface(&mut self, width: u32, height: u32)
        requires
            old(self).wf(),
        ensures
            final(self).wf(),
            width == 0 || height == 0 ==> *final(self) == *old(self),
            width > 0 && height > 0 ==> final(self).config == (SurfaceConfig {
                width,
                height,
                ..old(self).config
            }),
            width > 0 && height > 0 ==> final(self).depth_texture == (DepthTexture {
                width,
                height,
            }),
            final(self).meshes@ == old(self).meshes@,
            final(self).instances@ == old(self).instances@,
            final(self).uniform == old(self).uniform,
            final(self).pipeline == old(self).pipeline,
    {
        if width > 0 && height > 0 {
            self.config.width = width;
            self.config.height = height;
            self.depth_texture = create_depth_texture(&self.config);
        }
    }

    /// The physical pixel size the surface is configured with, for the host
    /// to reapply after a lost or outdated surface.
    pub fn get_size(&self) -> (size: (u32, u32))
        ensures
            size.0 == self.config.width,
            size.1 == self.config.height,
    {
        (self.config.width, self.config.height)
    }
}

} // verus!
