//! The registry of bind group layouts and compute pipelines.

use vstd::prelude::*;

verus! {

/// Which layouts exist and which pipelines have been queued for compilation.
/// The host owns the handles; this records only whether each one is there.
#[derive(Clone, Copy, Debug, PartialEq, Eq, Structural)]
pub struct ComputeShaderPipeline {
    pub texture_bind_group_layout: bool,
    pub camera_bind_group_layout: bool,
    pub sphere_bind_group_layout: bool,
    pub init_pipeline: bool,
    pub update_pipeline: bool,
}

/// What the host is to create in one frame.
#[derive(Clone, Copy, Debug, PartialEq, Eq, Structural)]
pub struct PipelineActions {
    pub create_texture_layout: bool,
    pub create_camera_layout: bool,
    pub create_sphere_layout: bool,
    pub queue_init_pipeline: bool,
    pub queue_update_pipeline: bool,
}

impl ComputeShaderPipeline {
    /// All three layouts exist.
    pub open spec fn spec_layouts_ready(self) -> bool {
        self.texture_bind_group_layout && self.camera_bind_group_layout && self.sphere_bind_group_layout
    }

    /// Everything exists and both pipelines are queued: nothing is left to
    /// prepare.
    pub open spec fn spec_complete(self) -> bool {
        self.spec_layouts_ready() && self.init_pipeline && self.update_pipeline
    }

    /// What one frame creates: every missing layout; and, only in a frame
    /// that creates no layout, every pipeline not yet queued.
    pub open spec fn spec_actions(self) -> PipelineActions {
        PipelineActions {
            create_texture_layout: !self.texture_bind_group_layout,
            create_camera_layout: !self.camera_bind_group_layout,
            create_sphere_layout: !self.sphere_bind_group_layout,
            queue_init_pipeline: self.spec_layouts_ready() && !self.init_pipeline,
            queue_update_pipeline: self.spec_layouts_ready() && !self.update_pipeline,
        }
    }

    /// The registry after the host has done what `spec_actions` asks.
    pub open spec fn spec_prepared(self) -> ComputeShaderPipeline {
        ComputeShaderPipeline {
            texture_bind_group_layout: true,
            camera_bind_group_layout: true,
            sphere_bind_group_layout: true,
            init_pipeline: self.init_pipeline || self.spec_layouts_ready(),
            update_pipeline: self.update_pipeline || self.spec_layouts_ready(),
        }
    }

    /// A registry in which nothing exists yet.
    pub fn new() -> (registry: ComputeShaderPipeline)
        ensures
            registry == (ComputeShaderPipeline {
                texture_bind_group_layout: false,
                camera_bind_group_layout: false,
                sphere_bind_group_layout: false,
                init_pipeline: false,
                update_pipeline: false,
            }),
    {
        ComputeShaderPipeline {
            texture_bind_group_layout: false,
            camera_bind_group_layout: false,
            sphere_bind_group_layout: false,
            init_pipeline: false,
            update_pipeline: false,
        }
    }

    /// Tells whether all three layouts exist.
    pub fn layouts_ready(&self) -> (ready: bool)
        ensures
            ready == self.spec_layouts_ready(),
    {
        self.texture_bind_group_layout && self.camera_bind_group_layout && self.sphere_bind_group_layout
    }

    /// Decides what to create this frame and records it as created.
    ///
    /// Missing layouts are created first. Pipelines are queued only in a
    /// frame that created no layout, so that whatever needs a fresh layout
    /// in the same frame finds it before compilation starts.
    pub fn prepare_compute_pipelines(&mut self) -> (actions: PipelineActions)
        ensures
            actions == old(self).spec_actions(),
            *final(self) == old(self).spec_prepared(),
    {
        let ready = self.layouts_ready();
        let actions = PipelineActions {
            create_texture_layout: !self.texture_bind_group_layout,
            create_camera_layout: !self.camera_bind_group_layout,
            create_sphere_layout: !self.sphere_bind_group_layout,
            queue_init_pipeline: ready && !self.init_pipeline,
            queue_update_pipeline: ready && !self.update_pipeline,
        };
        self.texture_bind_group_layout = true;
        self.camera_bind_group_layout = true;
        self.sphere_bind_group_layout = true;
        if ready {
            self.init_pipeline = true;
            self.update_pipeline = true;
        }
        actions
    }
}

impl Default for ComputeShaderPipeline {
    /// A registry in which nothing exists yet.
    fn default() -> (registry: ComputeShaderPipeline)
        ensures
            registry == (ComputeShaderPipeline {
                texture_bind_group_layout: false,
                camera_bind_group_layout: false,
                sphere_bind_group_layout: false,
                init_pipeline: false,
                update_pipeline: false,
            }),
    {
        ComputeShaderPipeline::new()
    }
}

/// No frame both creates a layout and queues a pipeline.
pub proof fn lemma_no_queue_with_fresh_layout(registry: ComputeShaderPipeline)
    ensures
        ({
            let actions = registry.spec_actions();
            (actions.create_texture_layout || actions.create_camera_layout || actions.create_sphere_layout) ==> !(
            actions.queue_init_pipeline || actions.queue_update_pipeline)
        }),
{
}

/// Preparation settles within two frames: after the first all layouts exist,
/// after the second both pipelines are queued, and from then on a frame asks
/// for nothing and changes nothing.
pub proof fn lemma_preparation_settles(registry: ComputeShaderPipeline)
    ensures
        registry.spec_prepared().spec_layouts_ready(),
        registry.spec_prepared().spec_prepared().spec_complete(),
        registry.spec_complete() ==> registry.spec_prepared() == registry && registry.spec_actions() == (
        PipelineActions {
            create_texture_layout: false,
            create_camera_layout: false,
            create_sphere_layout: false,
            queue_init_pipeline: false,
            queue_update_pipeline: false,
        }),
{
}

} // verus!
