use gpu_ray_tracing::pipeline::{ComputeShaderPipeline, PipelineActions};

const NOTHING: PipelineActions = PipelineActions {
    create_texture_layout: false,
    create_camera_layout: false,
    create_sphere_layout: false,
    queue_init_pipeline: false,
    queue_update_pipeline: false,
};

#[test]
fn registry_starts_empty() {
    let registry = ComputeShaderPipeline::new();
    assert!(!registry.texture_bind_group_layout);
    assert!(!registry.camera_bind_group_layout);
    assert!(!registry.sphere_bind_group_layout);
    assert!(!registry.init_pipeline);
    assert!(!registry.update_pipeline);
    assert!(!registry.layouts_ready());
    assert_eq!(ComputeShaderPipeline::default(), registry);
}

#[test]
fn first_frame_creates_layouts_only() {
    let mut registry = ComputeShaderPipeline::new();
    let actions = registry.prepare_compute_pipelines();
    assert_eq!(
        actions,
        PipelineActions {
            create_texture_layout: true,
            create_camera_layout: true,
            create_sphere_layout: true,
            queue_init_pipeline: false,
            queue_update_pipeline: false,
        }
    );
    assert!(registry.layouts_ready());
    assert!(!registry.init_pipeline);
    assert!(!registry.update_pipeline);
}

#[test]
fn second_frame_queues_pipelines() {
    let mut registry = ComputeShaderPipeline::new();
    registry.prepare_compute_pipelines();
    let actions = registry.prepare_compute_pipelines();
    assert_eq!(
        actions,
        PipelineActions {
            create_texture_layout: false,
            create_camera_layout: false,
            create_sphere_layout: false,
            queue_init_pipeline: true,
            queue_update_pipeline: true,
        }
    );
    assert!(registry.init_pipeline);
    assert!(registry.update_pipeline);
}

#[test]
fn later_frames_do_nothing() {
    let mut registry = ComputeShaderPipeline::new();
    registry.prepare_compute_pipelines();
    registry.prepare_compute_pipelines();
    let settled = registry;
    for _ in 0..3 {
        assert_eq!(registry.prepare_compute_pipelines(), NOTHING);
        assert_eq!(registry, settled);
    }
}

#[test]
fn missing_layout_delays_queueing() {
    let mut registry = ComputeShaderPipeline {
        texture_bind_group_layout: true,
        camera_bind_group_layout: false,
        sphere_bind_group_layout: true,
        init_pipeline: false,
        update_pipeline: false,
    };
    assert!(!registry.layouts_ready());
    let actions = registry.prepare_compute_pipelines();
    assert_eq!(
        actions,
        PipelineActions {
            create_texture_layout: false,
            create_camera_layout: true,
            create_sphere_layout: false,
            queue_init_pipeline: false,
            queue_update_pipeline: false,
        }
    );
    assert!(registry.layouts_ready());
    assert!(!registry.init_pipeline);
}

#[test]
fn only_missing_pipeline_is_queued() {
    let mut registry = ComputeShaderPipeline {
        texture_bind_group_layout: true,
        camera_bind_group_layout: true,
        sphere_bind_group_layout: true,
        init_pipeline: true,
        update_pipeline: false,
    };
    let actions = registry.prepare_compute_pipelines();
    assert!(!actions.queue_init_pipeline);
    assert!(actions.queue_update_pipeline);
    assert!(registry.update_pipeline);
}
