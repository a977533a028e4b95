//! What the host binds each frame: the two image pairings and the buffers of
//! camera and scene.

use vstd::prelude::*;
use crate::camera::{SceneCamera, CAMERA_LANES};
use crate::images::{image_binding, spec_image_binding, ImageBinding};
use crate::pipeline::ComputeShaderPipeline;
use crate::sphere::{spec_slots, spec_sphere_lanes, GpuSphere, SphereCollection, MAX_SPHERES, SPHERE_LANES};
use crate::upload::{be_bytes, is_memory_image, le_bytes};

verus! {

/// Slot of the bind group that pairs the two images.
pub const IMAGE_GROUP: u32 = 0;

/// Slot of the bind group that holds the camera uniform.
pub const CAMERA_GROUP: u32 = 1;

/// Slot of the bind group that holds the sphere count and the spheres.
pub const SPHERE_GROUP: u32 = 2;

/// Everything the host needs to create the bind groups of one frame.
#[derive(Debug)]
pub struct PreparedBindings {
    /// The roles of the two images in image bind group 0 and 1.
    pub image_groups: [ImageBinding; 2],
    /// Contents of the camera uniform buffer.
    pub camera_uniform: Vec<u8>,
    /// Contents of the sphere count uniform buffer.
    pub sphere_count: Vec<u8>,
    /// Contents of the sphere storage buffer.
    pub sphere_storage: Vec<u8>,
}

/// The frame can be prepared: the layouts exist and both images are resident
/// on the device.
pub open spec fn spec_can_prepare(
    pipeline: ComputeShaderPipeline,
    image_a_resident: bool,
    image_b_resident: bool,
) -> bool {
    pipeline.spec_layouts_ready() && image_a_resident && image_b_resident
}

/// `prepared` holds what camera `camera` and the active spheres `active` call
/// for: pairing 0 reads A and writes B, pairing 1 the reverse, and each
/// buffer is the memory image of its lanes.
pub open spec fn spec_prepared_for(prepared: PreparedBindings, camera: SceneCamera, active: Seq<GpuSphere>) -> bool {
    &&& prepared.image_groups@ == seq![spec_image_binding(0), spec_image_binding(1)]
    &&& is_memory_image(prepared.camera_uniform@, camera.spec_lanes())
    &&& is_memory_image(prepared.sphere_count@, seq![active.len() as u32])
    &&& is_memory_image(prepared.sphere_storage@, spec_sphere_lanes(spec_slots(active)))
}

/// Prepares the bind groups of one frame. Where a layout does not exist yet
/// or an image is not yet resident the frame is skipped: nothing is returned
/// and nothing has happened. Otherwise the result holds the two image
/// pairings and the contents of the three buffers, whose sizes do not depend
/// on the number of active spheres.
pub fn prepare_bind_groups(
    pipeline: &ComputeShaderPipeline,
    image_a_resident: bool,
    image_b_resident: bool,
    camera: &SceneCamera,
    spheres: &SphereCollection,
) -> (prepared: Option<PreparedBindings>)
    ensures
        prepared is Some <==> spec_can_prepare(*pipeline, image_a_resident, image_b_resident),
        prepared matches Some(p) ==> spec_prepared_for(p, *camera, spheres@),
        prepared matches Some(p) ==> p.camera_uniform@.len() == 4 * CAMERA_LANES && p.sphere_count@.len() == 4
            && p.sphere_storage@.len() == 4 * SPHERE_LANES * MAX_SPHERES,
{
    if !pipeline.layouts_ready() || !image_a_resident || !image_b_resident {
        return None;
    }
    let image_groups = [image_binding(0), image_binding(1)];
    assert(image_groups@ =~= seq![spec_image_binding(0), spec_image_binding(1)]);
    Some(
        PreparedBindings {
            image_groups,
            camera_uniform: camera.to_bytes(),
            sphere_count: spheres.count_bytes(),
            sphere_storage: spheres.storage_bytes(),
        },
    )
}

/// The buffers of a scene without spheres: the count is zero in every byte,
/// and so is the whole storage buffer, whatever the byte order.
pub proof fn lemma_empty_scene_buffers(count: Seq<u8>, storage: Seq<u8>)
    requires
        is_memory_image(count, seq![0u32]),
        is_memory_image(storage, spec_sphere_lanes(spec_slots(Seq::<GpuSphere>::empty()))),
    ensures
        count.len() == 4,
        storage.len() == 4 * SPHERE_LANES * MAX_SPHERES,
        forall|k: int| 0 <= k < count.len() ==> count[k] == 0,
        forall|k: int| 0 <= k < storage.len() ==> storage[k] == 0,
{
    let lanes = spec_sphere_lanes(spec_slots(Seq::<GpuSphere>::empty()));
    assert(le_bytes(0) =~= seq![0u8, 0u8, 0u8, 0u8]);
    assert(be_bytes(0) =~= seq![0u8, 0u8, 0u8, 0u8]);
    assert forall|k: int| 0 <= k < storage.len() implies storage[k] == 0 by {
        assert(0 <= k / 4 < lanes.len());
        assert(0 <= (k / 4) / 8 < MAX_SPHERES);
        assert(lanes[k / 4] == 0);
        assert(0 <= k % 4 < 4);
    }
    assert forall|k: int| 0 <= k < count.len() implies count[k] == 0 by {
        assert(k / 4 == 0);
        assert(0 <= k % 4 < 4);
    }
}

} // verus!
