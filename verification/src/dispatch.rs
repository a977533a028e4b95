//! Compute passes and the size of their workgroup grid.

use vstd::prelude::*;

verus! {

/// Edge length of one workgroup on both axes. The shader declares the same
/// local size; the two must change together.
pub const WORKGROUP_SIZE: u32 = 8;

/// The two entry points of the compute shader.
#[derive(Clone, Copy, Debug, PartialEq, Eq, Structural)]
pub enum ShaderPass {
    /// Seeds the accumulation image.
    Init,
    /// Blends one more sample into the accumulation image.
    Update,
}

/// One compute dispatch: the pass, the image pairing it is bound to, and the
/// workgroup grid.
#[derive(Clone, Copy, Debug, PartialEq, Eq, Structural)]
pub struct Dispatch {
    pub pass: ShaderPass,
    /// Index of the image bind group: 0 reads A and writes B, 1 the reverse.
    pub image_set: usize,
    pub groups_x: u32,
    pub groups_y: u32,
    pub groups_z: u32,
}

/// The least number of workgroups whose combined edge covers `extent` pixels.
pub open spec fn spec_workgroup_count(extent: u32) -> int {
    (extent + WORKGROUP_SIZE - 1) / (WORKGROUP_SIZE as int)
}

/// The dispatch of `pass` against image pairing `image_set` that covers an
/// output of `width` by `height` pixels.
pub open spec fn spec_dispatch(pass: ShaderPass, image_set: usize, width: u32, height: u32) -> Dispatch {
    Dispatch {
        pass,
        image_set,
        groups_x: spec_workgroup_count(width) as u32,
        groups_y: spec_workgroup_count(height) as u32,
        groups_z: 1,
    }
}

/// Computes the number of workgroups that cover `extent` pixels along one
/// axis, rounding up, without overflow for any extent.
pub fn workgroup_count(extent: u32) -> (groups: u32)
    ensures
        groups == spec_workgroup_count(extent),
        groups * WORKGROUP_SIZE >= extent,
        groups * WORKGROUP_SIZE < extent + WORKGROUP_SIZE,
{
    let whole: u32 = extent / WORKGROUP_SIZE;
    if extent % WORKGROUP_SIZE == 0 {
        whole
    } else {
        whole + 1
    }
}

/// Builds the dispatch of `pass` against image pairing `image_set` for an
/// output of `width` by `height` pixels.
pub fn dispatch_for(pass: ShaderPass, image_set: usize, width: u32, height: u32) -> (dispatch: Dispatch)
    ensures
        dispatch == spec_dispatch(pass, image_set, width, height),
{
    Dispatch {
        pass,
        image_set,
        groups_x: workgroup_count(width),
        groups_y: workgroup_count(height),
        groups_z: 1,
    }
}

/// The grid covers the output: no pixel lies outside it, and no row or column
/// of workgroups lies wholly outside the output.
pub proof fn lemma_grid_covers_output(pass: ShaderPass, image_set: usize, width: u32, height: u32)
    ensures
        spec_dispatch(pass, image_set, width, height).groups_x * WORKGROUP_SIZE >= width,
        spec_dispatch(pass, image_set, width, height).groups_y * WORKGROUP_SIZE >= height,
        spec_dispatch(pass, image_set, width, height).groups_x * WORKGROUP_SIZE < width + WORKGROUP_SIZE,
        spec_dispatch(pass, image_set, width, height).groups_y * WORKGROUP_SIZE < height + WORKGROUP_SIZE,
        width == 0 <==> spec_dispatch(pass, image_set, width, height).groups_x == 0,
        height == 0 <==> spec_dispatch(pass, image_set, width, height).groups_y == 0,
{
}

} // verus!
