//! The camera uniform as the shader reads it.

use vstd::prelude::*;
use crate::upload::{cast_lanes, is_memory_image};

verus! {

/// Number of 32-bit lanes in the camera uniform: eleven rows of four.
pub const CAMERA_LANES: usize = 44;

/// The bit pattern of the float 1.0.
pub const ONE_BITS: u32 = 0x3f80_0000;

/// Three float lanes, each as its bit pattern.
#[derive(Clone, Copy, Debug, PartialEq, Eq, Structural)]
pub struct Vec3Bits {
    pub x: u32,
    pub y: u32,
    pub z: u32,
}

/// The camera uniform. Every field is the bit pattern of a float. The fields
/// stand in the order of the shader's struct: each row is a vector of three
/// lanes followed by one scalar lane, so that every vector starts on a
/// 16-byte boundary.
#[derive(Clone, Copy, Debug, PartialEq, Eq, Structural)]
pub struct SceneCamera {
    /// Where rays start.
    pub center: Vec3Bits,
    /// Height of the viewport at the focus distance.
    pub viewport_height: u32,
    /// Upper left corner of the viewport.
    pub viewport_upper_left: Vec3Bits,
    /// Width of the viewport at the focus distance.
    pub viewport_width: u32,
    /// Step from one pixel to the next along a row.
    pub pixel_delta_u: Vec3Bits,
    /// Angle of the cone of rays through each pixel, in degrees.
    pub defocus_angle: u32,
    /// Step from one pixel to the next down a column.
    pub pixel_delta_v: Vec3Bits,
    /// Width of the output over its height.
    pub aspect_ratio: u32,
    /// Horizontal radius of the defocus disk.
    pub defocus_disk_u: Vec3Bits,
    /// Unused lane that keeps the next row aligned.
    pub _padding0: u32,
    /// Vector along the upper edge of the viewport.
    pub viewport_u: Vec3Bits,
    /// Unused lane that keeps the next row aligned.
    pub _padding1: u32,
    /// Vertical radius of the defocus disk.
    pub defocus_disk_v: Vec3Bits,
    /// Greatest number of bounces of one ray.
    pub max_depth: u32,
    /// Position of the camera.
    pub look_from: Vec3Bits,
    /// Samples taken for each pixel.
    pub samples_per_pixel: u32,
    /// Point that the camera looks at.
    pub look_at: Vec3Bits,
    /// 1.0 where accumulation starts over this frame, else 0.0.
    pub camera_has_moved: u32,
    /// The upward direction of the camera.
    pub vup: Vec3Bits,
    /// Seed that decorrelates this frame's samples.
    pub random_seed: u32,
    /// Vector down the left edge of the viewport.
    pub viewport_v: Vec3Bits,
    /// Radius of the defocus disk.
    pub defocus_radius: u32,
}

impl SceneCamera {
    /// The lanes of the uniform in the order of the shader's struct.
    pub open spec fn spec_lanes(self) -> Seq<u32> {
        seq![
            self.center.x,
            self.center.y,
            self.center.z,
            self.viewport_height,
            self.viewport_upper_left.x,
            self.viewport_upper_left.y,
            self.viewport_upper_left.z,
            self.viewport_width,
            self.pixel_delta_u.x,
            self.pixel_delta_u.y,
            self.pixel_delta_u.z,
            self.defocus_angle,
            self.pixel_delta_v.x,
            self.pixel_delta_v.y,
            self.pixel_delta_v.z,
            self.aspect_ratio,
            self.defocus_disk_u.x,
            self.defocus_disk_u.y,
            self.defocus_disk_u.z,
            self._padding0,
            self.viewport_u.x,
            self.viewport_u.y,
            self.viewport_u.z,
            self._padding1,
            self.defocus_disk_v.x,
            self.defocus_disk_v.y,
            self.defocus_disk_v.z,
            self.max_depth,
            self.look_from.x,
            self.look_from.y,
            self.look_from.z,
            self.samples_per_pixel,
            self.look_at.x,
            self.look_at.y,
            self.look_at.z,
            self.camera_has_moved,
            self.vup.x,
            self.vup.y,
            self.vup.z,
            self.random_seed,
            self.viewport_v.x,
            self.viewport_v.y,
            self.viewport_v.z,
            self.defocus_radius,
        ]
    }

    /// The uniform whose lanes are `lanes`, where there are as many as the
    /// uniform holds.
    pub open spec fn spec_from_lanes(lanes: Seq<u32>) -> Option<SceneCamera> {
        if lanes.len() == CAMERA_LANES {
            Some(
                SceneCamera {
                    center: Vec3Bits { x: lanes[0], y: lanes[1], z: lanes[2] },
                    viewport_height: lanes[3],
                    viewport_upper_left: Vec3Bits { x: lanes[4], y: lanes[5], z: lanes[6] },
                    viewport_width: lanes[7],
                    pixel_delta_u: Vec3Bits { x: lanes[8], y: lanes[9], z: lanes[10] },
                    defocus_angle: lanes[11],
                    pixel_delta_v: Vec3Bits { x: lanes[12], y: lanes[13], z: lanes[14] },
                    aspect_ratio: lanes[15],
                    defocus_disk_u: Vec3Bits { x: lanes[16], y: lanes[17], z: lanes[18] },
                    _padding0: lanes[19],
                    viewport_u: Vec3Bits { x: lanes[20], y: lanes[21], z: lanes[22] },
                    _padding1: lanes[23],
                    defocus_disk_v: Vec3Bits { x: lanes[24], y: lanes[25], z: lanes[26] },
                    max_depth: lanes[27],
                    look_from: Vec3Bits { x: lanes[28], y: lanes[29], z: lanes[30] },
                    samples_per_pixel: lanes[31],
                    look_at: Vec3Bits { x: lanes[32], y: lanes[33], z: lanes[34] },
                    camera_has_moved: lanes[35],
                    vup: Vec3Bits { x: lanes[36], y: lanes[37], z: lanes[38] },
                    random_seed: lanes[39],
                    viewport_v: Vec3Bits { x: lanes[40], y: lanes[41], z: lanes[42] },
                    defocus_radius: lanes[43],
                },
            )
        } else {
            None
        }
    }

    /// The lane that tells the shader whether to start accumulation over:
    /// the float 1.0 where the camera has moved, else the float 0.0.
    pub open spec fn spec_reset_flag(has_moved: bool) -> u32 {
        if has_moved {
            ONE_BITS
        } else {
            0
        }
    }

    /// Returns the reset lane for a frame on which the camera has or has not
    /// moved.
    pub fn reset_flag(has_moved: bool) -> (lane: u32)
        ensures
            lane == Self::spec_reset_flag(has_moved),
    {
        if has_moved {
            ONE_BITS
        } else {
            0
        }
    }

    /// Lays the uniform out as lanes.
    pub fn lanes(&self) -> (lanes: Vec<u32>)
        ensures
            lanes@ == self.spec_lanes(),
            lanes@.len() == CAMERA_LANES,
    {
        let mut lanes: Vec<u32> = Vec::with_capacity(CAMERA_LANES);
        lanes.push(self.center.x);
        lanes.push(self.center.y);
        lanes.push(self.center.z);
        lanes.push(self.viewport_height);
        lanes.push(self.viewport_upper_left.x);
        lanes.push(self.viewport_upper_left.y);
        lanes.push(self.viewport_upper_left.z);
        lanes.push(self.viewport_width);
        lanes.push(self.pixel_delta_u.x);
        lanes.push(self.pixel_delta_u.y);
        lanes.push(self.pixel_delta_u.z);
        lanes.push(self.defocus_angle);
        lanes.push(self.pixel_delta_v.x);
        lanes.push(self.pixel_delta_v.y);
        lanes.push(self.pixel_delta_v.z);
        lanes.push(self.aspect_ratio);
        lanes.push(self.defocus_disk_u.x);
        lanes.push(self.defocus_disk_u.y);
        lanes.push(self.defocus_disk_u.z);
        lanes.push(self._padding0);
        lanes.push(self.viewport_u.x);
        lanes.push(self.viewport_u.y);
        lanes.push(self.viewport_u.z);
        lanes.push(self._padding1);
        lanes.push(self.defocus_disk_v.x);
        lanes.push(self.defocus_disk_v.y);
        lanes.push(self.defocus_disk_v.z);
        lanes.push(self.max_depth);
        lanes.push(self.look_from.x);
        lanes.push(self.look_from.y);
        lanes.push(self.look_from.z);
        lanes.push(self.samples_per_pixel);
        lanes.push(self.look_at.x);
        lanes.push(self.look_at.y);
        lanes.push(self.look_at.z);
        lanes.push(self.camera_has_moved);
        lanes.push(self.vup.x);
        lanes.push(self.vup.y);
        lanes.push(self.vup.z);
        lanes.push(self.random_seed);
        lanes.push(self.viewport_v.x);
        lanes.push(self.viewport_v.y);
        lanes.push(self.viewport_v.z);
        lanes.push(self.defocus_radius);
        assert(lanes@ =~= self.spec_lanes());
        lanes
    }

    /// Reads a uniform back from its lanes. Succeeds exactly when there are
    /// as many lanes as the uniform holds.
    pub fn from_lanes(lanes: &[u32]) -> (camera: Option<SceneCamera>)
        ensures
            camera == Self::spec_from_lanes(lanes@),
            camera is Some <==> lanes@.len() == CAMERA_LANES,
            camera matches Some(c) ==> c.spec_lanes() == lanes@,
    {
        if lanes.len() != CAMERA_LANES {
            return None;
        }
        let camera = SceneCamera {
            center: Vec3Bits { x: lanes[0], y: lanes[1], z: lanes[2] },
            viewport_height: lanes[3],
            viewport_upper_left: Vec3Bits { x: lanes[4], y: lanes[5], z: lanes[6] },
            viewport_width: lanes[7],
            pixel_delta_u: Vec3Bits { x: lanes[8], y: lanes[9], z: lanes[10] },
            defocus_angle: lanes[11],
            pixel_delta_v: Vec3Bits { x: lanes[12], y: lanes[13], z: lanes[14] },
            aspect_ratio: lanes[15],
            defocus_disk_u: Vec3Bits { x: lanes[16], y: lanes[17], z: lanes[18] },
            _padding0: lanes[19],
            viewport_u: Vec3Bits { x: lanes[20], y: lanes[21], z: lanes[22] },
            _padding1: lanes[23],
            defocus_disk_v: Vec3Bits { x: lanes[24], y: lanes[25], z: lanes[26] },
            max_depth: lanes[27],
            look_from: Vec3Bits { x: lanes[28], y: lanes[29], z: lanes[30] },
            samples_per_pixel: lanes[31],
            look_at: Vec3Bits { x: lanes[32], y: lanes[33], z: lanes[34] },
            camera_has_moved: lanes[35],
            vup: Vec3Bits { x: lanes[36], y: lanes[37], z: lanes[38] },
            random_seed: lanes[39],
            viewport_v: Vec3Bits { x: lanes[40], y: lanes[41], z: lanes[42] },
            defocus_radius: lanes[43],
        };
        assert(camera.spec_lanes() =~= lanes@);
        Some(camera)
    }

    /// Returns the bytes of the uniform buffer: the lanes in layout order, in
    /// the byte order of the machine.
    pub fn to_bytes(&self) -> (bytes: Vec<u8>)
        ensures
            is_memory_image(bytes@, self.spec_lanes()),
            bytes@.len() == 4 * CAMERA_LANES,
    {
        let lanes = self.lanes();
        cast_lanes(lanes.as_slice())
    }
}

/// Laying a uniform out as lanes and reading it back gives the same uniform.
pub proof fn lemma_lanes_round_trip(camera: SceneCamera)
    ensures
        SceneCamera::spec_from_lanes(camera.spec_lanes()) == Some(camera),
{
}

/// Reading a uniform from lanes and laying it out again gives the same lanes.
pub proof fn lemma_from_lanes_round_trip(lanes: Seq<u32>)
    requires
        lanes.len() == CAMERA_LANES,
    ensures
        SceneCamera::spec_from_lanes(lanes)->Some_0.spec_lanes() == lanes,
{
    assert(SceneCamera::spec_from_lanes(lanes)->Some_0.spec_lanes() =~= lanes);
}

/// Two uniforms with the same lanes are the same uniform.
pub proof fn lemma_lanes_determine_camera(first: SceneCamera, second: SceneCamera)
    requires
        first.spec_lanes() == second.spec_lanes(),
    ensures
        first == second,
{
    lemma_lanes_round_trip(first);
    lemma_lanes_round_trip(second);
}

} // verus!
