//! The spheres of the scene as the shader reads them.

use vstd::prelude::*;
use crate::camera::{Vec3Bits, ONE_BITS};
use crate::upload::{cast_lanes, is_memory_image};

verus! {

/// Number of sphere slots in the storage buffer. The buffer always has this
/// many, so that its binding never changes size.
pub const MAX_SPHERES: usize = 100;

/// Number of 32-bit lanes in one sphere slot.
pub const SPHERE_LANES: usize = 8;

/// The bit pattern of the float positive infinity; the magnitude of every
/// finite float lies below it, that of every NaN above.
pub const INFINITY_BITS: u32 = 0x7f80_0000;

/// The bit pattern whose only set bit is the sign.
pub const SIGN_BIT: u32 = 0x8000_0000;

/// The bit pattern of the float -2.0, which marks a diffuse material.
pub const DIFFUSE_MARKER: u32 = 0xc000_0000;

/// Four float lanes, each as its bit pattern.
#[derive(Clone, Copy, Debug, PartialEq, Eq, Structural)]
pub struct Vec4Bits {
    pub x: u32,
    pub y: u32,
    pub z: u32,
    pub w: u32,
}

/// A material as the shader reads it: the albedo in the first three lanes and
/// the kind parameter in the fourth.
#[derive(Clone, Copy, Debug, PartialEq, Eq, Structural)]
pub struct GpuMaterial {
    pub color: Vec4Bits,
}

/// A sphere as the shader reads it.
#[derive(Clone, Copy, Debug, PartialEq, Eq, Structural)]
pub struct GpuSphere {
    pub position: Vec3Bits,
    pub radius: u32,
    pub material: GpuMaterial,
}

/// A material as the host thinks of it. Floats are held as bit patterns.
#[derive(Clone, Copy, Debug, PartialEq, Eq, Structural)]
pub enum Material {
    /// Scatters in all directions.
    Diffuse { albedo: Vec3Bits },
    /// Reflects; `fuzz` lies between 0 and 1.
    Metal { albedo: Vec3Bits, fuzz: u32 },
    /// Refracts; `refractive_index` is greater than 1.
    Dielectric { refractive_index: u32 },
}

/// Why a scene was not changed.
#[derive(Clone, Copy, Debug, PartialEq, Eq, Structural)]
pub enum SceneError {
    /// The scene would hold more spheres than the buffer has slots.
    Full,
}

/// The bits of a float without its sign.
pub open spec fn magnitude(bits: u32) -> int {
    bits as int % (SIGN_BIT as int)
}

/// The float is not a number.
pub open spec fn is_nan(bits: u32) -> bool {
    magnitude(bits) > INFINITY_BITS
}

/// The float is less than zero. Negative zero is not.
pub open spec fn is_negative(bits: u32) -> bool {
    bits >= SIGN_BIT && 0 < magnitude(bits) <= INFINITY_BITS
}

/// The float lies between 0 and 1, both included; either zero counts.
pub open spec fn is_unit(bits: u32) -> bool {
    magnitude(bits) == 0 || (bits < SIGN_BIT && magnitude(bits) <= ONE_BITS)
}

/// The float is greater than 1; positive infinity counts.
pub open spec fn exceeds_one(bits: u32) -> bool {
    bits < SIGN_BIT && ONE_BITS < magnitude(bits) <= INFINITY_BITS
}

impl Material {
    /// The parameter fits the kind: a fuzz between 0 and 1, a refractive
    /// index above 1.
    pub open spec fn valid(self) -> bool {
        match self {
            Material::Diffuse { albedo } => true,
            Material::Metal { albedo, fuzz } => is_unit(fuzz),
            Material::Dielectric { refractive_index } => exceeds_one(refractive_index),
        }
    }

    /// The material as the shader reads it. A diffuse material carries the
    /// marker -2.0, a metal its fuzz, a dielectric its refractive index; a
    /// dielectric has no albedo and leaves those lanes zero.
    pub open spec fn spec_encode(self) -> GpuMaterial {
        match self {
            Material::Diffuse { albedo } => GpuMaterial {
                color: Vec4Bits { x: albedo.x, y: albedo.y, z: albedo.z, w: DIFFUSE_MARKER },
            },
            Material::Metal { albedo, fuzz } => GpuMaterial {
                color: Vec4Bits { x: albedo.x, y: albedo.y, z: albedo.z, w: fuzz },
            },
            Material::Dielectric { refractive_index } => GpuMaterial {
                color: Vec4Bits { x: 0, y: 0, z: 0, w: refractive_index },
            },
        }
    }

    /// Packs the material for the shader. Fails exactly when the parameter
    /// does not fit the kind.
    pub fn encode(&self) -> (packed: Option<GpuMaterial>)
        ensures
            packed == (if self.valid() {
                Some(self.spec_encode())
            } else {
                None
            }),
    {
        match *self {
            Material::Diffuse { albedo } => Some(
                GpuMaterial { color: Vec4Bits { x: albedo.x, y: albedo.y, z: albedo.z, w: DIFFUSE_MARKER } },
            ),
            Material::Metal { albedo, fuzz } => {
                let low: u32 = fuzz % SIGN_BIT;
                if low == 0 || (fuzz < SIGN_BIT && low <= ONE_BITS) {
                    Some(GpuMaterial { color: Vec4Bits { x: albedo.x, y: albedo.y, z: albedo.z, w: fuzz } })
                } else {
                    None
                }
            },
            Material::Dielectric { refractive_index } => {
                if ONE_BITS < refractive_index && refractive_index <= INFINITY_BITS {
                    Some(GpuMaterial { color: Vec4Bits { x: 0, y: 0, z: 0, w: refractive_index } })
                } else {
                    None
                }
            },
        }
    }
}

impl GpuMaterial {
    /// The material that the shader sees in these lanes: diffuse where the
    /// kind parameter is negative, metal where it lies between 0 and 1,
    /// dielectric where it is greater than 1, and none where it is no number.
    pub open spec fn spec_decode(self) -> Option<Material> {
        let albedo = Vec3Bits { x: self.color.x, y: self.color.y, z: self.color.z };
        let parameter = self.color.w;
        if is_negative(parameter) {
            Some(Material::Diffuse { albedo })
        } else if is_unit(parameter) {
            Some(Material::Metal { albedo, fuzz: parameter })
        } else if exceeds_one(parameter) {
            Some(Material::Dielectric { refractive_index: parameter })
        } else {
            None
        }
    }

    /// Reads the kind of material and its parameter out of the lanes.
    pub fn decode(&self) -> (material: Option<Material>)
        ensures
            material == self.spec_decode(),
            material is None <==> is_nan(self.color.w),
            material matches Some(m) ==> m.valid(),
    {
        let albedo = Vec3Bits { x: self.color.x, y: self.color.y, z: self.color.z };
        let parameter: u32 = self.color.w;
        let low: u32 = parameter % SIGN_BIT;
        if low > INFINITY_BITS {
            None
        } else if low == 0 {
            Some(Material::Metal { albedo, fuzz: parameter })
        } else if parameter >= SIGN_BIT {
            Some(Material::Diffuse { albedo })
        } else if low <= ONE_BITS {
            Some(Material::Metal { albedo, fuzz: parameter })
        } else {
            Some(Material::Dielectric { refractive_index: parameter })
        }
    }
}

impl GpuSphere {
    /// The sphere of an unused slot: every lane zero.
    pub open spec fn spec_zero() -> GpuSphere {
        GpuSphere {
            position: Vec3Bits { x: 0, y: 0, z: 0 },
            radius: 0,
            material: GpuMaterial { color: Vec4Bits { x: 0, y: 0, z: 0, w: 0 } },
        }
    }

    /// Lane `index` of the slot: the position, the radius, then the color.
    pub open spec fn spec_lane(self, index: int) -> u32 {
        if index == 0 {
            self.position.x
        } else if index == 1 {
            self.position.y
        } else if index == 2 {
            self.position.z
        } else if index == 3 {
            self.radius
        } else if index == 4 {
            self.material.color.x
        } else if index == 5 {
            self.material.color.y
        } else if index == 6 {
            self.material.color.z
        } else {
            self.material.color.w
        }
    }

    /// Returns the sphere of an unused slot.
    pub fn zero() -> (sphere: GpuSphere)
        ensures
            sphere == Self::spec_zero(),
    {
        GpuSphere {
            position: Vec3Bits { x: 0, y: 0, z: 0 },
            radius: 0,
            material: GpuMaterial { color: Vec4Bits { x: 0, y: 0, z: 0, w: 0 } },
        }
    }
}

/// Every bit pattern is exactly one of: no number, negative, between 0 and 1,
/// greater than 1.
pub proof fn lemma_kinds_partition(bits: u32)
    ensures
        is_nan(bits) || is_negative(bits) || is_unit(bits) || exceeds_one(bits),
        !(is_nan(bits) && is_negative(bits)),
        !(is_nan(bits) && is_unit(bits)),
        !(is_nan(bits) && exceeds_one(bits)),
        !(is_negative(bits) && is_unit(bits)),
        !(is_negative(bits) && exceeds_one(bits)),
        !(is_unit(bits) && exceeds_one(bits)),
{
}

/// Packing a valid material and reading it back gives the same material.
pub proof fn lemma_encode_round_trip(material: Material)
    requires
        material.valid(),
    ensures
        material.spec_encode().spec_decode() == Some(material),
{
}

/// The slots of the storage buffer for the active spheres `active`: the
/// active ones first, then zero spheres up to the capacity.
pub open spec fn spec_slots(active: Seq<GpuSphere>) -> Seq<GpuSphere> {
    Seq::new(
        MAX_SPHERES as nat,
        |i: int|
            if i < active.len() {
                active[i]
            } else {
                GpuSphere::spec_zero()
            },
    )
}

/// The lanes of a run of slots: eight for each slot, in order.
pub open spec fn spec_sphere_lanes(slots: Seq<GpuSphere>) -> Seq<u32> {
    Seq::new((SPHERE_LANES * slots.len()) as nat, |k: int| slots[k / 8].spec_lane(k % 8))
}

/// The spheres of the scene: at most as many as the buffer has slots.
#[derive(Debug)]
pub struct SphereCollection {
    spheres: Vec<GpuSphere>,
}

impl SphereCollection {
    #[verifier::type_invariant]
    spec fn inv(self) -> bool {
        self.spheres@.len() <= MAX_SPHERES
    }

    /// The active spheres in order.
    pub closed spec fn view(&self) -> Seq<GpuSphere> {
        self.spheres@
    }

    /// A scene without spheres.
    pub fn new() -> (scene: SphereCollection)
        ensures
            scene@ == Seq::<GpuSphere>::empty(),
    {
        SphereCollection { spheres: Vec::new() }
    }

    /// Returns the number of active spheres, which never exceeds the
    /// capacity.
    pub fn count(&self) -> (count: u32)
        ensures
            count == self@.len(),
            count <= MAX_SPHERES,
    {
        proof {
            use_type_invariant(self);
        }
        self.spheres.len() as u32
    }

    /// Adds a sphere behind the active ones. Fails, changing nothing, exactly
    /// when every slot is taken.
    pub fn push(&mut self, sphere: GpuSphere) -> (added: Result<(), SceneError>)
        ensures
            old(self)@.len() < MAX_SPHERES ==> added == Ok::<(), SceneError>(()) && final(self)@ == old(self)@.push(
                sphere,
            ),
            old(self)@.len() >= MAX_SPHERES ==> added == Err::<(), SceneError>(SceneError::Full) && final(self)@
                == old(self)@,
    {
        proof {
            use_type_invariant(&*self);
        }
        if self.spheres.len() < MAX_SPHERES {
            let mut spheres: Vec<GpuSphere> = Vec::new();
            core::mem::swap(&mut self.spheres, &mut spheres);
            spheres.push(sphere);
            core::mem::swap(&mut self.spheres, &mut spheres);
            Ok(())
        } else {
            Err(SceneError::Full)
        }
    }

    /// Replaces the active spheres by `spheres`. Fails, changing nothing,
    /// exactly when there are more of them than slots.
    pub fn replace(&mut self, spheres: &[GpuSphere]) -> (replaced: Result<(), SceneError>)
        ensures
            spheres@.len() <= MAX_SPHERES ==> replaced == Ok::<(), SceneError>(()) && final(self)@ == spheres@,
            spheres@.len() > MAX_SPHERES ==> replaced == Err::<(), SceneError>(SceneError::Full) && final(self)@
                == old(self)@,
    {
        if spheres.len() > MAX_SPHERES {
            return Err(SceneError::Full);
        }
        let mut fresh: Vec<GpuSphere> = Vec::new();
        let mut i: usize = 0;
        while i < spheres.len()
            invariant
                i <= spheres@.len() <= MAX_SPHERES,
                fresh@ == spheres@.take(i as int),
            decreases spheres@.len() - i,
        {
            fresh.push(spheres[i]);
            assert(fresh@ =~= spheres@.take(i + 1));
            i = i + 1;
        }
        assert(fresh@ =~= spheres@);
        self.spheres = fresh;
        Ok(())
    }

    /// Returns the sphere in slot `index` of the buffer: an active sphere, or
    /// the zero sphere behind them. There is none beyond the capacity.
    pub fn slot(&self, index: usize) -> (sphere: Option<GpuSphere>)
        ensures
            index < MAX_SPHERES ==> sphere == Some(spec_slots(self@)[index as int]),
            index >= MAX_SPHERES ==> sphere is None,
    {
        if index >= MAX_SPHERES {
            None
        } else if index < self.spheres.len() {
            Some(self.spheres[index])
        } else {
            Some(GpuSphere::zero())
        }
    }

    /// Lays the whole buffer out as lanes: every slot, used or not.
    pub fn lanes(&self) -> (lanes: Vec<u32>)
        ensures
            lanes@ == spec_sphere_lanes(spec_slots(self@)),
            lanes@.len() == SPHERE_LANES * MAX_SPHERES,
    {
        proof {
            use_type_invariant(self);
        }
        let ghost slots = spec_slots(self@);
        let mut lanes: Vec<u32> = Vec::with_capacity(SPHERE_LANES * MAX_SPHERES);
        let mut i: usize = 0;
        while i < MAX_SPHERES
            invariant
                i <= MAX_SPHERES,
                slots == spec_slots(self@),
                self.spheres@.len() <= MAX_SPHERES,
                lanes@ == spec_sphere_lanes(slots.take(i as int)),
            decreases MAX_SPHERES - i,
        {
            let sphere = if i < self.spheres.len() {
                self.spheres[i]
            } else {
                GpuSphere::zero()
            };
            assert(sphere == slots[i as int]);
            let ghost before = lanes@;
            lanes.push(sphere.position.x);
            lanes.push(sphere.position.y);
            lanes.push(sphere.position.z);
            lanes.push(sphere.radius);
            lanes.push(sphere.material.color.x);
            lanes.push(sphere.material.color.y);
            lanes.push(sphere.material.color.z);
            lanes.push(sphere.material.color.w);
            proof {
                let next = spec_sphere_lanes(slots.take(i + 1));
                assert(lanes@.len() == next.len());
                assert forall|k: int| 0 <= k < next.len() implies lanes@[k] == next[k] by {
                    if k < 8 * i {
                        assert(k / 8 < i);
                        assert(before[k] == slots.take(i as int)[k / 8].spec_lane(k % 8));
                    } else {
                        assert(k / 8 == i);
                        assert(k % 8 == k - 8 * i);
                    }
                }
                assert(lanes@ =~= next);
            }
            i = i + 1;
        }
        assert(slots.take(MAX_SPHERES as int) =~= slots);
        lanes
    }

    /// Returns the bytes of the storage buffer: every slot, used or not, in
    /// the byte order of the machine.
    pub fn storage_bytes(&self) -> (bytes: Vec<u8>)
        ensures
            is_memory_image(bytes@, spec_sphere_lanes(spec_slots(self@))),
            bytes@.len() == 4 * SPHERE_LANES * MAX_SPHERES,
    {
        let lanes = self.lanes();
        cast_lanes(lanes.as_slice())
    }

    /// Returns the bytes of the count uniform: the number of active spheres
    /// as one lane, in the byte order of the machine.
    pub fn count_bytes(&self) -> (bytes: Vec<u8>)
        ensures
            is_memory_image(bytes@, seq![self@.len() as u32]),
            bytes@.len() == 4,
    {
        let mut lanes: Vec<u32> = Vec::with_capacity(1);
        lanes.push(self.count());
        assert(lanes@ =~= seq![self@.len() as u32]);
        cast_lanes(lanes.as_slice())
    }
}

impl Clone for SphereCollection {
    /// A scene with the same active spheres in the same order.
    fn clone(&self) -> (copy: SphereCollection)
        ensures
            copy@ == self@,
    {
        proof {
            use_type_invariant(self);
        }
        let mut spheres: Vec<GpuSphere> = Vec::with_capacity(self.spheres.len());
        let mut i: usize = 0;
        while i < self.spheres.len()
            invariant
                i <= self.spheres@.len() <= MAX_SPHERES,
                spheres@ == self.spheres@.take(i as int),
            decreases self.spheres@.len() - i,
        {
            spheres.push(self.spheres[i]);
            assert(spheres@ =~= self.spheres@.take(i + 1));
            i = i + 1;
        }
        assert(spheres@ =~= self.spheres@);
        SphereCollection { spheres }
    }
}

impl Default for SphereCollection {
    /// A scene without spheres.
    fn default() -> (scene: SphereCollection)
        ensures
            scene@ == Seq::<GpuSphere>::empty(),
    {
        SphereCollection::new()
    }
}

/// A scene without spheres still fills the whole buffer: every slot holds
/// the zero sphere, and every lane is zero.
pub proof fn lemma_empty_scene_is_all_zero()
    ensures
        spec_slots(Seq::<GpuSphere>::empty()).len() == MAX_SPHERES,
        forall|i: int| 0 <= i < MAX_SPHERES ==> #[trigger] spec_slots(Seq::<GpuSphere>::empty())[i] == GpuSphere::spec_zero(),
        spec_sphere_lanes(spec_slots(Seq::<GpuSphere>::empty())).len() == SPHERE_LANES * MAX_SPHERES,
        forall|k: int| 0 <= k < SPHERE_LANES * MAX_SPHERES ==> #[trigger] spec_sphere_lanes(
            spec_slots(Seq::<GpuSphere>::empty()),
        )[k] == 0,
{
    assert forall|k: int| 0 <= k < SPHERE_LANES * MAX_SPHERES implies #[trigger] spec_sphere_lanes(
        spec_slots(Seq::<GpuSphere>::empty()),
    )[k] == 0 by {
        assert(0 <= k / 8 < MAX_SPHERES);
    }
}

/// The buffer has the same size whatever the number of active spheres; the
/// active spheres stand first and in order, and every slot behind them holds
/// the zero sphere.
pub proof fn lemma_slots_layout(active: Seq<GpuSphere>)
    requires
        active.len() <= MAX_SPHERES,
    ensures
        spec_slots(active).len() == MAX_SPHERES,
        spec_slots(active).take(active.len() as int) == active,
        forall|i: int| active.len() <= i < MAX_SPHERES ==> #[trigger] spec_slots(active)[i] == GpuSphere::spec_zero(),
        spec_sphere_lanes(spec_slots(active)).len() == SPHERE_LANES * MAX_SPHERES,
{
    assert(spec_slots(active).take(active.len() as int) =~= active);
}

/// Number of spheres that every default scene holds besides the small ones:
/// the ground and the three large spheres.
pub const FIXED_SPHERES: usize = 4;

/// The ground: a grey diffuse sphere of radius 1000 centred at (0, -1000, 0).
pub open spec fn spec_ground_sphere() -> GpuSphere {
    GpuSphere {
        position: Vec3Bits { x: 0, y: 0xc47a_0000, z: 0 },
        radius: 0x447a_0000,
        material: (Material::Diffuse {
            albedo: Vec3Bits { x: 0x3f00_0000, y: 0x3f00_0000, z: 0x3f00_0000 },
        }).spec_encode(),
    }
}

/// A glass sphere of radius 1 and refractive index 1.5 centred at (0, 1, 0).
pub open spec fn spec_glass_sphere() -> GpuSphere {
    GpuSphere {
        position: Vec3Bits { x: 0, y: ONE_BITS, z: 0 },
        radius: ONE_BITS,
        material: (Material::Dielectric { refractive_index: 0x3fc0_0000 }).spec_encode(),
    }
}

/// A diffuse sphere of radius 1 and albedo (0.4, 0.2, 0.1) centred at
/// (-4, 1, 0).
pub open spec fn spec_matte_sphere() -> GpuSphere {
    GpuSphere {
        position: Vec3Bits { x: 0xc080_0000, y: ONE_BITS, z: 0 },
        radius: ONE_BITS,
        material: (Material::Diffuse {
            albedo: Vec3Bits { x: 0x3ecc_cccd, y: 0x3e4c_cccd, z: 0x3dcc_cccd },
        }).spec_encode(),
    }
}

/// A polished metal sphere of radius 1 and albedo (0.7, 0.6, 0.5) centred at
/// (4, 1, 0).
pub open spec fn spec_metal_sphere() -> GpuSphere {
    GpuSphere {
        position: Vec3Bits { x: 0x4080_0000, y: ONE_BITS, z: 0 },
        radius: ONE_BITS,
        material: (Material::Metal {
            albedo: Vec3Bits { x: 0x3f33_3333, y: 0x3f19_999a, z: 0x3f00_0000 },
            fuzz: 0,
        }).spec_encode(),
    }
}

/// The small spheres that fit beside the fixed ones: all of them, or as many
/// from the front as there are slots left.
pub open spec fn spec_kept(small: Seq<GpuSphere>) -> Seq<GpuSphere> {
    if small.len() <= MAX_SPHERES - FIXED_SPHERES {
        small
    } else {
        small.take(MAX_SPHERES - FIXED_SPHERES)
    }
}

/// The default scene: the ground, the small spheres that fit, then the glass,
/// the matte and the metal sphere.
pub open spec fn spec_default_scene(small: Seq<GpuSphere>) -> Seq<GpuSphere> {
    seq![spec_ground_sphere()] + spec_kept(small) + seq![
        spec_glass_sphere(),
        spec_matte_sphere(),
        spec_metal_sphere(),
    ]
}

/// Builds a sphere from its centre, its radius and its material. Fails
/// exactly when the material's parameter does not fit its kind.
pub fn sphere_with(position: Vec3Bits, radius: u32, material: &Material) -> (sphere: Option<GpuSphere>)
    ensures
        sphere == (if material.valid() {
            Some(GpuSphere { position, radius, material: material.spec_encode() })
        } else {
            None
        }),
{
    match material.encode() {
        Some(packed) => Some(GpuSphere { position, radius, material: packed }),
        None => None,
    }
}

/// Assembles the default scene around the small spheres `small`, which the
/// caller has scattered. The ground comes first and the three large spheres
/// last; small spheres beyond the slots that are left are dropped.
pub fn create_default_spheres(small: &[GpuSphere]) -> (scene: SphereCollection)
    ensures
        scene@ == spec_default_scene(small@),
        scene@.len() == FIXED_SPHERES + spec_kept(small@).len(),
{
    let ground = GpuSphere {
        position: Vec3Bits { x: 0, y: 0xc47a_0000, z: 0 },
        radius: 0x447a_0000,
        material: GpuMaterial {
            color: Vec4Bits { x: 0x3f00_0000, y: 0x3f00_0000, z: 0x3f00_0000, w: DIFFUSE_MARKER },
        },
    };
    let glass = GpuSphere {
        position: Vec3Bits { x: 0, y: ONE_BITS, z: 0 },
        radius: ONE_BITS,
        material: GpuMaterial { color: Vec4Bits { x: 0, y: 0, z: 0, w: 0x3fc0_0000 } },
    };
    let matte = GpuSphere {
        position: Vec3Bits { x: 0xc080_0000, y: ONE_BITS, z: 0 },
        radius: ONE_BITS,
        material: GpuMaterial {
            color: Vec4Bits { x: 0x3ecc_cccd, y: 0x3e4c_cccd, z: 0x3dcc_cccd, w: DIFFUSE_MARKER },
        },
    };
    let metal = GpuSphere {
        position: Vec3Bits { x: 0x4080_0000, y: ONE_BITS, z: 0 },
        radius: ONE_BITS,
        material: GpuMaterial { color: Vec4Bits { x: 0x3f33_3333, y: 0x3f19_999a, z: 0x3f00_0000, w: 0 } },
    };
    let mut scene = SphereCollection::new();
    let _ = scene.push(ground);
    let mut i: usize = 0;
    while i < small.len() && i < MAX_SPHERES - FIXED_SPHERES
        invariant
            i <= small@.len(),
            i <= MAX_SPHERES - FIXED_SPHERES,
            scene@ == seq![ground] + small@.take(i as int),
        decreases small@.len() - i,
    {
        let _ = scene.push(small[i]);
        assert(scene@ =~= seq![ground] + small@.take(i + 1));
        i = i + 1;
    }
    assert(small@.take(i as int) =~= spec_kept(small@));
    let _ = scene.push(glass);
    let _ = scene.push(matte);
    let _ = scene.push(metal);
    assert(scene@ =~= spec_default_scene(small@));
    scene
}

/// The default scene always fits the buffer, and holds the ground and the
/// three large spheres whatever the number of small ones.
pub proof fn lemma_default_scene_fits(small: Seq<GpuSphere>)
    ensures
        FIXED_SPHERES <= spec_default_scene(small).len() <= MAX_SPHERES,
        spec_default_scene(small).first() == spec_ground_sphere(),
        spec_default_scene(small).last() == spec_metal_sphere(),
        spec_ground_sphere().material.spec_decode() is Some,
        spec_glass_sphere().material.spec_decode() == Some(Material::Dielectric { refractive_index: 0x3fc0_0000 }),
{
}

} // verus!
