use gpu_ray_tracing::camera::Vec3Bits;
use gpu_ray_tracing::sphere::{
    create_default_spheres, sphere_with, GpuMaterial, GpuSphere, Material, SceneError,
    SphereCollection, Vec4Bits, DIFFUSE_MARKER, FIXED_SPHERES, INFINITY_BITS, MAX_SPHERES,
    SIGN_BIT, SPHERE_LANES,
};

fn bits3(x: f32, y: f32, z: f32) -> Vec3Bits {
    Vec3Bits { x: x.to_bits(), y: y.to_bits(), z: z.to_bits() }
}

fn material(x: f32, y: f32, z: f32, w: f32) -> GpuMaterial {
    GpuMaterial { color: Vec4Bits { x: x.to_bits(), y: y.to_bits(), z: z.to_bits(), w: w.to_bits() } }
}

fn numbered(n: u32) -> GpuSphere {
    GpuSphere {
        position: Vec3Bits { x: 8 * n + 1, y: 8 * n + 2, z: 8 * n + 3 },
        radius: 8 * n + 4,
        material: GpuMaterial { color: Vec4Bits { x: 8 * n + 5, y: 8 * n + 6, z: 8 * n + 7, w: 8 * n + 8 } },
    }
}

#[test]
fn float_constants_match() {
    assert_eq!(DIFFUSE_MARKER, (-2.0f32).to_bits());
    assert_eq!(INFINITY_BITS, f32::INFINITY.to_bits());
    assert_eq!(SIGN_BIT, (-0.0f32).to_bits());
    assert_eq!(MAX_SPHERES, 100);
    assert_eq!(SPHERE_LANES, 8);
    assert_eq!(FIXED_SPHERES, 4);
}

#[test]
fn negative_parameter_is_diffuse() {
    let albedo = bits3(0.4, 0.2, 0.1);
    for w in [-2.0f32, -1.0, -0.5, -1e-30, f32::MIN, f32::NEG_INFINITY, -f32::MIN_POSITIVE / 2.0] {
        assert_eq!(material(0.4, 0.2, 0.1, w).decode(), Some(Material::Diffuse { albedo }));
    }
}

#[test]
fn unit_parameter_is_metal() {
    let albedo = bits3(0.7, 0.6, 0.5);
    for w in [0.0f32, -0.0, 0.25, 0.5, 0.999_999, 1.0, f32::MIN_POSITIVE] {
        assert_eq!(
            material(0.7, 0.6, 0.5, w).decode(),
            Some(Material::Metal { albedo, fuzz: w.to_bits() })
        );
    }
}

#[test]
fn parameter_above_one_is_dielectric() {
    for w in [1.000_000_1f32, 1.5, 2.0, 2.4, f32::MAX, f32::INFINITY] {
        assert_eq!(
            material(0.3, 0.3, 0.3, w).decode(),
            Some(Material::Dielectric { refractive_index: w.to_bits() })
        );
    }
}

#[test]
fn nan_parameter_is_no_material() {
    assert_eq!(material(0.0, 0.0, 0.0, f32::NAN).decode(), None);
    let quiet_negative = GpuMaterial { color: Vec4Bits { x: 0, y: 0, z: 0, w: 0xffc0_0000 } };
    assert_eq!(quiet_negative.decode(), None);
    let signalling = GpuMaterial { color: Vec4Bits { x: 0, y: 0, z: 0, w: 0x7f80_0001 } };
    assert_eq!(signalling.decode(), None);
}

#[test]
fn decode_agrees_with_float_comparison() {
    let samples = [
        0u32, 1, 0x0080_0000, 0x3f7f_ffff, 0x3f80_0000, 0x3f80_0001, 0x7f7f_ffff, 0x7f80_0000,
        0x7f80_0001, 0x7fff_ffff, 0x8000_0000, 0x8000_0001, 0xbf80_0000, 0xff7f_ffff, 0xff80_0000,
        0xff80_0001, 0xffff_ffff, 0x4000_0000, 0x3f00_0000, 0xc000_0000,
    ];
    for bits in samples {
        let w = f32::from_bits(bits);
        let decoded = GpuMaterial { color: Vec4Bits { x: 0, y: 0, z: 0, w: bits } }.decode();
        if w.is_nan() {
            assert_eq!(decoded, None);
        } else if w < 0.0 {
            assert!(matches!(decoded, Some(Material::Diffuse { .. })));
        } else if w <= 1.0 {
            assert!(matches!(decoded, Some(Material::Metal { .. })));
        } else {
            assert!(matches!(decoded, Some(Material::Dielectric { .. })));
        }
    }
}

#[test]
fn encode_diffuse_uses_marker() {
    let packed = Material::Diffuse { albedo: bits3(0.5, 0.5, 0.5) }.encode().unwrap();
    assert_eq!(packed, material(0.5, 0.5, 0.5, -2.0));
}

#[test]
fn encode_metal_carries_fuzz() {
    let packed = Material::Metal { albedo: bits3(0.7, 0.6, 0.5), fuzz: 0.25f32.to_bits() }.encode();
    assert_eq!(packed, Some(material(0.7, 0.6, 0.5, 0.25)));
}

#[test]
fn encode_dielectric_carries_index() {
    let packed = Material::Dielectric { refractive_index: 1.5f32.to_bits() }.encode();
    assert_eq!(packed, Some(material(0.0, 0.0, 0.0, 1.5)));
}

#[test]
fn encode_rejects_parameter_out_of_range() {
    let albedo = bits3(0.1, 0.1, 0.1);
    for fuzz in [1.5f32, -0.5, f32::NAN, f32::INFINITY, 1.000_000_1] {
        assert_eq!(Material::Metal { albedo, fuzz: fuzz.to_bits() }.encode(), None);
    }
    for index in [1.0f32, 0.5, 0.0, -1.5, f32::NAN, -f32::INFINITY] {
        assert_eq!(Material::Dielectric { refractive_index: index.to_bits() }.encode(), None);
    }
}

#[test]
fn encode_then_decode_is_identity() {
    let materials = [
        Material::Diffuse { albedo: bits3(0.4, 0.2, 0.1) },
        Material::Metal { albedo: bits3(0.7, 0.6, 0.5), fuzz: 0.0f32.to_bits() },
        Material::Metal { albedo: bits3(0.7, 0.6, 0.5), fuzz: 1.0f32.to_bits() },
        Material::Metal { albedo: bits3(0.7, 0.6, 0.5), fuzz: (-0.0f32).to_bits() },
        Material::Dielectric { refractive_index: 1.5f32.to_bits() },
        Material::Dielectric { refractive_index: f32::INFINITY.to_bits() },
    ];
    for m in materials {
        assert_eq!(m.encode().unwrap().decode(), Some(m));
    }
}

#[test]
fn sphere_with_packs_material() {
    let sphere = sphere_with(bits3(4.0, 1.0, 0.0), 1.0f32.to_bits(), &Material::Dielectric {
        refractive_index: 1.5f32.to_bits(),
    });
    assert_eq!(
        sphere,
        Some(GpuSphere {
            position: bits3(4.0, 1.0, 0.0),
            radius: 1.0f32.to_bits(),
            material: material(0.0, 0.0, 0.0, 1.5),
        })
    );
    let bad = sphere_with(bits3(0.0, 0.0, 0.0), 1.0f32.to_bits(), &Material::Metal {
        albedo: bits3(0.0, 0.0, 0.0),
        fuzz: 2.0f32.to_bits(),
    });
    assert_eq!(bad, None);
}

#[test]
fn zero_sphere_is_all_zero() {
    let zero = GpuSphere::zero();
    assert_eq!(zero.position, bits3(0.0, 0.0, 0.0));
    assert_eq!(zero.radius, 0);
    assert_eq!(zero.material, material(0.0, 0.0, 0.0, 0.0));
}

#[test]
fn empty_scene_fills_whole_buffer() {
    let scene = SphereCollection::new();
    assert_eq!(scene.count(), 0);
    let lanes = scene.lanes();
    assert_eq!(lanes.len(), 800);
    assert!(lanes.iter().all(|lane| *lane == 0));
    assert_eq!(scene.storage_bytes(), vec![0u8; 3200]);
    assert_eq!(scene.count_bytes(), vec![0u8; 4]);
    assert_eq!(SphereCollection::default().count(), 0);
}

#[test]
fn push_appends_until_full() {
    let mut scene = SphereCollection::new();
    for n in 0..100u32 {
        assert_eq!(scene.push(numbered(n)), Ok(()));
        assert_eq!(scene.count(), n + 1);
    }
    assert_eq!(scene.push(numbered(100)), Err(SceneError::Full));
    assert_eq!(scene.count(), 100);
    assert_eq!(scene.slot(99), Some(numbered(99)));
    assert_eq!(scene.slot(0), Some(numbered(0)));
}

#[test]
fn slot_pads_with_zero_spheres() {
    let mut scene = SphereCollection::new();
    scene.push(numbered(7)).unwrap();
    scene.push(numbered(9)).unwrap();
    assert_eq!(scene.slot(0), Some(numbered(7)));
    assert_eq!(scene.slot(1), Some(numbered(9)));
    assert_eq!(scene.slot(2), Some(GpuSphere::zero()));
    assert_eq!(scene.slot(99), Some(GpuSphere::zero()));
    assert_eq!(scene.slot(100), None);
    assert_eq!(scene.slot(usize::MAX), None);
}

#[test]
fn lanes_hold_eight_per_slot() {
    let mut scene = SphereCollection::new();
    scene.push(numbered(0)).unwrap();
    scene.push(numbered(1)).unwrap();
    let lanes = scene.lanes();
    assert_eq!(lanes.len(), 800);
    let expected: Vec<u32> = (1..=16).collect();
    assert_eq!(&lanes[..16], &expected[..]);
    assert!(lanes[16..].iter().all(|lane| *lane == 0));
}

#[test]
fn storage_bytes_are_memory_image_of_lanes() {
    let mut scene = SphereCollection::new();
    scene.push(numbered(3)).unwrap();
    let bytes = scene.storage_bytes();
    assert_eq!(bytes.len(), 3200);
    let mut expected = Vec::new();
    for lane in scene.lanes() {
        expected.extend_from_slice(&lane.to_ne_bytes());
    }
    assert_eq!(bytes, expected);
}

#[test]
fn count_bytes_hold_active_count() {
    let mut scene = SphereCollection::new();
    for n in 0..37u32 {
        scene.push(numbered(n)).unwrap();
    }
    assert_eq!(scene.count_bytes(), 37u32.to_ne_bytes().to_vec());
}

#[test]
fn replace_swaps_active_set() {
    let mut scene = SphereCollection::new();
    for n in 0..10u32 {
        scene.push(numbered(n)).unwrap();
    }
    let fresh = [numbered(50), numbered(51)];
    assert_eq!(scene.replace(&fresh), Ok(()));
    assert_eq!(scene.count(), 2);
    assert_eq!(scene.slot(0), Some(numbered(50)));
    assert_eq!(scene.slot(1), Some(numbered(51)));
    for index in 2..100 {
        assert_eq!(scene.slot(index), Some(GpuSphere::zero()));
    }
    assert_eq!(scene.replace(&[]), Ok(()));
    assert_eq!(scene.count(), 0);
}

#[test]
fn replace_rejects_too_many() {
    let mut scene = SphereCollection::new();
    scene.push(numbered(1)).unwrap();
    let many: Vec<GpuSphere> = (0..101).map(numbered).collect();
    assert_eq!(scene.replace(&many), Err(SceneError::Full));
    assert_eq!(scene.count(), 1);
    assert_eq!(scene.slot(0), Some(numbered(1)));
    let exact: Vec<GpuSphere> = (0..100).map(numbered).collect();
    assert_eq!(scene.replace(&exact), Ok(()));
    assert_eq!(scene.count(), 100);
}

#[test]
fn default_scene_without_small_spheres() {
    let scene = create_default_spheres(&[]);
    assert_eq!(scene.count(), 4);
    assert_eq!(
        scene.slot(0),
        Some(GpuSphere {
            position: bits3(0.0, -1000.0, 0.0),
            radius: 1000.0f32.to_bits(),
            material: material(0.5, 0.5, 0.5, -2.0),
        })
    );
    assert_eq!(
        scene.slot(1),
        Some(GpuSphere {
            position: bits3(0.0, 1.0, 0.0),
            radius: 1.0f32.to_bits(),
            material: material(0.0, 0.0, 0.0, 1.5),
        })
    );
    assert_eq!(
        scene.slot(2),
        Some(GpuSphere {
            position: bits3(-4.0, 1.0, 0.0),
            radius: 1.0f32.to_bits(),
            material: material(0.4, 0.2, 0.1, -2.0),
        })
    );
    assert_eq!(
        scene.slot(3),
        Some(GpuSphere {
            position: bits3(4.0, 1.0, 0.0),
            radius: 1.0f32.to_bits(),
            material: material(0.7, 0.6, 0.5, 0.0),
        })
    );
    assert_eq!(scene.slot(4), Some(GpuSphere::zero()));
}

#[test]
fn default_scene_keeps_small_spheres_in_order() {
    let small: Vec<GpuSphere> = (0..5).map(numbered).collect();
    let scene = create_default_spheres(&small);
    assert_eq!(scene.count(), 9);
    for n in 0..5u32 {
        assert_eq!(scene.slot(1 + n as usize), Some(numbered(n)));
    }
    assert_eq!(scene.slot(6).unwrap().material, material(0.0, 0.0, 0.0, 1.5));
    assert_eq!(scene.slot(8).unwrap().position, bits3(4.0, 1.0, 0.0));
    assert_eq!(scene.slot(9), Some(GpuSphere::zero()));
}

#[test]
fn default_scene_drops_small_spheres_beyond_capacity() {
    let small: Vec<GpuSphere> = (0..196).map(numbered).collect();
    let scene = create_default_spheres(&small);
    assert_eq!(scene.count(), 100);
    assert_eq!(scene.slot(0).unwrap().radius, 1000.0f32.to_bits());
    assert_eq!(scene.slot(1), Some(numbered(0)));
    assert_eq!(scene.slot(96), Some(numbered(95)));
    assert_eq!(scene.slot(97).unwrap().material, material(0.0, 0.0, 0.0, 1.5));
    assert_eq!(scene.slot(99).unwrap().position, bits3(4.0, 1.0, 0.0));
    assert_eq!(scene.lanes().len(), 800);
}

#[test]
fn default_scene_with_exactly_fitting_small_spheres() {
    let small: Vec<GpuSphere> = (0..96).map(numbered).collect();
    let scene = create_default_spheres(&small);
    assert_eq!(scene.count(), 100);
    assert_eq!(scene.slot(96), Some(numbered(95)));
    let fewer: Vec<GpuSphere> = (0..95).map(numbered).collect();
    assert_eq!(create_default_spheres(&fewer).count(), 99);
}

#[test]
fn default_scene_materials_decode() {
    let scene = create_default_spheres(&[]);
    assert_eq!(
        scene.slot(0).unwrap().material.decode(),
        Some(Material::Diffuse { albedo: bits3(0.5, 0.5, 0.5) })
    );
    assert_eq!(
        scene.slot(1).unwrap().material.decode(),
        Some(Material::Dielectric { refractive_index: 1.5f32.to_bits() })
    );
    assert_eq!(
        scene.slot(3).unwrap().material.decode(),
        Some(Material::Metal { albedo: bits3(0.7, 0.6, 0.5), fuzz: 0 })
    );
}

#[test]
fn clone_keeps_active_spheres() {
    let mut scene = SphereCollection::new();
    scene.push(numbered(4)).unwrap();
    scene.push(numbered(2)).unwrap();
    let copy = scene.clone();
    scene.push(numbered(6)).unwrap();
    assert_eq!(copy.count(), 2);
    assert_eq!(copy.slot(0), Some(numbered(4)));
    assert_eq!(copy.slot(1), Some(numbered(2)));
    assert_eq!(copy.slot(2), Some(GpuSphere::zero()));
    assert_eq!(scene.count(), 3);
}
