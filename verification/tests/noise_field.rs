use noise::{NoiseFn, OpenSimplex};
use voxel_core::extents::Extents;
use voxel_core::terrain::{ColorMode, Rgba};
use voxel_core::volume::VoxelVolume;

const UNSET: Rgba = Rgba { r: 0, g: 0, b: 0, a: 0 };

fn to_fixed(value: f64) -> i32 {
    (value * 1_000_000.0).round() as i32
}

fn from_fixed(millionths: i64) -> f64 {
    millionths as f64 / 1_000_000.0
}

fn simplex_volume(seed: u32, extents: Extents) -> VoxelVolume {
    let noise = OpenSimplex::new(seed);
    let height = |x: i64, z: i64| to_fixed(noise.get([from_fixed(x), from_fixed(z)]));
    let color = |x: i64, y: i64, z: i64| {
        to_fixed(noise.get([from_fixed(x), from_fixed(y), from_fixed(z)]))
    };
    VoxelVolume::generate_parallel(extents, ColorMode::NoiseDerived, height, color)
}

#[test]
fn simplex_terrain_is_the_same_for_the_same_seed() {
    let extents = Extents { width: 24, height: 80, depth: 24 };
    let first = simplex_volume(7, extents);
    let second = simplex_volume(7, extents);
    assert_eq!(first.cells(), second.cells());
}

#[test]
fn simplex_terrain_follows_the_height_rule() {
    let extents = Extents { width: 16, height: 90, depth: 16 };
    let volume = simplex_volume(3, extents);
    let noise = OpenSimplex::new(3);
    for z in 0u32..16 {
        for x in 0u32..16 {
            let sample: i32 = to_fixed(noise.get([x as f64 / 100.0, z as f64 / 100.0]));
            for y in 0u32..90 {
                let solid: bool = 2 * sample as i64 + 5_000_000 > y as i64 * 100_000;
                let cell: Rgba = volume.get(x, y, z).unwrap();
                assert_eq!(cell != UNSET, solid);
            }
        }
    }
}

#[test]
fn simplex_terrain_has_channels_within_zero_and_one() {
    let extents = Extents { width: 16, height: 64, depth: 16 };
    let volume = simplex_volume(11, extents);
    let mut solid: usize = 0;
    for cell in volume.cells().iter() {
        if *cell != UNSET {
            solid += 1;
            assert!(0 <= cell.r && cell.r <= 1_000_000);
            assert!(0 <= cell.g && cell.g <= 1_000_000);
            assert!(0 <= cell.b && cell.b <= 1_000_000);
            assert_eq!(cell.a, 1_000_000);
        }
    }
    assert!(solid > 0);
}

#[test]
fn simplex_terrain_is_empty_above_the_surface() {
    let extents = Extents { width: 12, height: 100, depth: 12 };
    let sequential = {
        let noise = OpenSimplex::new(5);
        let height = |x: i64, z: i64| to_fixed(noise.get([from_fixed(x), from_fixed(z)]));
        let color = |x: i64, y: i64, z: i64| {
            to_fixed(noise.get([from_fixed(x), from_fixed(y), from_fixed(z)]))
        };
        VoxelVolume::generate(extents, ColorMode::NoiseDerived, height, color)
    };
    assert_eq!(sequential.cells(), simplex_volume(5, extents).cells());
    for z in 0u32..12 {
        for x in 0u32..12 {
            let mut seen_unset: bool = false;
            for y in 0u32..100 {
                let cell: Rgba = sequential.get(x, y, z).unwrap();
                if seen_unset {
                    assert_eq!(cell, UNSET);
                }
                if cell == UNSET {
                    seen_unset = true;
                }
            }
            // a sample within one leaves everything from 70 up empty
            assert_eq!(sequential.get(x, 99, z), Some(UNSET));
        }
    }
}
