use canvas_gpu::color::Rgb;
use canvas_gpu::geometry::{generate, MeshPoint, VERTICES_PER_POLYGON};

const STRIDE: usize = VERTICES_PER_POLYGON as usize;

#[test]
fn generate_lengths_follow_count() {
    for count in [0u32, 1, 2, 5, 31] {
        let mesh = generate(count);
        let n = count as usize * STRIDE;
        assert_eq!(mesh.positions.len(), n);
        assert_eq!(mesh.colors.len(), n);
        assert_eq!(mesh.instance_indices.len(), n);
        assert_eq!(mesh.side_counts.len(), n);
        assert_eq!(mesh.vertex_count(), n);
    }
}

#[test]
fn generate_zero_is_empty() {
    let mesh = generate(0);
    assert!(mesh.positions.is_empty());
    assert!(mesh.colors.is_empty());
    assert!(mesh.instance_indices.is_empty());
    assert!(mesh.side_counts.is_empty());
}

#[test]
fn every_polygon_starts_at_center() {
    let mesh = generate(12);
    for i in 0..12 {
        assert_eq!(mesh.positions[i * STRIDE], MeshPoint::Center);
    }
}

#[test]
fn side_counts_start_at_three() {
    let one = generate(1);
    assert_eq!(one.side_counts[0], 3);
    let five = generate(5);
    assert_eq!(five.side_counts[4 * STRIDE], 7);
    assert!(five.side_counts[4 * STRIDE..5 * STRIDE].iter().all(|&s| s == 7));
    assert!(five.instance_indices[4 * STRIDE..5 * STRIDE].iter().all(|&i| i == 4));
}

#[test]
fn triangle_fan_layout() {
    let mesh = generate(1);
    let rim = |step: u32| MeshPoint::Rim { step, divisions: 3 };
    assert_eq!(mesh.positions[1], rim(0));
    assert_eq!(mesh.positions[2], rim(1));
    assert_eq!(mesh.positions[3], rim(2));
    assert_eq!(mesh.positions[4], rim(0));
    for slot in 5..STRIDE {
        assert_eq!(mesh.positions[slot], rim(0));
    }
}

#[test]
fn large_polygons_are_capped_at_thirty_divisions() {
    let mesh = generate(31);
    let base = 30 * STRIDE;
    assert_eq!(mesh.side_counts[base], 33);
    for slot in 1..=30 {
        assert_eq!(
            mesh.positions[base + slot],
            MeshPoint::Rim { step: slot as u32 - 1, divisions: 30 }
        );
    }
    assert_eq!(mesh.positions[base + 31], MeshPoint::Rim { step: 0, divisions: 30 });
}

#[test]
fn first_polygon_color_is_rainbow_red() {
    let mesh = generate(1);
    let c = mesh.colors[0];
    assert_eq!(c.rgb, Rgb { red: 288, green: 72, blue: 72, den: 300 });
    assert_eq!((c.alpha.num, c.alpha.den), (1, 1));
    assert!(mesh.colors.iter().all(|&k| k == c));
}

#[test]
fn polygon_colors_follow_hue() {
    // hue 1/3 of the way round: green at 0.96, red and blue at 0.24
    let mesh = generate(3);
    let c = mesh.colors[STRIDE].rgb;
    assert_eq!(c.den, 900);
    assert_eq!((c.red, c.green, c.blue), (216, 864, 216));
    let f = |x: i128| x as f64 / c.den as f64;
    assert!((f(c.green) - 0.96).abs() < 1e-9);
}
