use canvas_gpu::geometry::MeshPoint;
use canvas_gpu::renderer::{DrawCall, FramePlan, RenderError, RenderState};

fn ready() -> RenderState {
    RenderState::new(800, 600, 1_000)
}

#[test]
fn new_state_is_idle() {
    let mut s = ready();
    assert_eq!(s.get_element_count(), 0);
    assert!(!s.is_disposed());
    assert!(matches!(s.render(5_000), Ok(FramePlan::Idle)));
}

#[test]
fn dispose_makes_every_call_fail() {
    let mut s = ready();
    s.configure(4).unwrap();
    assert!(s.dispose());
    assert_eq!(s.configure(3), Err(RenderError::Disposed));
    assert!(matches!(s.render(2_000), Err(RenderError::Disposed)));
    assert_eq!(s.resize(10, 10), Err(RenderError::Disposed));
    assert_eq!(s.check_live(), Err(RenderError::Disposed));
    assert!(matches!(s.prepare(2), Err(RenderError::Disposed)));
    assert_eq!(s.get_element_count(), 4);
}

#[test]
fn second_dispose_is_a_no_op() {
    let mut s = ready();
    assert!(s.dispose());
    assert!(!s.dispose());
    assert!(s.is_disposed());
}

#[test]
fn render_with_no_polygons_is_idle() {
    let mut s = ready();
    s.configure(3).unwrap();
    s.configure(0).unwrap();
    assert!(matches!(s.render(9_000), Ok(FramePlan::Idle)));
    // the idle render did not count as a frame
    s.configure(1).unwrap();
    match s.render(10_000) {
        Ok(FramePlan::Draw(f)) => assert_eq!(f.delta_us, 9_000),
        _ => panic!("expected a drawn frame"),
    }
}

#[test]
fn configure_replaces_previous_count() {
    let mut s = ready();
    s.configure(7).unwrap();
    s.configure(2).unwrap();
    assert_eq!(s.get_element_count(), 2);
    match s.render(1_500) {
        Ok(FramePlan::Draw(f)) => assert_eq!(f.draws.len(), 2),
        _ => panic!("expected a drawn frame"),
    }
}

#[test]
fn frame_draws_one_fan_per_polygon() {
    let mut s = ready();
    s.configure(3).unwrap();
    match s.render(3_500) {
        Ok(FramePlan::Draw(f)) => {
            assert_eq!(
                f.draws,
                vec![
                    DrawCall { first: 0, count: 32 },
                    DrawCall { first: 32, count: 32 },
                    DrawCall { first: 64, count: 32 },
                ]
            );
            assert_eq!(f.elapsed_us, 2_500);
            assert_eq!(f.delta_us, 2_500);
            assert_eq!((f.width, f.height, f.element_count), (800, 600, 3));
        }
        _ => panic!("expected a drawn frame"),
    }
    match s.render(4_000) {
        Ok(FramePlan::Draw(f)) => {
            assert_eq!(f.elapsed_us, 3_000);
            assert_eq!(f.delta_us, 500);
        }
        _ => panic!("expected a drawn frame"),
    }
}

#[test]
fn resize_changes_frame_size() {
    let mut s = ready();
    s.resize(1024, 768).unwrap();
    s.configure(1).unwrap();
    match s.render(1_000) {
        Ok(FramePlan::Draw(f)) => {
            assert_eq!((f.width, f.height), (1024, 768));
            assert_eq!(f.delta_us, 0);
        }
        _ => panic!("expected a drawn frame"),
    }
}

#[test]
fn clear_is_allowed_while_ready() {
    assert_eq!(ready().check_live(), Ok(()));
}

#[test]
fn prepare_builds_the_row() {
    let s = ready();
    let mesh = s.prepare(2).unwrap();
    assert_eq!(mesh.positions.len(), 64);
    assert_eq!(mesh.positions[32], MeshPoint::Center);
    assert_eq!(mesh.side_counts[32], 4);
}

#[test]
fn draws_start_at_their_polygon_centers() {
    let mut s = ready();
    let mesh = s.prepare(4).unwrap();
    s.configure(4).unwrap();
    match s.render(2_000) {
        Ok(FramePlan::Draw(f)) => {
            for (k, d) in f.draws.iter().enumerate() {
                let first = d.first as usize;
                assert_eq!(mesh.positions[first], MeshPoint::Center);
                let fan = first..first + d.count as usize;
                assert!(mesh.instance_indices[fan.clone()].iter().all(|&i| i as usize == k));
                assert!(mesh.side_counts[fan].iter().all(|&n| n == 3 + k as u64));
            }
        }
        _ => panic!("expected a drawn frame"),
    }
}
