use gpu_widgets::app_state::{pending_gpu_slots, PixelTarget};
use gpu_widgets::geometry::{quad_vertices, QuadCorner};

#[test]
fn quad_mesh_is_the_unit_square() {
    let (v, i) = quad_vertices();
    assert_eq!(
        v,
        vec![
            QuadCorner { x: -1, y: -1 },
            QuadCorner { x: 1, y: -1 },
            QuadCorner { x: 1, y: 1 },
            QuadCorner { x: -1, y: 1 },
        ]
    );
    assert_eq!(i, vec![0, 1, 2, 2, 3, 0]);
}

#[test]
fn quad_triangles_are_counter_clockwise() {
    let (v, i) = quad_vertices();
    let mut total = 0i32;
    for t in 0..2 {
        let a = v[i[3 * t] as usize];
        let b = v[i[3 * t + 1] as usize];
        let c = v[i[3 * t + 2] as usize];
        let area2 = (b.x - a.x) as i32 * (c.y - a.y) as i32 - (b.y - a.y) as i32 * (c.x - a.x) as i32;
        assert!(area2 > 0);
        total += area2;
    }
    assert_eq!(total, 8);
}

#[test]
fn new_target_is_one_transparent_pixel() {
    let t = PixelTarget::new();
    assert_eq!(t.size_px, (1, 1));
    assert_eq!(t.pixel_buffer, vec![0, 0, 0, 0]);
}

#[test]
fn fit_resizes_and_reports_size_changes() {
    let mut t = PixelTarget::new();
    t.pixel_buffer[0] = 77;
    assert!(t.fit(3, 2));
    assert_eq!(t.size_px, (3, 2));
    assert_eq!(t.pixel_buffer.len(), 24);
    assert_eq!(t.pixel_buffer[0], 77);
    assert!(t.pixel_buffer[4..].iter().all(|b| *b == 0));
    // same size again: nothing to recreate, nothing changes
    let before = t.pixel_buffer.clone();
    assert!(!t.fit(3, 2));
    assert_eq!(t.pixel_buffer, before);
    // shrinking keeps the front of the buffer
    assert!(t.fit(1, 1));
    assert_eq!(t.pixel_buffer, vec![77, 0, 0, 0]);
}

#[test]
fn fit_to_an_empty_frame() {
    let mut t = PixelTarget::new();
    assert!(t.fit(0, 4));
    assert!(t.pixel_buffer.is_empty());
}

#[test]
fn pending_slots_cover_the_missing_widgets() {
    assert_eq!(pending_gpu_slots(2, 5), vec![2, 3, 4]);
    assert_eq!(pending_gpu_slots(0, 4), vec![0, 1, 2, 3]);
    assert_eq!(pending_gpu_slots(3, 3), Vec::<usize>::new());
    assert_eq!(pending_gpu_slots(5, 2), Vec::<usize>::new());
}
