use wasm_render::engine::{color_at, EngineKind};
use wasm_render::geometry::{ImageSize, Pixel};
use wasm_render::session::{RendererWrapper, SessionError};

fn exported(session: &RendererWrapper) -> Vec<u8> {
    session.export_view().unwrap().bytes().to_vec()
}

#[test]
fn configure_gives_zeroed_buffer_of_exact_length() {
    for &(w, h) in &[(0usize, 0usize), (3, 0), (0, 5), (1, 1), (2, 3), (7, 5)] {
        let mut s = RendererWrapper::new();
        assert_eq!(s.configure(ImageSize(w, h)), Ok(()));
        let view = s.export_view().unwrap();
        assert_eq!(view.len(), 3 * w * h);
        assert!(view.bytes().iter().all(|&b| b == 0));
    }
}

#[test]
fn reconfigure_resets_and_resizes() {
    let mut s = RendererWrapper::new();
    s.configure(ImageSize(3, 3)).unwrap();
    s.render_frame().unwrap();
    s.configure(ImageSize(2, 1)).unwrap();
    assert_eq!(exported(&s), vec![0u8; 6]);
    assert_eq!(s.size(), Some(ImageSize(2, 1)));
}

#[test]
fn configure_refuses_unaddressable_size() {
    let mut s = RendererWrapper::new();
    s.configure(ImageSize(2, 2)).unwrap();
    assert_eq!(s.configure(ImageSize(usize::MAX, 2)), Err(SessionError::Configuration));
    assert_eq!(s.configure(ImageSize(usize::MAX / 2, 1)), Err(SessionError::Configuration));
    assert_eq!(s.size(), Some(ImageSize(2, 2)));
    assert_eq!(exported(&s).len(), 12);
}

#[test]
fn full_frame_render_twice_is_identical() {
    let mut s = RendererWrapper::new();
    s.configure(ImageSize(5, 3)).unwrap();
    s.render_frame().unwrap();
    let first = exported(&s);
    s.render_frame().unwrap();
    let second = exported(&s);
    assert_eq!(first, second);
    assert_ne!(first, vec![0u8; 45]);
}

#[test]
fn sub_rect_render_keeps_outside_bytes() {
    let mut s = RendererWrapper::new();
    s.configure(ImageSize(4, 3)).unwrap();
    s.render_tile(0, 0, 4, 3, &vec![7u8; 36]).unwrap();
    let before = exported(&s);
    s.render(1, 1, 2, 1).unwrap();
    let after = exported(&s);
    for y in 0..3usize {
        for x in 0..4usize {
            let inside = (1..3).contains(&x) && y == 1;
            for c in 0..3usize {
                let k = (y * 4 + x) * 3 + c;
                if !inside {
                    assert_eq!(after[k], before[k]);
                }
            }
        }
    }
    assert_eq!(&after[15..18], &[85, 127, 0]);
    assert_eq!(&after[18..21], &[170, 127, 0]);
}

#[test]
fn render_before_configure_fails() {
    let mut s = RendererWrapper::new();
    assert_eq!(s.render(0, 0, 0, 0), Err(SessionError::NotConfigured));
    assert_eq!(s.render_frame(), Err(SessionError::NotConfigured));
    assert_eq!(s.render_tile(0, 0, 1, 1, &[1, 2, 3]), Err(SessionError::NotConfigured));
    assert!(matches!(s.export_view(), Err(SessionError::NotConfigured)));
    assert_eq!(s.size(), None);
    assert_eq!(s.engine(), None);
}

#[test]
fn render_out_of_bounds_fails_and_keeps_buffer() {
    let mut s = RendererWrapper::new();
    s.configure(ImageSize(3, 2)).unwrap();
    s.render_frame().unwrap();
    let before = exported(&s);
    assert_eq!(s.render(1, 0, 3, 1), Err(SessionError::OutOfBounds));
    assert_eq!(s.render(0, 1, 1, 2), Err(SessionError::OutOfBounds));
    assert_eq!(s.render(usize::MAX, 0, 2, 1), Err(SessionError::OutOfBounds));
    assert_eq!(s.render_tile(2, 0, 2, 1, &[0; 6]), Err(SessionError::OutOfBounds));
    assert_eq!(exported(&s), before);
}

#[test]
fn gradient_two_by_two_full_frame() {
    let mut s = RendererWrapper::new();
    s.configure(ImageSize(2, 2)).unwrap();
    s.render_frame().unwrap();
    assert_eq!(exported(&s), vec![0, 0, 0, 255, 0, 0, 0, 255, 0, 255, 255, 0]);
}

#[test]
fn partial_render_four_by_four() {
    let mut s = RendererWrapper::new();
    s.configure(ImageSize(4, 4)).unwrap();
    s.render(1, 1, 2, 2).unwrap();
    let bytes = exported(&s);
    assert_eq!(bytes.len(), 48);
    let size = ImageSize(4, 4);
    for y in 0..4usize {
        for x in 0..4usize {
            let k = (y * 4 + x) * 3;
            let px = &bytes[k..k + 3];
            if (1..3).contains(&x) && (1..3).contains(&y) {
                let p = color_at(x, y, size);
                assert_eq!(px, &[p.r, p.g, p.b]);
            } else {
                assert_eq!(px, &[0, 0, 0]);
            }
        }
    }
    assert_eq!(&bytes[15..18], &[85, 85, 0]);
    assert_eq!(&bytes[30..33], &[170, 170, 0]);
}

#[test]
fn scene_parse_failure_keeps_previous_session() {
    let mut s = RendererWrapper::new();
    s.configure(ImageSize(2, 1)).unwrap();
    s.render_frame().unwrap();
    let before = exported(&s);
    assert_eq!(s.load_scene(None), Err(SessionError::Configuration));
    assert_eq!(s.size(), Some(ImageSize(2, 1)));
    assert_eq!(s.engine(), Some(EngineKind::Gradient));
    assert_eq!(exported(&s), before);
}

#[test]
fn scene_parse_failure_on_fresh_session_stays_unconfigured() {
    let mut s = RendererWrapper::new();
    assert_eq!(s.load_scene(None), Err(SessionError::Configuration));
    assert_eq!(s.render(0, 0, 0, 0), Err(SessionError::NotConfigured));
}

#[test]
fn load_scene_sets_resolution_and_scene_engine() {
    let mut s = RendererWrapper::new();
    assert_eq!(s.load_scene(Some(ImageSize(3, 2))), Ok(ImageSize(3, 2)));
    assert_eq!(s.engine(), Some(EngineKind::Scene));
    assert_eq!(exported(&s), vec![0u8; 18]);
    assert_eq!(s.render(0, 0, 1, 1), Err(SessionError::Render));
    assert_eq!(s.render_frame(), Err(SessionError::Render));
    assert_eq!(s.load_scene(Some(ImageSize(usize::MAX, usize::MAX))), Err(SessionError::Configuration));
    assert_eq!(s.size(), Some(ImageSize(3, 2)));
}

#[test]
fn render_tile_writes_rect_in_row_major_order() {
    let mut s = RendererWrapper::new();
    s.load_scene(Some(ImageSize(3, 2))).unwrap();
    let tile = [1, 2, 3, 4, 5, 6, 7, 8, 9, 10, 11, 12];
    s.render_tile(1, 0, 2, 2, &tile).unwrap();
    assert_eq!(
        exported(&s),
        vec![0, 0, 0, 1, 2, 3, 4, 5, 6, 0, 0, 0, 7, 8, 9, 10, 11, 12]
    );
    s.render_tile(1, 0, 2, 2, &tile).unwrap();
    assert_eq!(
        exported(&s),
        vec![0, 0, 0, 1, 2, 3, 4, 5, 6, 0, 0, 0, 7, 8, 9, 10, 11, 12]
    );
}

#[test]
fn render_tile_of_wrong_length_fails_without_writing() {
    let mut s = RendererWrapper::new();
    s.load_scene(Some(ImageSize(2, 2))).unwrap();
    assert_eq!(s.render_tile(0, 0, 2, 2, &[9; 11]), Err(SessionError::Render));
    assert_eq!(s.render_tile(0, 0, 1, 1, &[9; 4]), Err(SessionError::Render));
    assert_eq!(exported(&s), vec![0u8; 12]);
}

#[test]
fn empty_rect_render_changes_nothing() {
    let mut s = RendererWrapper::new();
    s.configure(ImageSize(2, 2)).unwrap();
    assert_eq!(s.render(2, 2, 0, 0), Ok(()));
    assert_eq!(exported(&s), vec![0u8; 12]);
}

#[test]
fn gradient_levels() {
    let size = ImageSize(4, 3);
    assert_eq!(color_at(0, 0, size), Pixel { r: 0, g: 0, b: 0 });
    assert_eq!(color_at(1, 1, size), Pixel { r: 85, g: 127, b: 0 });
    assert_eq!(color_at(3, 2, size), Pixel { r: 255, g: 255, b: 0 });
    assert_eq!(color_at(0, 0, ImageSize(1, 1)), Pixel { r: 0, g: 0, b: 0 });
    let wide = ImageSize(usize::MAX / 3, 1);
    assert_eq!(color_at(usize::MAX / 3 - 1, 0, wide).r, 255);
}
