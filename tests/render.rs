use render_wasm::canvas::{draw_rect, reset_canvas, scale, translate, DrawOp};
use render_wasm::geometry::{Color, Matrix, Rect, Vector2, FIXED_ONE};
use render_wasm::scene::{render_all, Shape};
use render_wasm::state::{
    create_gpu_state, create_surface, framebuffer_info, init, resize_surface, ColorType,
    PixelFormat, RenderState, SurfaceOrigin, SAMPLE_COUNT, STENCIL_BITS,
};

fn plain_shape(id: u64, left: i32, top: i32, right: i32, bottom: i32) -> Shape {
    Shape {
        id,
        selrect: Rect::new(left, top, right, bottom),
        scale: Vector2 { x: FIXED_ONE, y: FIXED_ONE },
        translation: Vector2 { x: 0, y: 0 },
        skew: Vector2 { x: 0, y: 0 },
    }
}

/// Replays commands on a save stack of matrix lists; returns the final
/// transform, or None where a restore found the stack empty.
fn replay(start: Vec<Matrix>, ops: &[DrawOp]) -> Option<Vec<Matrix>> {
    let mut current = start;
    let mut saved: Vec<Vec<Matrix>> = Vec::new();
    for op in ops {
        match op {
            DrawOp::Save => saved.push(current.clone()),
            DrawOp::Restore => current = saved.pop()?,
            DrawOp::Concat(m) => current.push(*m),
            DrawOp::ResetMatrix => current.clear(),
            DrawOp::DrawRect(_, _) | DrawOp::FlushAndSubmit => {}
        }
    }
    if saved.is_empty() {
        Some(current)
    } else {
        None
    }
}

fn count_submissions(ops: &[DrawOp]) -> usize {
    ops.iter().filter(|op| **op == DrawOp::FlushAndSubmit).count()
}

#[test]
fn init_creates_surface_of_requested_size() {
    let state = init(0, 800, 600).unwrap();
    let surface = state.render_state.surface;
    assert_eq!(surface.width, 800);
    assert_eq!(surface.height, 600);
    assert_eq!(surface.sample_count, SAMPLE_COUNT);
    assert_eq!(surface.stencil_bits, STENCIL_BITS);
    assert_eq!(surface.origin, SurfaceOrigin::BottomLeft);
    assert_eq!(surface.color_type, ColorType::Rgba8888);
    assert_eq!(surface.framebuffer_info.fboid, 0);
    assert_eq!(surface.framebuffer_info.format, PixelFormat::Rgba8);
    assert!(!surface.framebuffer_info.protected);
    assert!(state.shapes.is_empty());
    assert!(state.display_list.is_empty());
}

#[test]
fn init_rejects_negative_framebuffer_binding() {
    assert!(init(-1, 800, 600).is_none());
    assert!(RenderState::new(-7, 10, 10).is_none());
    assert!(create_gpu_state(i32::MIN).is_none());
    assert!(framebuffer_info(-1).is_none());
}

#[test]
fn framebuffer_info_records_binding() {
    let info = framebuffer_info(3).unwrap();
    assert_eq!(info.fboid, 3);
    assert_eq!(info.format, PixelFormat::Rgba8);
    assert!(!info.protected);
    let gpu = create_gpu_state(i32::MAX).unwrap();
    assert_eq!(gpu.framebuffer_info.fboid, i32::MAX as u32);
}

#[test]
fn create_surface_wraps_context_framebuffer() {
    let gpu = create_gpu_state(5).unwrap();
    let target = create_surface(&gpu, 640, 480);
    assert_eq!(target.width, 640);
    assert_eq!(target.height, 480);
    assert_eq!(target.framebuffer_info, gpu.framebuffer_info);
}

#[test]
fn resize_keeps_context_and_sets_dimensions() {
    let mut state = init(2, 800, 600).unwrap();
    let gpu_before = state.render_state.gpu_state;
    resize_surface(&mut state, 400, 300);
    let ops = draw_rect(0, 0, 10, 10, 1, 2, 3);
    assert_eq!(ops.len(), 2);
    assert_eq!(state.render_state.surface.width, 400);
    assert_eq!(state.render_state.surface.height, 300);
    assert_eq!(state.render_state.gpu_state, gpu_before);
    assert_eq!(state.render_state.surface.framebuffer_info.fboid, 2);
}

#[test]
fn resize_keeps_scene() {
    let mut state = init(0, 100, 100).unwrap();
    state.shapes.insert(1, plain_shape(1, 0, 0, 5, 5));
    state.display_list.push(1);
    resize_surface(&mut state, 50, 60);
    assert_eq!(state.shapes.len(), 1);
    assert_eq!(state.display_list, vec![1]);
}

#[test]
fn draw_rect_submits_once() {
    let state = init(0, 800, 600).unwrap();
    let ops = draw_rect(0, 0, 100, 100, 255, 0, 0);
    assert_eq!(state.render_state.surface.origin, SurfaceOrigin::BottomLeft);
    assert_eq!(
        ops,
        vec![
            DrawOp::DrawRect(Rect::new(0, 0, 100, 100), Color { argb: 0xFFFF_0000 }),
            DrawOp::FlushAndSubmit,
        ]
    );
    assert_eq!(count_submissions(&ops), 1);
}

#[test]
fn draw_after_resize_targets_new_surface() {
    let mut state = init(0, 800, 600).unwrap();
    resize_surface(&mut state, 400, 300);
    let ops = draw_rect(10, 20, 30, 40, 0, 0, 255);
    assert_eq!((state.render_state.surface.width, state.render_state.surface.height), (400, 300));
    assert_eq!(ops[0], DrawOp::DrawRect(Rect::new(10, 20, 30, 40), Color { argb: 0xFF00_00FF }));
    assert_eq!(count_submissions(&ops), 1);
}

#[test]
fn color_from_rgb_packs_channels() {
    assert_eq!(Color::from_rgb(0x12, 0x34, 0x56).argb, 0xFF12_3456);
    assert_eq!(Color::from_rgb(0, 0, 0).argb, 0xFF00_0000);
    assert_eq!(Color::red().argb, 0xFFFF_0000);
    assert_eq!(Color::red(), Color::from_rgb(255, 0, 0));
}

#[test]
fn persistent_transform_ops() {
    assert_eq!(
        translate(3 * FIXED_ONE, -FIXED_ONE),
        DrawOp::Concat(Matrix {
            scale_x: FIXED_ONE,
            skew_x: 0,
            trans_x: 3 * FIXED_ONE,
            skew_y: 0,
            scale_y: FIXED_ONE,
            trans_y: -FIXED_ONE,
        })
    );
    assert_eq!(
        scale(2 * FIXED_ONE, FIXED_ONE / 2),
        DrawOp::Concat(Matrix {
            scale_x: 2 * FIXED_ONE,
            skew_x: 0,
            trans_x: 0,
            skew_y: 0,
            scale_y: FIXED_ONE / 2,
            trans_y: 0,
        })
    );
    assert_eq!(reset_canvas(), DrawOp::ResetMatrix);
    let after = replay(Vec::new(), &[translate(1, 1), scale(2, 2), reset_canvas()]).unwrap();
    assert!(after.is_empty());
}

#[test]
fn plain_shape_has_identity_transform() {
    let shape = plain_shape(9, 10, 20, 30, 40);
    assert_eq!(shape.transform(), Matrix::identity());
    let mut state = init(0, 800, 600).unwrap();
    state.shapes.insert(9, shape);
    state.display_list.push(9);
    let ops = render_all(&state);
    assert_eq!(
        ops,
        vec![
            DrawOp::Save,
            DrawOp::Concat(Matrix::identity()),
            DrawOp::DrawRect(Rect::new(10, 20, 30, 40), Color::red()),
            DrawOp::Restore,
        ]
    );
    assert_eq!(Matrix::identity().map_point(30, 40), (30 * 65536, 40 * 65536));
}

#[test]
fn render_all_restores_canvas_transform() {
    let mut state = init(0, 800, 600).unwrap();
    let mut skewed = plain_shape(1, 0, 0, 10, 10);
    skewed.scale = Vector2 { x: 2 * FIXED_ONE, y: 3 * FIXED_ONE };
    skewed.skew = Vector2 { x: FIXED_ONE / 4, y: 7 };
    state.shapes.insert(1, skewed);
    state.shapes.insert(2, plain_shape(2, 5, 5, 6, 6));
    state.display_list = vec![1, 2, 1];
    let ops = render_all(&state);
    assert_eq!(ops.len(), 12);
    let before = vec![Matrix::translate(FIXED_ONE, 0), Matrix::scale(2, 2)];
    assert_eq!(replay(before.clone(), &ops), Some(before));
    assert_eq!(count_submissions(&ops), 0);
}

#[test]
fn render_all_empty_list_does_nothing() {
    let mut state = init(0, 800, 600).unwrap();
    state.shapes.insert(1, plain_shape(1, 0, 0, 1, 1));
    assert!(render_all(&state).is_empty());
}

#[test]
fn render_all_skips_missing_shape() {
    let mut state = init(0, 800, 600).unwrap();
    state.shapes.insert(10, plain_shape(10, 0, 0, 1, 1));
    state.shapes.insert(11, plain_shape(11, 2, 2, 3, 3));
    state.shapes.insert(12, plain_shape(12, 4, 4, 5, 5));
    state.display_list = vec![10, 11, 12];
    state.shapes.remove(&11);
    let ops = render_all(&state);
    let drawn: Vec<Rect> = ops
        .iter()
        .filter_map(|op| match op {
            DrawOp::DrawRect(r, _) => Some(*r),
            _ => None,
        })
        .collect();
    assert_eq!(drawn, vec![Rect::new(0, 0, 1, 1), Rect::new(4, 4, 5, 5)]);
    assert_eq!(ops.len(), 8);
}

#[test]
fn zero_area_shape_still_scoped() {
    let mut state = init(0, 800, 600).unwrap();
    state.shapes.insert(4, plain_shape(4, 7, 7, 7, 7));
    state.display_list = vec![4];
    let ops = render_all(&state);
    assert_eq!(ops.len(), 4);
    assert_eq!(ops[0], DrawOp::Save);
    assert_eq!(ops[3], DrawOp::Restore);
}

#[test]
fn transform_scales_and_translates_before_skew() {
    let shape = Shape {
        id: 1,
        selrect: Rect::new(0, 0, 10, 10),
        scale: Vector2 { x: 2 * FIXED_ONE, y: FIXED_ONE },
        translation: Vector2 { x: 10 * FIXED_ONE, y: 0 },
        skew: Vector2 { x: FIXED_ONE / 2, y: 0 },
    };
    let m = shape.transform();
    assert_eq!(m.map_point(0, 0), (10 * 65536, 0));
    // (0, 2): scale and translate give (10, 2); the skew then adds 0.5 * 2.
    assert_eq!(m.map_point(0, 2), (11 * 65536, 2 * 65536));
    // skewing first and then scaling would give (12, 2).
    assert_ne!(m.map_point(0, 2), (12 * 65536, 2 * 65536));
    assert_eq!(m.map_point(3, 0), (16 * 65536, 0));
}

#[test]
fn map_point_extreme_values() {
    let m = Matrix {
        scale_x: i32::MIN,
        skew_x: i32::MIN,
        trans_x: i32::MIN,
        skew_y: i32::MAX,
        scale_y: i32::MAX,
        trans_y: i32::MAX,
    };
    let (x, y) = m.map_point(i32::MIN, i32::MIN);
    let min = i32::MIN as i128;
    let max = i32::MAX as i128;
    assert_eq!(x, min * min + min * min + min);
    assert_eq!(y, max * min + max * min + max);
}
