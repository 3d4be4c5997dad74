//! Tests of the render context: the command streams that registration and
//! each frame tick produce.

use webgl_render::convert::{Mat4, unflatten};
use webgl_render::mesh::{Cube, Drawable, WebGlTriangles};
use webgl_render::webgl::{RenderContext, RenderMode, RenderOp};

fn unit_cube_drawable() -> Drawable {
    Drawable::Cube(Cube::new(
        (-0.5f32).to_bits(),
        (-0.5f32).to_bits(),
        (-0.5f32).to_bits(),
        0.5f32.to_bits(),
        0.5f32.to_bits(),
        0.5f32.to_bits(),
        Mat4::identity(),
    ))
}

fn scaled_transform(factor: f32) -> Mat4 {
    let mut flat = vec![0.0f32.to_bits(); 16];
    for d in 0..4 {
        flat[4 * d + d] = factor.to_bits();
    }
    unflatten(&flat)
}

fn is_draw(op: &RenderOp) -> bool {
    matches!(op, RenderOp::DrawTriangles(_) | RenderOp::DrawLineLoop(_))
}

#[test]
fn new_context_uploads_viewport_and_projection_once() {
    let (ctx, ops) = RenderContext::new(600, 400, Mat4::identity());
    assert_eq!(ctx.object_count(), 0);
    assert_eq!(ctx.render_mode(), RenderMode::WIREFRAME);
    assert_eq!(ops.len(), 2);
    assert_eq!(ops[0], RenderOp::UploadViewport(600, 400));
    match &ops[1] {
        RenderOp::UploadProjection(m) => {
            assert_eq!(m.len(), 16);
            assert_eq!(m[0], 1.0f32.to_bits());
        }
        other => panic!("expected a projection upload, got {:?}", other),
    }
}

#[test]
fn first_frame_order_is_upload_then_clear_then_draw() {
    // One object into an empty context, then one tick: registration does
    // one geometry upload and one transform upload; the tick clears, re-
    // uploads the transform, and draws only after both.
    let (mut ctx, _) = RenderContext::new(600, 400, Mat4::identity());
    let add_ops = ctx.add_object(unit_cube_drawable());
    assert_eq!(add_ops.len(), 2);
    assert!(matches!(add_ops[0], RenderOp::UploadGeometry(_, _)));
    assert!(matches!(add_ops[1], RenderOp::UploadModelTransform(_)));

    let ops = ctx.tick();
    assert_eq!(ops[0], RenderOp::Clear);
    assert!(matches!(ops[1], RenderOp::UploadModelTransform(_)));
    let clears = ops.iter().filter(|op| **op == RenderOp::Clear).count();
    assert_eq!(clears, 1);
    for (i, op) in ops.iter().enumerate() {
        if is_draw(op) {
            assert!(i >= 2);
        }
    }
}

#[test]
fn wireframe_tick_issues_one_line_loop_per_triple() {
    let (mut ctx, _) = RenderContext::new(600, 400, Mat4::identity());
    ctx.add_object(unit_cube_drawable());
    let ops = ctx.tick();
    // Clear, one transform upload, then 36 / 3 line loops.
    assert_eq!(ops.len(), 14);
    let loops: Vec<usize> = ops
        .iter()
        .filter_map(|op| match op {
            RenderOp::DrawLineLoop(start) => Some(*start),
            _ => None,
        })
        .collect();
    assert_eq!(loops.len(), 12);
    for (t, start) in loops.iter().enumerate() {
        assert_eq!(*start, 3 * t);
    }
    assert!(!ops.iter().any(|op| matches!(op, RenderOp::DrawTriangles(_))));
}

#[test]
fn shaded_tick_issues_one_draw_over_the_whole_index_buffer() {
    let (mut ctx, _) = RenderContext::new(600, 400, Mat4::identity());
    ctx.set_render_mode(RenderMode::SHADE);
    ctx.add_object(unit_cube_drawable());
    let ops = ctx.tick();
    assert_eq!(ops.len(), 3);
    assert_eq!(ops[0], RenderOp::Clear);
    assert!(matches!(ops[1], RenderOp::UploadModelTransform(_)));
    assert_eq!(ops[2], RenderOp::DrawTriangles(36));
}

#[test]
fn tick_uploads_one_transform_per_object_in_registration_order() {
    let (mut ctx, _) = RenderContext::new(600, 400, Mat4::identity());
    ctx.set_render_mode(RenderMode::SHADE);
    for factor in [2.0f32, 3.0, 4.0] {
        let mut d = unit_cube_drawable();
        d.set_model_view(scaled_transform(factor));
        ctx.add_object(d);
    }
    let ops = ctx.tick();
    let uploads: Vec<&Vec<u32>> = ops
        .iter()
        .filter_map(|op| match op {
            RenderOp::UploadModelTransform(m) => Some(m),
            _ => None,
        })
        .collect();
    assert_eq!(uploads.len(), 3);
    for (i, factor) in [2.0f32, 3.0, 4.0].iter().enumerate() {
        assert_eq!(uploads[i][0], factor.to_bits());
    }
    let draws = ops.iter().filter(|op| is_draw(op)).count();
    assert_eq!(draws, 3);
}

#[test]
fn wireframe_tick_groups_draws_per_object() {
    let (mut ctx, _) = RenderContext::new(600, 400, Mat4::identity());
    ctx.add_object(unit_cube_drawable());
    ctx.add_object(unit_cube_drawable());
    let ops = ctx.tick();
    // Clear, then twice: one upload followed by 12 line loops.
    assert_eq!(ops.len(), 1 + 2 * 13);
    let loops = ops
        .iter()
        .filter(|op| matches!(op, RenderOp::DrawLineLoop(_)))
        .count();
    assert_eq!(loops, 24);
    assert!(matches!(ops[1], RenderOp::UploadModelTransform(_)));
    assert!(matches!(ops[14], RenderOp::UploadModelTransform(_)));
}

#[test]
fn set_model_view_feeds_the_next_frame() {
    // The frame driver ties animation to time by replacing transforms
    // between ticks; the next tick re-uploads the replaced transform.
    let (mut ctx, _) = RenderContext::new(600, 400, Mat4::identity());
    ctx.set_render_mode(RenderMode::SHADE);
    ctx.add_object(unit_cube_drawable());
    ctx.set_model_view(0, scaled_transform(5.0));
    let ops = ctx.tick();
    match &ops[1] {
        RenderOp::UploadModelTransform(m) => assert_eq!(m[0], 5.0f32.to_bits()),
        other => panic!("expected a transform upload, got {:?}", other),
    }
}

#[test]
fn remove_object_shrinks_the_next_frame() {
    let (mut ctx, _) = RenderContext::new(600, 400, Mat4::identity());
    ctx.set_render_mode(RenderMode::SHADE);
    ctx.add_object(unit_cube_drawable());
    ctx.add_object(unit_cube_drawable());
    assert_eq!(ctx.object_count(), 2);
    ctx.remove_object(0);
    assert_eq!(ctx.object_count(), 1);
    let draws = ctx.tick().iter().filter(|op| is_draw(op)).count();
    assert_eq!(draws, 1);
}

#[test]
fn empty_context_tick_only_clears() {
    let (ctx, _) = RenderContext::new(600, 400, Mat4::identity());
    let ops = ctx.tick();
    assert_eq!(ops, vec![RenderOp::Clear]);
}
