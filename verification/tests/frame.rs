use winctl::controller::{Action, Controller, WindowEvent, WindowState};
use winctl::frame::{redraw_plan, GlCall, TextureDelta, TRIANGLE_VERTICES};

fn is_upload(c: &GlCall) -> bool {
    matches!(c, GlCall::UploadTexture { .. })
}

fn is_free(c: &GlCall) -> bool {
    matches!(c, GlCall::FreeTexture { .. })
}

#[test]
fn redraw_plan_draws_triangle_then_overlay_then_presents_once() {
    let st = WindowState::new(800, 600);
    let plan = redraw_plan(&st, &TextureDelta::empty());
    let draw_pos = plan
        .iter()
        .position(|c| matches!(c, GlCall::DrawTriangles { .. }))
        .unwrap();
    let overlay_pos = plan.iter().position(|c| *c == GlCall::PaintOverlay).unwrap();
    assert_eq!(plan[draw_pos], GlCall::DrawTriangles { vertices: TRIANGLE_VERTICES });
    assert_eq!(plan[draw_pos], GlCall::DrawTriangles { vertices: 3 });
    assert!(draw_pos < overlay_pos);
    assert_eq!(
        plan.iter()
            .filter(|c| matches!(c, GlCall::DrawTriangles { .. }))
            .count(),
        1
    );
    assert_eq!(plan.iter().filter(|c| **c == GlCall::Present).count(), 1);
    assert_eq!(*plan.last().unwrap(), GlCall::Present);
}

#[test]
fn redraw_plan_covers_viewport_and_picked_color() {
    let mut st = WindowState::new(800, 600);
    st.overlay.color.red = 250;
    let plan = redraw_plan(&st, &TextureDelta::empty());
    assert_eq!(plan[0], GlCall::Viewport { width: 800, height: 600 });
    assert!(plan.contains(&GlCall::SetColorUniform { color: st.overlay.color }));
}

#[test]
fn empty_delta_performs_zero_texture_calls() {
    let st = WindowState::new(800, 600);
    let plan = redraw_plan(&st, &TextureDelta::empty());
    assert_eq!(plan.iter().filter(|c| is_upload(c)).count(), 0);
    assert_eq!(plan.iter().filter(|c| is_free(c)).count(), 0);
    assert_eq!(plan.len(), 9);
}

#[test]
fn uploads_come_before_overlay_and_frees_after() {
    let st = WindowState::new(800, 600);
    let delta = TextureDelta { set: vec![10, 11], free: vec![4] };
    let plan = redraw_plan(&st, &delta);
    let overlay_pos = plan.iter().position(|c| *c == GlCall::PaintOverlay).unwrap();
    let present_pos = plan.iter().position(|c| *c == GlCall::Present).unwrap();
    for (i, call) in plan.iter().enumerate() {
        if is_upload(call) {
            assert!(i < overlay_pos);
        }
        if is_free(call) {
            assert!(overlay_pos < i && i < present_pos);
        }
    }
    assert_eq!(plan.iter().filter(|c| is_upload(c)).count(), 2);
    assert_eq!(plan.iter().filter(|c| is_free(c)).count(), 1);
    assert!(plan.contains(&GlCall::UploadTexture { texture: 10 }));
    assert!(plan.contains(&GlCall::UploadTexture { texture: 11 }));
    assert!(plan.contains(&GlCall::FreeTexture { texture: 4 }));
}

#[test]
fn end_to_end_redraw_of_new_window() {
    let mut c = Controller::new();
    c.register_window(1, 800, 600);
    let actions = c.window_event(1, WindowEvent::RedrawRequested);
    assert_eq!(actions, vec![Action::Render]);
    let st = c.window_state(1).unwrap();
    let plan = redraw_plan(&st, &TextureDelta::empty());
    let draw_pos = plan
        .iter()
        .position(|c| matches!(c, GlCall::DrawTriangles { .. }))
        .unwrap();
    let overlay_pos = plan.iter().position(|c| *c == GlCall::PaintOverlay).unwrap();
    assert_eq!(plan[draw_pos], GlCall::DrawTriangles { vertices: 3 });
    assert!(draw_pos < overlay_pos);
    assert_eq!(plan.iter().filter(|c| **c == GlCall::Present).count(), 1);
}
