use triangle_core::handler::{handle_event, EventPlan, GlAction, InputEvent, RenderHandler};

fn setup_actions() -> Vec<GlAction> {
    vec![
        GlAction::MakeContextCurrent,
        GlAction::CreateProgram,
        GlAction::CompileVertexShader,
        GlAction::CompileFragmentShader,
        GlAction::LinkProgram,
        GlAction::DetachAndDeleteShaders,
        GlAction::CreateVertexArray,
        GlAction::BindVertexArray,
    ]
}

fn draw_and_present_actions() -> Vec<GlAction> {
    vec![
        GlAction::SetClearColor { red_tenths: 2, green_tenths: 3, blue_tenths: 3, alpha_tenths: 10 },
        GlAction::ClearColorBuffer,
        GlAction::UseProgram,
        GlAction::BindVertexArray,
        GlAction::DrawTriangles { first: 0, vertex_count: 3 },
        GlAction::MakeContextCurrent,
        GlAction::SwapBuffers,
    ]
}

#[test]
fn first_frame_plans_setup_then_draw() {
    let mut handler = RenderHandler::new();
    assert!(!handler.initialized);
    let actions = handler.on_frame();
    assert!(handler.initialized);
    let mut expected = setup_actions();
    expected.extend(draw_and_present_actions());
    assert_eq!(actions, expected);
}

#[test]
fn later_frames_never_recompile() {
    let mut handler = RenderHandler::new();
    let _ = handler.on_frame();
    for _ in 0..5 {
        let actions = handler.on_frame();
        assert!(handler.initialized);
        assert_eq!(actions, draw_and_present_actions());
        assert!(!actions.contains(&GlAction::CompileVertexShader));
        assert!(!actions.contains(&GlAction::CompileFragmentShader));
        assert!(!actions.contains(&GlAction::CreateProgram));
    }
}

#[test]
fn every_frame_draws_three_vertices_as_triangles() {
    let mut handler = RenderHandler::new();
    for _ in 0..3 {
        let actions = handler.on_frame();
        let draws: Vec<&GlAction> = actions
            .iter()
            .filter(|a| matches!(a, GlAction::DrawTriangles { .. }))
            .collect();
        assert_eq!(draws.len(), 1);
        assert_eq!(*draws[0], GlAction::DrawTriangles { first: 0, vertex_count: 3 });
    }
}

#[test]
fn mouse_press_copies_the_test_string_once() {
    let plan: EventPlan = handle_event(&InputEvent::MouseButtonPressed, true);
    assert!(plan.captured);
    assert_eq!(plan.clipboard_text.as_deref(), Some("This is a test!"));
    assert_eq!(plan.log_prefix, "Mouse event: ");
}

#[test]
fn mouse_press_without_clipboard_branch_copies_nothing() {
    let plan = handle_event(&InputEvent::MouseButtonPressed, false);
    assert!(plan.captured);
    assert!(plan.clipboard_text.is_none());
}

#[test]
fn other_events_are_logged_and_never_touch_the_clipboard() {
    let moved = handle_event(&InputEvent::MouseOther, true);
    assert!(moved.clipboard_text.is_none());
    assert_eq!(moved.log_prefix, "Mouse event: ");

    let key = handle_event(&InputEvent::Keyboard, true);
    assert!(key.captured);
    assert!(key.clipboard_text.is_none());
    assert_eq!(key.log_prefix, "Keyboard event: ");

    let window = handle_event(&InputEvent::WindowChange, true);
    assert!(window.captured);
    assert!(window.clipboard_text.is_none());
    assert_eq!(window.log_prefix, "Window event: ");
}
