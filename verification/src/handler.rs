//! The render-loop state machine: it owns the one-time-initialization flag,
//! plans the GL work of every frame as a fixed sequence of actions, and
//! decides the reaction to each input event.

use vstd::prelude::*;

verus! {

/// One step of GL work, planned by the handler and carried out by the
/// window/GL glue that owns the live context.
#[derive(Clone, Copy, PartialEq, Eq, Structural, Debug)]
pub enum GlAction {
    /// Make the window's GL context current on the calling thread.
    MakeContextCurrent,
    /// Create the shader program object.
    CreateProgram,
    /// Compile the vertex shader from its fixed source and attach it.
    CompileVertexShader,
    /// Compile the fragment shader from its fixed source and attach it.
    CompileFragmentShader,
    /// Link the program; a failure is fatal, as is a compile failure.
    LinkProgram,
    /// Detach and delete both shader objects once the program is linked.
    DetachAndDeleteShaders,
    /// Allocate the vertex array and its buffer and upload the triangle.
    CreateVertexArray,
    /// Bind the vertex array for drawing.
    BindVertexArray,
    /// Set the clear colour, given in tenths (2 stands for 0.2).
    SetClearColor { red_tenths: u8, green_tenths: u8, blue_tenths: u8, alpha_tenths: u8 },
    /// Clear the colour buffer.
    ClearColorBuffer,
    /// Bind the shader program for drawing.
    UseProgram,
    /// Issue the draw call: a triangle list starting at `first` with
    /// `vertex_count` vertices.
    DrawTriangles { first: u32, vertex_count: u32 },
    /// Present the finished frame.
    SwapBuffers,
}

/// The one-time setup planned on the first frame: context activation, the
/// create-compile-link-cleanup sequence for the program, then the vertex
/// array with the uploaded triangle.
pub open spec fn spec_setup_actions() -> Seq<GlAction> {
    seq![
        GlAction::MakeContextCurrent,
        GlAction::CreateProgram,
        GlAction::CompileVertexShader,
        GlAction::CompileFragmentShader,
        GlAction::LinkProgram,
        GlAction::DetachAndDeleteShaders,
        GlAction::CreateVertexArray,
        GlAction::BindVertexArray,
    ]
}

/// The work of every frame: clear to the fixed background colour, bind
/// program and vertex array, draw the three triangle vertices.
pub open spec fn spec_draw_actions() -> Seq<GlAction> {
    seq![
        GlAction::SetClearColor { red_tenths: 2, green_tenths: 3, blue_tenths: 3, alpha_tenths: 10 },
        GlAction::ClearColorBuffer,
        GlAction::UseProgram,
        GlAction::BindVertexArray,
        GlAction::DrawTriangles { first: 0, vertex_count: 3 },
    ]
}

/// The end of every frame: reactivate the context and swap buffers.
pub open spec fn spec_present_actions() -> Seq<GlAction> {
    seq![GlAction::MakeContextCurrent, GlAction::SwapBuffers]
}

/// The whole plan of one frame callback, depending on whether the one-time
/// setup has already run.
pub open spec fn spec_frame_actions(initialized: bool) -> Seq<GlAction> {
    if initialized {
        spec_draw_actions() + spec_present_actions()
    } else {
        spec_setup_actions() + spec_draw_actions() + spec_present_actions()
    }
}

/// Law: the shader-compilation actions are planned on the first frame and on
/// no later one; once the handler is initialized a frame plans drawing and
/// presentation only.
pub proof fn lemma_setup_planned_exactly_once()
    ensures
        spec_frame_actions(false).contains(GlAction::CompileVertexShader),
        spec_frame_actions(false).contains(GlAction::CompileFragmentShader),
        forall|i: int|
            0 <= i < spec_frame_actions(true).len() ==> !(#[trigger] spec_frame_actions(
                true,
            )[i] is CompileVertexShader) && !(spec_frame_actions(
                true,
            )[i] is CompileFragmentShader),
{
    assert(spec_frame_actions(false)[2] == GlAction::CompileVertexShader);
    assert(spec_frame_actions(false)[3] == GlAction::CompileFragmentShader);
    assert forall|i: int| 0 <= i < spec_frame_actions(true).len() implies !(
    #[trigger] spec_frame_actions(true)[i] is CompileVertexShader) && !(spec_frame_actions(
        true,
    )[i] is CompileFragmentShader) by {
        let plan = spec_frame_actions(true);
        assert(plan.len() == 7);
        if i < 5 {
            assert(plan[i] == spec_draw_actions()[i]);
        } else {
            assert(plan[i] == spec_present_actions()[i - 5]);
        }
    }
}

/// The position of the one draw call in a frame's plan.
pub open spec fn spec_draw_position(initialized: bool) -> int {
    if initialized {
        4
    } else {
        12
    }
}

/// Law: every frame, first or later, plans exactly one draw call, and it
/// draws the triangle's three vertices as a triangle list starting at the
/// first vertex.
pub proof fn lemma_one_draw_call_per_frame(initialized: bool)
    ensures
        spec_frame_actions(initialized)[spec_draw_position(initialized)] == (GlAction::DrawTriangles {
            first: 0,
            vertex_count: crate::geometry::TRIANGLE_VERTEX_COUNT,
        }),
        forall|i: int|
            0 <= i < spec_frame_actions(initialized).len() ==> ((#[trigger] spec_frame_actions(
                initialized,
            )[i] is DrawTriangles) <==> i == spec_draw_position(initialized)),
{
    let plan = spec_frame_actions(initialized);
    assert forall|i: int| 0 <= i < plan.len() implies ((#[trigger] plan[i] is DrawTriangles) <==> i
        == spec_draw_position(initialized)) by {
        if initialized {
            assert(plan.len() == 7);
            if i < 5 {
                assert(plan[i] == spec_draw_actions()[i]);
            } else {
                assert(plan[i] == spec_present_actions()[i - 5]);
            }
        } else {
            assert(plan.len() == 15);
            if i < 8 {
                assert(plan[i] == spec_setup_actions()[i]);
            } else if i < 13 {
                assert(plan[i] == spec_draw_actions()[i - 8]);
            } else {
                assert(plan[i] == spec_present_actions()[i - 13]);
            }
        }
    }
}

/// The render-loop handler: nothing but the flag that gates the one-time GL
/// setup. The GL object handles themselves live with the unverified glue
/// that owns the context.
pub struct RenderHandler {
    /// False until the first frame callback has planned the setup, then
    /// permanently true.
    pub initialized: bool,
}

impl RenderHandler {
    /// A handler for a freshly opened window: no GL setup has run yet.
    pub fn new() -> (handler: RenderHandler)
        ensures
            !handler.initialized,
    {
        RenderHandler { initialized: false }
    }

    /// One frame callback: plans the one-time setup exactly when it has not
    /// run before, then the draw and present work of every frame, and leaves
    /// the handler initialized for good.
    pub fn on_frame(&mut self) -> (actions: Vec<GlAction>)
        ensures
            final(self).initialized,
            actions@ == spec_frame_actions(old(self).initialized),
    {
        let mut actions: Vec<GlAction> = Vec::new();
        if !self.initialized {
            actions.push(GlAction::MakeContextCurrent);
            actions.push(GlAction::CreateProgram);
            actions.push(GlAction::CompileVertexShader);
            actions.push(GlAction::CompileFragmentShader);
            actions.push(GlAction::LinkProgram);
            actions.push(GlAction::DetachAndDeleteShaders);
            actions.push(GlAction::CreateVertexArray);
            actions.push(GlAction::BindVertexArray);
            self.initialized = true;
        }
        actions.push(
            GlAction::SetClearColor {
                red_tenths: 2,
                green_tenths: 3,
                blue_tenths: 3,
                alpha_tenths: 10,
            },
        );
        actions.push(GlAction::ClearColorBuffer);
        actions.push(GlAction::UseProgram);
        actions.push(GlAction::BindVertexArray);
        actions.push(GlAction::DrawTriangles { first: 0, vertex_count: 3 });
        actions.push(GlAction::MakeContextCurrent);
        actions.push(GlAction::SwapBuffers);
        proof {
            assert(actions@ =~= spec_frame_actions(old(self).initialized));
        }
        actions
    }
}

/// An input event as the handler reads it: only the distinctions the policy
/// acts on are kept.
#[derive(Clone, Copy, PartialEq, Eq, Structural, Debug)]
pub enum InputEvent {
    /// A mouse button went down.
    MouseButtonPressed,
    /// Any other mouse event (movement, release, wheel, ...).
    MouseOther,
    /// A keyboard event.
    Keyboard,
    /// A window event (resize, focus, close request, ...).
    WindowChange,
}

/// The planned reaction to one input event.
pub struct EventPlan {
    /// The line prefix under which the event is logged.
    pub log_prefix: String,
    /// The text to place on the system clipboard, where the platform
    /// supports it; `None` when nothing is to be copied.
    pub clipboard_text: Option<String>,
    /// Whether the event is reported to the windowing library as captured.
    pub captured: bool,
}

/// Decides the reaction to one input event: every event is captured and
/// logged under the prefix of its kind; a mouse-button press, exactly where
/// the platform's clipboard branch is available, additionally copies the
/// fixed test string to the clipboard. No event changes the render state.
pub fn handle_event(event: &InputEvent, clipboard_available: bool) -> (plan: EventPlan)
    ensures
        plan.captured,
        plan.clipboard_text is Some <==> (event is MouseButtonPressed && clipboard_available),
        plan.clipboard_text matches Some(text) ==> text@ == "This is a test!"@,
        (event is MouseButtonPressed || event is MouseOther) ==> plan.log_prefix@
            == "Mouse event: "@,
        event is Keyboard ==> plan.log_prefix@ == "Keyboard event: "@,
        event is WindowChange ==> plan.log_prefix@ == "Window event: "@,
{
    let log_prefix: String = match event {
        InputEvent::MouseButtonPressed => "Mouse event: ".to_owned(),
        InputEvent::MouseOther => "Mouse event: ".to_owned(),
        InputEvent::Keyboard => "Keyboard event: ".to_owned(),
        InputEvent::WindowChange => "Window event: ".to_owned(),
    };
    let clipboard_text: Option<String> = match event {
        InputEvent::MouseButtonPressed => if clipboard_available {
            Some("This is a test!".to_owned())
        } else {
            None
        },
        _ => None,
    };
    EventPlan { log_prefix, clipboard_text, captured: true }
}

} // verus!
