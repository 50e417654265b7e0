//! One render pass as a state machine.
//!
//! A pass is stateless from call to call: it runs compile, link, upload,
//! clear and draw once, in order, and either completes all steps or aborts at
//! the first failing one.  The machine here owns every decision; the
//! unverified shell only performs each emitted `RenderAction` against the
//! graphics context and feeds the raw outcome back as a `RenderEvent`.  The
//! lemmas at the end pin the abort behavior: a failure at any stage
//! is final, and a draw call is only ever emitted after a successful clear.

use crate::channel::{channel_inverted, CHANNEL_SCALE};
use crate::colors::color_valid;
use crate::config::{config_resolves, first_resolution_fault, resolve_config, RawInputs, RenderConfig};
use crate::errors::RenderError;
use crate::polygons::{RegularPolygon, Vertex, POLYGON_RADIUS};
use crate::shaders::{
    compile_error_matches, fragment_shader_source, fragment_shader_source_spec, link_error_matches,
    program_link_result, shader_compile_result, vertex_shader_source, vertex_shader_source_spec,
    ShaderKind,
};
use vstd::prelude::*;

verus! {

/// Topology selector for the draw call.
#[derive(Clone, Copy, PartialEq, Eq, Structural, Debug)]
pub enum Topology {
    /// Connects vertex 0 to every consecutive pair of later vertices.
    TriangleFan,
    /// Independent triangles, three vertices each.
    TriangleList,
}

/// One draw call: topology, first vertex index, and vertex count.
#[derive(Clone, Copy, PartialEq, Eq, Structural, Debug)]
pub struct DrawCall {
    pub topology: Topology,
    pub first: i32,
    pub count: u32,
}

/// Work the shell performs against the host page and graphics context.
#[derive(Debug)]
pub enum RenderAction {
    /// Look up the render target by its identifier and obtain its graphics
    /// context.
    AcquireContext,
    /// Apply the viewport rectangle to the graphics context.
    SetViewport { x: i32, y: i32, width: i32, height: i32 },
    /// Read the raw contents of the seven input slots.
    FetchInputs,
    /// Create a shader object of the given kind, set this source text, and
    /// compile it.
    CompileShader { kind: ShaderKind, source: String },
    /// Create a program object, attach both compiled shaders, and link.
    LinkProgram,
    /// Activate the linked program, then upload the polygon's vertices in
    /// order as a static buffer of three components each (x, y, 0), bound to
    /// attribute slot 0 with no normalization, stride or offset.
    UploadGeometry { polygon: RegularPolygon },
    /// Set this clear color (micro-units per channel) and clear the color
    /// buffer.
    ClearCanvas { red: i64, green: i64, blue: i64, alpha: i64 },
    /// Issue the draw call.
    Draw(DrawCall),
}

/// The raw outcome of one performed action, as the shell reports it.
#[derive(Debug)]
pub enum RenderEvent {
    /// Whether the render target and its graphics context were acquired.
    ContextAcquired { ok: bool },
    /// The viewport was applied.
    ViewportSet,
    /// The raw input slot contents.
    InputsFetched(RawInputs),
    /// Shader compilation finished: whether the object was allocated, the
    /// compile status flag, and the diagnostic log if any.
    ShaderCompiled { created: bool, status: bool, log: Option<String> },
    /// Linking finished, reported the same way.
    ProgramLinked { created: bool, status: bool, log: Option<String> },
    /// Whether the vertex buffer object was allocated (upload follows it).
    GeometryUploaded { buffer_created: bool },
    /// The color buffer was cleared.
    CanvasCleared,
    /// The draw call was issued.
    DrawIssued,
}

/// Where a render pass stands: which outcome it is waiting for, or how it
/// ended.
#[derive(Debug)]
pub enum RenderState {
    AcquiringContext { width: i32, height: i32 },
    SettingViewport,
    FetchingInputs,
    CompilingVertexShader { config: RenderConfig },
    CompilingFragmentShader { config: RenderConfig },
    LinkingProgram { config: RenderConfig },
    UploadingGeometry { config: RenderConfig },
    ClearingCanvas { config: RenderConfig },
    Drawing { config: RenderConfig },
    Completed,
    Failed { error: RenderError },
}

/// Both colors of the configuration hold channel values textual input can
/// produce.
pub open spec fn config_colors_valid(c: RenderConfig) -> bool {
    color_valid(c.background) && color_valid(c.shape)
}

/// Invariant of every reachable state: a configuration the machine carries
/// came from resolution, so its colors are valid.
pub open spec fn state_inv(s: RenderState) -> bool {
    match s {
        RenderState::CompilingVertexShader { config } => config_colors_valid(config),
        RenderState::CompilingFragmentShader { config } => config_colors_valid(config),
        RenderState::LinkingProgram { config } => config_colors_valid(config),
        RenderState::UploadingGeometry { config } => config_colors_valid(config),
        RenderState::ClearingCanvas { config } => config_colors_valid(config),
        RenderState::Drawing { config } => config_colors_valid(config),
        _ => true,
    }
}

/// The transition relation of a render pass: from state `pre` on `event`,
/// the machine moves to `post` and asks the shell to perform `action`.
/// An event that the state is not waiting for changes nothing.
pub open spec fn step_rel(
    pre: RenderState,
    event: RenderEvent,
    post: RenderState,
    action: Option<RenderAction>,
) -> bool {
    match pre {
        RenderState::AcquiringContext { width, height } => match event {
            RenderEvent::ContextAcquired { ok } => if ok {
                post == RenderState::SettingViewport && action == Some(
                    RenderAction::SetViewport { x: 0, y: 0, width, height },
                )
            } else {
                &&& post matches RenderState::Failed { error }
                &&& error is ContextUnavailable
                &&& action is None
            },
            _ => post == pre && action is None,
        },
        RenderState::SettingViewport => match event {
            RenderEvent::ViewportSet => post == RenderState::FetchingInputs && action == Some(
                RenderAction::FetchInputs,
            ),
            _ => post == pre && action is None,
        },
        RenderState::FetchingInputs => match event {
            RenderEvent::InputsFetched(raw) => if first_resolution_fault(raw) is Some {
                &&& post matches RenderState::Failed { error }
                &&& error matches RenderError::Resolution(fault, field)
                &&& Some((fault, field)) == first_resolution_fault(raw)
                &&& action is None
            } else {
                &&& post matches RenderState::CompilingVertexShader { config }
                &&& config_resolves(raw, config)
                &&& action matches Some(RenderAction::CompileShader { kind, source })
                &&& kind == ShaderKind::Vertex
                &&& source@ == vertex_shader_source_spec()
            },
            _ => post == pre && action is None,
        },
        RenderState::CompilingVertexShader { config } => match event {
            RenderEvent::ShaderCompiled { created, status, log } => if created && status {
                &&& post == RenderState::CompilingFragmentShader { config }
                &&& action matches Some(RenderAction::CompileShader { kind, source })
                &&& kind == ShaderKind::Fragment
                &&& source@ == fragment_shader_source_spec(config.shape)
            } else {
                &&& post matches RenderState::Failed { error }
                &&& compile_error_matches(error, created, status, log)
                &&& action is None
            },
            _ => post == pre && action is None,
        },
        RenderState::CompilingFragmentShader { config } => match event {
            RenderEvent::ShaderCompiled { created, status, log } => if created && status {
                post == RenderState::LinkingProgram { config } && action == Some(
                    RenderAction::LinkProgram,
                )
            } else {
                &&& post matches RenderState::Failed { error }
                &&& compile_error_matches(error, created, status, log)
                &&& action is None
            },
            _ => post == pre && action is None,
        },
        RenderState::LinkingProgram { config } => match event {
            RenderEvent::ProgramLinked { created, status, log } => if created && status {
                post == RenderState::UploadingGeometry { config } && action == Some(
                    RenderAction::UploadGeometry {
                        polygon: RegularPolygon {
                            center: Vertex { x: 0, y: 0 },
                            radius: POLYGON_RADIUS,
                            vertex_count: config.vertex_count,
                        },
                    },
                )
            } else {
                &&& post matches RenderState::Failed { error }
                &&& link_error_matches(error, created, status, log)
                &&& action is None
            },
            _ => post == pre && action is None,
        },
        RenderState::UploadingGeometry { config } => match event {
            RenderEvent::GeometryUploaded { buffer_created } => if buffer_created {
                &&& post == RenderState::ClearingCanvas { config }
                &&& action matches Some(RenderAction::ClearCanvas { red, green, blue, alpha })
                &&& red as int == channel_inverted(config.background.red as int)
                &&& green as int == channel_inverted(config.background.green as int)
                &&& blue as int == channel_inverted(config.background.blue as int)
                &&& alpha == CHANNEL_SCALE
            } else {
                &&& post matches RenderState::Failed { error }
                &&& error is CreateBufferFailed
                &&& action is None
            },
            _ => post == pre && action is None,
        },
        RenderState::ClearingCanvas { config } => match event {
            RenderEvent::CanvasCleared => post == RenderState::Drawing { config } && action
                == Some(
                RenderAction::Draw(
                    DrawCall {
                        topology: Topology::TriangleFan,
                        first: 0,
                        count: config.vertex_count,
                    },
                ),
            ),
            _ => post == pre && action is None,
        },
        RenderState::Drawing { .. } => match event {
            RenderEvent::DrawIssued => post == RenderState::Completed && action is None,
            _ => post == pre && action is None,
        },
        RenderState::Completed => post == pre && action is None,
        RenderState::Failed { .. } => post == pre && action is None,
    }
}

/// Advances the pass by one step: from the current state and the outcome of
/// the last action, the next state and the next action for the shell to
/// perform, exactly as `step_rel` states.
pub fn render_step(pre: RenderState, event: RenderEvent) -> (r: (RenderState, Option<RenderAction>))
    requires
        state_inv(pre),
    ensures
        step_rel(pre, event, r.0, r.1),
        state_inv(r.0),
{
    match pre {
        RenderState::AcquiringContext { width, height } => match event {
            RenderEvent::ContextAcquired { ok } => if ok {
                (
                    RenderState::SettingViewport,
                    Some(RenderAction::SetViewport { x: 0, y: 0, width, height }),
                )
            } else {
                (RenderState::Failed { error: RenderError::ContextUnavailable }, None)
            },
            _ => (RenderState::AcquiringContext { width, height }, None),
        },
        RenderState::SettingViewport => match event {
            RenderEvent::ViewportSet => (
                RenderState::FetchingInputs,
                Some(RenderAction::FetchInputs),
            ),
            _ => (RenderState::SettingViewport, None),
        },
        RenderState::FetchingInputs => match event {
            RenderEvent::InputsFetched(raw) => match resolve_config(&raw) {
                Ok(config) => (
                    RenderState::CompilingVertexShader { config },
                    Some(
                        RenderAction::CompileShader {
                            kind: ShaderKind::Vertex,
                            source: vertex_shader_source(),
                        },
                    ),
                ),
                Err(error) => (RenderState::Failed { error }, None),
            },
            _ => (RenderState::FetchingInputs, None),
        },
        RenderState::CompilingVertexShader { config } => match event {
            RenderEvent::ShaderCompiled { created, status, log } => match shader_compile_result(
                created,
                status,
                log,
            ) {
                Ok(_) => (
                    RenderState::CompilingFragmentShader { config },
                    Some(
                        RenderAction::CompileShader {
                            kind: ShaderKind::Fragment,
                            source: fragment_shader_source(&config.shape),
                        },
                    ),
                ),
                Err(error) => (RenderState::Failed { error }, None),
            },
            _ => (RenderState::CompilingVertexShader { config }, None),
        },
        RenderState::CompilingFragmentShader { config } => match event {
            RenderEvent::ShaderCompiled { created, status, log } => match shader_compile_result(
                created,
                status,
                log,
            ) {
                Ok(_) => (RenderState::LinkingProgram { config }, Some(RenderAction::LinkProgram)),
                Err(error) => (RenderState::Failed { error }, None),
            },
            _ => (RenderState::CompilingFragmentShader { config }, None),
        },
        RenderState::LinkingProgram { config } => match event {
            RenderEvent::ProgramLinked { created, status, log } => match program_link_result(
                created,
                status,
                log,
            ) {
                Ok(_) => (
                    RenderState::UploadingGeometry { config },
                    Some(
                        RenderAction::UploadGeometry {
                            polygon: RegularPolygon {
                                center: Vertex { x: 0, y: 0 },
                                radius: POLYGON_RADIUS,
                                vertex_count: config.vertex_count,
                            },
                        },
                    ),
                ),
                Err(error) => (RenderState::Failed { error }, None),
            },
            _ => (RenderState::LinkingProgram { config }, None),
        },
        RenderState::UploadingGeometry { config } => match event {
            RenderEvent::GeometryUploaded { buffer_created } => if buffer_created {
                let inverted = config.background.inverted();
                (
                    RenderState::ClearingCanvas { config },
                    Some(
                        RenderAction::ClearCanvas {
                            red: inverted.red,
                            green: inverted.green,
                            blue: inverted.blue,
                            alpha: CHANNEL_SCALE,
                        },
                    ),
                )
            } else {
                (RenderState::Failed { error: RenderError::CreateBufferFailed }, None)
            },
            _ => (RenderState::UploadingGeometry { config }, None),
        },
        RenderState::ClearingCanvas { config } => match event {
            RenderEvent::CanvasCleared => (
                RenderState::Drawing { config },
                Some(
                    RenderAction::Draw(
                        DrawCall {
                            topology: Topology::TriangleFan,
                            first: 0,
                            count: config.vertex_count,
                        },
                    ),
                ),
            ),
            _ => (RenderState::ClearingCanvas { config }, None),
        },
        RenderState::Drawing { config } => match event {
            RenderEvent::DrawIssued => (RenderState::Completed, None),
            _ => (RenderState::Drawing { config }, None),
        },
        RenderState::Completed => (RenderState::Completed, None),
        RenderState::Failed { error } => (RenderState::Failed { error }, None),
    }
}

/// The state the machine was in before step `i` of a trace.
pub open spec fn state_before(s0: RenderState, states: Seq<RenderState>, i: int) -> RenderState {
    if i == 0 {
        s0
    } else {
        states[i - 1]
    }
}

/// Whether `states` and `actions` record a run of the machine from `s0` on
/// `events`: each step obeys the transition relation.
pub open spec fn valid_trace(
    s0: RenderState,
    events: Seq<RenderEvent>,
    states: Seq<RenderState>,
    actions: Seq<Option<RenderAction>>,
) -> bool {
    &&& states.len() == events.len()
    &&& actions.len() == events.len()
    &&& forall|i: int|
        0 <= i < events.len() ==> #[trigger] step_rel(
            state_before(s0, states, i),
            events[i],
            states[i],
            actions[i],
        )
}

/// A failed pass stays failed and asks for no further work, whatever event
/// arrives.
pub proof fn lemma_failed_is_absorbing(
    pre: RenderState,
    event: RenderEvent,
    post: RenderState,
    action: Option<RenderAction>,
)
    requires
        step_rel(pre, event, post, action),
        pre is Failed,
    ensures
        post == pre,
        action is None,
{
}

/// A completed pass is over: whatever event arrives, it stays completed and
/// asks for no further work; no state leaks into a later pass.
pub proof fn lemma_completed_is_absorbing(
    pre: RenderState,
    event: RenderEvent,
    post: RenderState,
    action: Option<RenderAction>,
)
    requires
        step_rel(pre, event, post, action),
        pre is Completed,
    ensures
        post == pre,
        action is None,
{
}

/// Once a trace reaches a failed state, every later state is failed and every
/// later step asks for no work.
pub proof fn lemma_failure_halts(
    s0: RenderState,
    events: Seq<RenderEvent>,
    states: Seq<RenderState>,
    actions: Seq<Option<RenderAction>>,
    i: int,
    j: int,
)
    requires
        valid_trace(s0, events, states, actions),
        0 <= i <= j < events.len(),
        states[i] is Failed,
    ensures
        states[j] is Failed,
        i < j ==> actions[j] is None,
    decreases j - i,
{
    if i < j {
        lemma_failure_halts(s0, events, states, actions, i, j - 1);
        assert(step_rel(state_before(s0, states, j), events[j], states[j], actions[j]));
        assert(state_before(s0, states, j) == states[j - 1]);
        lemma_failed_is_absorbing(states[j - 1], events[j], states[j], actions[j]);
    }
}

/// A draw call is only ever emitted from a pass whose canvas was just
/// cleared, and it is a fan over exactly the configured vertex count,
/// starting at vertex zero.
pub proof fn lemma_draw_only_after_clear(
    pre: RenderState,
    event: RenderEvent,
    post: RenderState,
    action: Option<RenderAction>,
    d: DrawCall,
)
    requires
        step_rel(pre, event, post, action),
        action == Some(RenderAction::Draw(d)),
    ensures
        pre matches RenderState::ClearingCanvas { config } && d == (DrawCall {
            topology: Topology::TriangleFan,
            first: 0,
            count: config.vertex_count,
        }),
        event is CanvasCleared,
{
}

/// A failed shader compilation aborts the pass: the reported error carries
/// the diagnostic log or the fixed fallback, and from that step on the pass
/// neither links nor draws.
pub proof fn lemma_compile_failure_aborts(
    s0: RenderState,
    events: Seq<RenderEvent>,
    states: Seq<RenderState>,
    actions: Seq<Option<RenderAction>>,
    i: int,
)
    requires
        valid_trace(s0, events, states, actions),
        0 <= i < events.len(),
        state_before(s0, states, i) matches RenderState::CompilingVertexShader { .. }
            || state_before(s0, states, i) matches RenderState::CompilingFragmentShader { .. },
        events[i] matches RenderEvent::ShaderCompiled { created, status, .. } && !(created
            && status),
    ensures
        states[i] is Failed,
        events[i] matches RenderEvent::ShaderCompiled { created, status, log } ==> states[i]
            matches RenderState::Failed { error } && compile_error_matches(
            error,
            created,
            status,
            log,
        ),
        forall|j: int|
            i <= j < events.len() ==> !(#[trigger] actions[j] matches Some(RenderAction::Draw(_)))
                && !(actions[j] matches Some(RenderAction::LinkProgram)),
{
    assert(step_rel(state_before(s0, states, i), events[i], states[i], actions[i]));
    assert forall|j: int| i <= j < events.len() implies !(#[trigger] actions[j] matches Some(
        RenderAction::Draw(_),
    )) && !(actions[j] matches Some(RenderAction::LinkProgram)) by {
        if j > i {
            lemma_failure_halts(s0, events, states, actions, i, j);
        }
    }
}

/// A failed link aborts the pass: the reported error carries the diagnostic
/// log or the fixed fallback, and from that step on the pass never draws.
pub proof fn lemma_link_failure_aborts(
    s0: RenderState,
    events: Seq<RenderEvent>,
    states: Seq<RenderState>,
    actions: Seq<Option<RenderAction>>,
    i: int,
)
    requires
        valid_trace(s0, events, states, actions),
        0 <= i < events.len(),
        state_before(s0, states, i) matches RenderState::LinkingProgram { .. },
        events[i] matches RenderEvent::ProgramLinked { created, status, .. } && !(created
            && status),
    ensures
        states[i] is Failed,
        events[i] matches RenderEvent::ProgramLinked { created, status, log } ==> states[i]
            matches RenderState::Failed { error } && link_error_matches(
            error,
            created,
            status,
            log,
        ),
        forall|j: int|
            i <= j < events.len() ==> !(#[trigger] actions[j] matches Some(RenderAction::Draw(_))),
{
    assert(step_rel(state_before(s0, states, i), events[i], states[i], actions[i]));
    assert forall|j: int| i <= j < events.len() implies !(#[trigger] actions[j] matches Some(
        RenderAction::Draw(_),
    )) by {
        if j > i {
            lemma_failure_halts(s0, events, states, actions, i, j);
        }
    }
}

/// A missing or malformed input aborts the pass with a resolution error for
/// the first faulty slot, and from that step on the pass never compiles,
/// links or draws.
pub proof fn lemma_resolution_failure_aborts(
    s0: RenderState,
    events: Seq<RenderEvent>,
    states: Seq<RenderState>,
    actions: Seq<Option<RenderAction>>,
    i: int,
)
    requires
        valid_trace(s0, events, states, actions),
        0 <= i < events.len(),
        state_before(s0, states, i) is FetchingInputs,
        events[i] matches RenderEvent::InputsFetched(raw) && first_resolution_fault(raw) is Some,
    ensures
        states[i] is Failed,
        events[i] matches RenderEvent::InputsFetched(raw) ==> states[i]
            matches RenderState::Failed { error } && error matches RenderError::Resolution(
            fault,
            field,
        ) && Some((fault, field)) == first_resolution_fault(raw),
        forall|j: int| i <= j < events.len() ==> #[trigger] actions[j] is None,
{
    assert(step_rel(state_before(s0, states, i), events[i], states[i], actions[i]));
    assert forall|j: int| i <= j < events.len() implies #[trigger] actions[j] is None by {
        if j > i {
            lemma_failure_halts(s0, events, states, actions, i, j);
        }
    }
}

/// A pass whose every stage succeeds runs all its steps and completes, and it
/// draws exactly once: a fan from vertex zero over the resolved vertex count.
pub proof fn lemma_successful_pass_completes(
    s0: RenderState,
    events: Seq<RenderEvent>,
    states: Seq<RenderState>,
    actions: Seq<Option<RenderAction>>,
)
    requires
        valid_trace(s0, events, states, actions),
        events.len() == 9,
        s0 matches RenderState::AcquiringContext { .. },
        events[0] matches RenderEvent::ContextAcquired { ok } && ok,
        events[1] is ViewportSet,
        events[2] matches RenderEvent::InputsFetched(raw) && first_resolution_fault(raw) is None,
        events[3] matches RenderEvent::ShaderCompiled { created, status, .. } && created && status,
        events[4] matches RenderEvent::ShaderCompiled { created, status, .. } && created && status,
        events[5] matches RenderEvent::ProgramLinked { created, status, .. } && created && status,
        events[6] matches RenderEvent::GeometryUploaded { buffer_created } && buffer_created,
        events[7] is CanvasCleared,
        events[8] is DrawIssued,
    ensures
        states[8] is Completed,
        actions[7] matches Some(RenderAction::Draw(d)) && d.topology == Topology::TriangleFan
            && d.first == 0,
        states[2] matches RenderState::CompilingVertexShader { config } ==> (actions[7]
            matches Some(RenderAction::Draw(d)) && d.count == config.vertex_count),
        forall|j: int|
            0 <= j < 9 && j != 7 ==> !(#[trigger] actions[j] matches Some(RenderAction::Draw(_))),
{
    assert(step_rel(state_before(s0, states, 0), events[0], states[0], actions[0]));
    assert(step_rel(state_before(s0, states, 1), events[1], states[1], actions[1]));
    assert(step_rel(state_before(s0, states, 2), events[2], states[2], actions[2]));
    assert(step_rel(state_before(s0, states, 3), events[3], states[3], actions[3]));
    assert(step_rel(state_before(s0, states, 4), events[4], states[4], actions[4]));
    assert(step_rel(state_before(s0, states, 5), events[5], states[5], actions[5]));
    assert(step_rel(state_before(s0, states, 6), events[6], states[6], actions[6]));
    assert(step_rel(state_before(s0, states, 7), events[7], states[7], actions[7]));
    assert(step_rel(state_before(s0, states, 8), events[8], states[8], actions[8]));
    assert(states[0] is SettingViewport);
    assert(states[1] is FetchingInputs);
    assert(states[2] is CompilingVertexShader);
    assert(states[3] is CompilingFragmentShader);
    assert(states[4] is LinkingProgram);
    assert(states[5] is UploadingGeometry);
    assert(states[6] is ClearingCanvas);
    assert(states[7] is Drawing);
}

} // verus!
