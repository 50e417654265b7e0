use shape_renderer::channel::{format_channel, invert_channel, parse_channel_value, CHANNEL_SCALE};
use shape_renderer::colors::Color;
use shape_renderer::config::{parse_vertex_count, resolve_config, RawInputs, RenderConfig};
use shape_renderer::errors::{InputFault, InputField, RenderError};
use shape_renderer::pass::{render_step, RenderAction, RenderEvent, RenderState, Topology};
use shape_renderer::renderer::TriangleRenderer;
use shape_renderer::shaders::{
    fragment_shader_source, program_link_result, shader_compile_result, vertex_shader_source,
    ShaderKind,
};

fn raw_inputs(
    background: (&str, &str, &str),
    shape: (&str, &str, &str),
    vertex_count: &str,
) -> RawInputs {
    RawInputs {
        background_red: Some(background.0.to_string()),
        background_green: Some(background.1.to_string()),
        background_blue: Some(background.2.to_string()),
        shape_red: Some(shape.0.to_string()),
        shape_green: Some(shape.1.to_string()),
        shape_blue: Some(shape.2.to_string()),
        vertex_count: Some(vertex_count.to_string()),
    }
}

/// Runs a pass up to the point where the fragment shader's compile outcome is
/// due: returns the state awaiting the fragment outcome.
fn advance_to_fragment_compile(raw: RawInputs) -> RenderState {
    let renderer = TriangleRenderer::new("canvas".to_string(), 640, 480);
    let (state, action) = renderer.render_begin();
    assert!(matches!(action, RenderAction::AcquireContext));
    let (state, action) = render_step(state, RenderEvent::ContextAcquired { ok: true });
    assert!(matches!(
        action,
        Some(RenderAction::SetViewport { x: 0, y: 0, width: 640, height: 480 })
    ));
    let (state, action) = render_step(state, RenderEvent::ViewportSet);
    assert!(matches!(action, Some(RenderAction::FetchInputs)));
    let (state, action) = render_step(state, RenderEvent::InputsFetched(raw));
    match action {
        Some(RenderAction::CompileShader { kind, source }) => {
            assert_eq!(kind, ShaderKind::Vertex);
            assert_eq!(source, vertex_shader_source());
        }
        other => panic!("expected a vertex compile action, got {:?}", other),
    }
    let (state, action) = render_step(
        state,
        RenderEvent::ShaderCompiled { created: true, status: true, log: None },
    );
    assert!(matches!(
        action,
        Some(RenderAction::CompileShader { kind: ShaderKind::Fragment, .. })
    ));
    state
}

#[test]
fn channel_inversion_is_involutive() {
    for c in [0i64, 1, 250_000, 500_000, 999_999, CHANNEL_SCALE, -750_000, 2_000_000] {
        let inv = invert_channel(c);
        assert_eq!(inv, CHANNEL_SCALE - c);
        assert_eq!(invert_channel(inv), c);
    }
}

#[test]
fn color_inversion_is_involutive() {
    let c = Color::new(1_000_000, 0, 250_000);
    let d = c.inverted();
    assert_eq!((d.red, d.green, d.blue), (0, 1_000_000, 750_000));
    let e = d.inverted();
    assert_eq!(e, c);
}

#[test]
fn color_readback_is_exact() {
    let c = Color::new(123, -456, 789);
    assert_eq!((c.red, c.green, c.blue), (123, -456, 789));
}

#[test]
fn channel_formatting_whole_numbers() {
    assert_eq!(format_channel(0), "0");
    assert_eq!(format_channel(CHANNEL_SCALE), "1");
    assert_eq!(format_channel(2_000_000), "2");
    assert_eq!(format_channel(-3_000_000), "-3");
}

#[test]
fn channel_formatting_fractions() {
    assert_eq!(format_channel(750_000), "0.75");
    assert_eq!(format_channel(-250_000), "-0.25");
    assert_eq!(format_channel(500), "0.0005");
    assert_eq!(format_channel(12_345_678), "12.345678");
    assert_eq!(format_channel(1_000_001), "1.000001");
}

#[test]
fn channel_parsing_accepts_the_grammar() {
    assert_eq!(parse_channel_value("1"), Some(1_000_000));
    assert_eq!(parse_channel_value("0"), Some(0));
    assert_eq!(parse_channel_value("0.5"), Some(500_000));
    assert_eq!(parse_channel_value("-0.25"), Some(-250_000));
    assert_eq!(parse_channel_value(".5"), Some(500_000));
    assert_eq!(parse_channel_value("5."), Some(5_000_000));
    assert_eq!(parse_channel_value("12.345678"), Some(12_345_678));
    assert_eq!(parse_channel_value("9999999.999999"), Some(9_999_999_999_999));
}

#[test]
fn channel_parsing_rejects_malformed_text() {
    assert_eq!(parse_channel_value(""), None);
    assert_eq!(parse_channel_value("-"), None);
    assert_eq!(parse_channel_value("."), None);
    assert_eq!(parse_channel_value("1.2.3"), None);
    assert_eq!(parse_channel_value("+1"), None);
    assert_eq!(parse_channel_value("abc"), None);
    assert_eq!(parse_channel_value("1e3"), None);
    assert_eq!(parse_channel_value("12345678"), None);
    assert_eq!(parse_channel_value("0.1234567"), None);
}

#[test]
fn channel_parse_format_round_trip() {
    for text in ["0", "1", "0.75", "-0.25", "12.345678", "3"] {
        let value = parse_channel_value(text).unwrap();
        assert_eq!(format_channel(value), text);
    }
}

#[test]
fn vertex_count_parsing() {
    assert_eq!(parse_vertex_count("3"), Some(3));
    assert_eq!(parse_vertex_count("0042"), Some(42));
    assert_eq!(parse_vertex_count("4294967295"), Some(u32::MAX));
    assert_eq!(parse_vertex_count(""), None);
    assert_eq!(parse_vertex_count("abc"), None);
    assert_eq!(parse_vertex_count("-3"), None);
    assert_eq!(parse_vertex_count("3.5"), None);
    assert_eq!(parse_vertex_count("4294967296"), None);
    assert_eq!(parse_vertex_count("999999999999999999999"), None);
}

#[test]
fn vertex_shader_source_is_the_fixed_template() {
    assert_eq!(
        vertex_shader_source(),
        "\n      attribute vec4 position;\n      void main() {\n        gl_Position = position;\n      }\n      "
    );
}

#[test]
fn fragment_shader_embeds_inverted_channels() {
    let source = fragment_shader_source(&Color::new(1_000_000, 0, 0));
    assert_eq!(
        source,
        "\n      void main() {\n        gl_FragColor = vec4(0, 1, 1, 1.0);\n      }\n      "
    );
    let source = fragment_shader_source(&Color::new(250_000, 500_000, 750_000));
    assert_eq!(
        source,
        "\n      void main() {\n        gl_FragColor = vec4(0.75, 0.5, 0.25, 1.0);\n      }\n      "
    );
}

#[test]
fn compile_outcome_reports_diagnostic_log() {
    let r = shader_compile_result(true, false, Some("ERROR: 0:2: syntax error".to_string()));
    match r {
        Err(RenderError::ShaderCompile(m)) => assert_eq!(m, "ERROR: 0:2: syntax error"),
        other => panic!("expected a compile error, got {:?}", other),
    }
}

#[test]
fn compile_outcome_fallback_messages() {
    let r = shader_compile_result(true, false, None);
    match r {
        Err(e) => assert_eq!(e.message(), "Unknown error creating shader."),
        other => panic!("expected a compile error, got {:?}", other),
    }
    let r = shader_compile_result(false, false, None);
    match r {
        Err(e) => assert_eq!(e.message(), "Unable to create shader object."),
        other => panic!("expected a creation error, got {:?}", other),
    }
    assert!(shader_compile_result(true, true, None).is_ok());
}

#[test]
fn link_outcome_fallback_messages() {
    let r = program_link_result(true, false, None);
    match r {
        Err(e) => assert_eq!(e.message(), "Unknown error creating program object."),
        other => panic!("expected a link error, got {:?}", other),
    }
    let r = program_link_result(true, false, Some("varying mismatch".to_string()));
    match r {
        Err(RenderError::ProgramLink(m)) => assert_eq!(m, "varying mismatch"),
        other => panic!("expected a link error, got {:?}", other),
    }
    assert!(program_link_result(true, true, None).is_ok());
}

#[test]
fn scenario_full_pass_with_three_vertices() {
    // Shape (1,0,0) on background (0,0,0): the fragment shader embeds
    // (0,1,1), the clear color is (1,1,1), and the draw call is a fan over
    // exactly three vertices.
    let raw = raw_inputs(("0", "0", "0"), ("1", "0", "0"), "3");
    let renderer = TriangleRenderer::new("scene".to_string(), 320, 200);
    let (state, action) = renderer.render_begin();
    assert!(matches!(action, RenderAction::AcquireContext));

    let (state, action) = render_step(state, RenderEvent::ContextAcquired { ok: true });
    assert!(matches!(
        action,
        Some(RenderAction::SetViewport { x: 0, y: 0, width: 320, height: 200 })
    ));

    let (state, action) = render_step(state, RenderEvent::ViewportSet);
    assert!(matches!(action, Some(RenderAction::FetchInputs)));

    let (state, action) = render_step(state, RenderEvent::InputsFetched(raw));
    match &action {
        Some(RenderAction::CompileShader { kind: ShaderKind::Vertex, source }) => {
            assert_eq!(source, &vertex_shader_source());
        }
        other => panic!("expected a vertex compile action, got {:?}", other),
    }

    let (state, action) = render_step(
        state,
        RenderEvent::ShaderCompiled { created: true, status: true, log: None },
    );
    match &action {
        Some(RenderAction::CompileShader { kind: ShaderKind::Fragment, source }) => {
            assert!(source.contains("gl_FragColor = vec4(0, 1, 1, 1.0);"));
        }
        other => panic!("expected a fragment compile action, got {:?}", other),
    }

    let (state, action) = render_step(
        state,
        RenderEvent::ShaderCompiled { created: true, status: true, log: None },
    );
    assert!(matches!(action, Some(RenderAction::LinkProgram)));

    let (state, action) = render_step(
        state,
        RenderEvent::ProgramLinked { created: true, status: true, log: None },
    );
    match action {
        Some(RenderAction::UploadGeometry { polygon }) => {
            assert_eq!(polygon.center.x, 0);
            assert_eq!(polygon.center.y, 0);
            assert_eq!(polygon.radius, 700_000);
            assert_eq!(polygon.vertex_count, 3);
        }
        other => panic!("expected an upload action, got {:?}", other),
    }

    let (state, action) = render_step(state, RenderEvent::GeometryUploaded { buffer_created: true });
    match action {
        Some(RenderAction::ClearCanvas { red, green, blue, alpha }) => {
            assert_eq!((red, green, blue), (1_000_000, 1_000_000, 1_000_000));
            assert_eq!(alpha, CHANNEL_SCALE);
        }
        other => panic!("expected a clear action, got {:?}", other),
    }

    let (state, action) = render_step(state, RenderEvent::CanvasCleared);
    match action {
        Some(RenderAction::Draw(d)) => {
            assert_eq!(d.topology, Topology::TriangleFan);
            assert_eq!(d.first, 0);
            assert_eq!(d.count, 3);
        }
        other => panic!("expected a draw action, got {:?}", other),
    }

    let (state, action) = render_step(state, RenderEvent::DrawIssued);
    assert!(matches!(state, RenderState::Completed));
    assert!(action.is_none());
}

#[test]
fn scenario_six_vertex_polygon_parameters() {
    // Six vertices at radius 0.7 around the origin: the geometry the pass
    // uploads carries exactly those parameters.
    let raw = raw_inputs(("0", "0", "0"), ("1", "1", "1"), "6");
    let state = advance_to_fragment_compile(raw);
    let (state, action) = render_step(
        state,
        RenderEvent::ShaderCompiled { created: true, status: true, log: None },
    );
    assert!(matches!(action, Some(RenderAction::LinkProgram)));
    let (_, action) = render_step(
        state,
        RenderEvent::ProgramLinked { created: true, status: true, log: None },
    );
    match action {
        Some(RenderAction::UploadGeometry { polygon }) => {
            assert_eq!((polygon.center.x, polygon.center.y), (0, 0));
            assert_eq!(polygon.radius, 700_000);
            assert_eq!(polygon.vertex_count, 6);
        }
        other => panic!("expected an upload action, got {:?}", other),
    }
}

#[test]
fn malformed_shader_aborts_before_link_and_draw() {
    let raw = raw_inputs(("0", "0", "0"), ("1", "0", "0"), "3");
    let state = advance_to_fragment_compile(raw);
    // The compiler reports failure with a diagnostic: the pass fails with
    // that text and never links or draws.
    let (state, action) = render_step(
        state,
        RenderEvent::ShaderCompiled {
            created: true,
            status: false,
            log: Some("ERROR: 0:3: 'vec4' : syntax error".to_string()),
        },
    );
    assert!(action.is_none());
    match &state {
        RenderState::Failed { error: RenderError::ShaderCompile(m) } => {
            assert!(m.contains("syntax error"));
        }
        other => panic!("expected a compile failure, got {:?}", other),
    }
    // Whatever outcomes arrive afterwards, no further action is requested.
    let (state, action) = render_step(
        state,
        RenderEvent::ProgramLinked { created: true, status: true, log: None },
    );
    assert!(action.is_none());
    let (state, action) = render_step(state, RenderEvent::CanvasCleared);
    assert!(action.is_none());
    assert!(matches!(state, RenderState::Failed { .. }));
}

#[test]
fn failed_link_aborts_before_draw() {
    let raw = raw_inputs(("0", "0", "0"), ("1", "0", "0"), "3");
    let state = advance_to_fragment_compile(raw);
    let (state, action) = render_step(
        state,
        RenderEvent::ShaderCompiled { created: true, status: true, log: None },
    );
    assert!(matches!(action, Some(RenderAction::LinkProgram)));
    let (state, action) = render_step(
        state,
        RenderEvent::ProgramLinked {
            created: true,
            status: false,
            log: Some("varying 'color' not written by vertex shader".to_string()),
        },
    );
    assert!(action.is_none());
    match &state {
        RenderState::Failed { error: RenderError::ProgramLink(m) } => {
            assert!(m.contains("varying"));
        }
        other => panic!("expected a link failure, got {:?}", other),
    }
    let (state, action) = render_step(state, RenderEvent::CanvasCleared);
    assert!(action.is_none());
    assert!(matches!(state, RenderState::Failed { .. }));
}

#[test]
fn missing_vertex_count_is_a_resolution_error() {
    let mut raw = raw_inputs(("0", "0", "0"), ("1", "0", "0"), "3");
    raw.vertex_count = None;
    match resolve_config(&raw) {
        Err(RenderError::Resolution(InputFault::Missing, InputField::VertexCount)) => {}
        other => panic!("expected a missing-count error, got {:?}", other),
    }
    let raw2 = raw_inputs(("0", "0", "0"), ("1", "0", "0"), "three");
    match resolve_config(&raw2) {
        Err(RenderError::Resolution(InputFault::Malformed, InputField::VertexCount)) => {}
        other => panic!("expected a malformed-count error, got {:?}", other),
    }
}

#[test]
fn resolution_error_issues_no_draw() {
    let renderer = TriangleRenderer::new("scene".to_string(), 320, 200);
    let (state, _) = renderer.render_begin();
    let (state, _) = render_step(state, RenderEvent::ContextAcquired { ok: true });
    let (state, _) = render_step(state, RenderEvent::ViewportSet);
    let mut raw = raw_inputs(("0", "0", "0"), ("1", "0", "0"), "3");
    raw.vertex_count = None;
    let (state, action) = render_step(state, RenderEvent::InputsFetched(raw));
    assert!(action.is_none());
    assert!(matches!(
        state,
        RenderState::Failed {
            error: RenderError::Resolution(InputFault::Missing, InputField::VertexCount)
        }
    ));
    // Feed the remaining happy-path events: the pass stays failed, no draw.
    let mut state = state;
    for event in [
        RenderEvent::ShaderCompiled { created: true, status: true, log: None },
        RenderEvent::ProgramLinked { created: true, status: true, log: None },
        RenderEvent::GeometryUploaded { buffer_created: true },
        RenderEvent::CanvasCleared,
        RenderEvent::DrawIssued,
    ] {
        let (next, action) = render_step(state, event);
        assert!(action.is_none());
        assert!(matches!(next, RenderState::Failed { .. }));
        state = next;
    }
}

#[test]
fn resolution_reports_first_faulty_slot_in_order() {
    let mut raw = raw_inputs(("x", "0", "0"), ("y", "0", "0"), "3");
    match resolve_config(&raw) {
        Err(RenderError::Resolution(InputFault::Malformed, InputField::BackgroundRed)) => {}
        other => panic!("expected the background-red fault first, got {:?}", other),
    }
    raw.background_red = Some("0".to_string());
    match resolve_config(&raw) {
        Err(RenderError::Resolution(InputFault::Malformed, InputField::ShapeRed)) => {}
        other => panic!("expected the shape-red fault next, got {:?}", other),
    }
}

#[test]
fn resolve_config_parses_every_slot() {
    let raw = raw_inputs(("0.1", "0.2", "0.3"), ("1", "0", "0.5"), "12");
    let cfg: RenderConfig = resolve_config(&raw).unwrap();
    assert_eq!(
        (cfg.background.red, cfg.background.green, cfg.background.blue),
        (100_000, 200_000, 300_000)
    );
    assert_eq!((cfg.shape.red, cfg.shape.green, cfg.shape.blue), (1_000_000, 0, 500_000));
    assert_eq!(cfg.vertex_count, 12);
}

#[test]
fn failed_buffer_creation_aborts_the_pass() {
    let raw = raw_inputs(("0", "0", "0"), ("1", "0", "0"), "3");
    let state = advance_to_fragment_compile(raw);
    let (state, _) = render_step(
        state,
        RenderEvent::ShaderCompiled { created: true, status: true, log: None },
    );
    let (state, _) = render_step(
        state,
        RenderEvent::ProgramLinked { created: true, status: true, log: None },
    );
    let (state, action) =
        render_step(state, RenderEvent::GeometryUploaded { buffer_created: false });
    assert!(action.is_none());
    match &state {
        RenderState::Failed { error } => {
            assert_eq!(error.message(), "Failed to create buffer.");
        }
        other => panic!("expected a buffer failure, got {:?}", other),
    }
}

#[test]
fn unavailable_context_aborts_the_pass() {
    let renderer = TriangleRenderer::new("absent".to_string(), 100, 100);
    let (state, _) = renderer.render_begin();
    let (state, action) = render_step(state, RenderEvent::ContextAcquired { ok: false });
    assert!(action.is_none());
    match &state {
        RenderState::Failed { error } => {
            assert_eq!(error.message(), "Unable to acquire the graphics context.");
        }
        other => panic!("expected a context failure, got {:?}", other),
    }
}

#[test]
fn changing_colors_between_passes_changes_the_sources() {
    // Each pass resolves its configuration afresh and bakes the colors into
    // new shader source: two passes with different shape colors compile
    // different fragment shaders, with no state carried over.
    let first = advance_to_fragment_compile(raw_inputs(("0", "0", "0"), ("1", "0", "0"), "3"));
    let second = advance_to_fragment_compile(raw_inputs(("0", "0", "0"), ("0.5", "0", "0"), "3"));
    let source_of = |state: RenderState| -> String {
        match state {
            RenderState::CompilingFragmentShader { config } => {
                fragment_shader_source(&config.shape)
            }
            other => panic!("expected to be compiling the fragment shader, got {:?}", other),
        }
    };
    let a = source_of(first);
    let b = source_of(second);
    assert_ne!(a, b);
    assert!(a.contains("vec4(0, 1, 1, 1.0)"));
    assert!(b.contains("vec4(0.5, 1, 1, 1.0)"));
}

#[test]
fn completed_pass_ignores_later_events() {
    let raw = raw_inputs(("0", "0", "0"), ("1", "0", "0"), "3");
    let state = advance_to_fragment_compile(raw);
    let (state, _) = render_step(
        state,
        RenderEvent::ShaderCompiled { created: true, status: true, log: None },
    );
    let (state, _) = render_step(
        state,
        RenderEvent::ProgramLinked { created: true, status: true, log: None },
    );
    let (state, _) = render_step(state, RenderEvent::GeometryUploaded { buffer_created: true });
    let (state, _) = render_step(state, RenderEvent::CanvasCleared);
    let (state, action) = render_step(state, RenderEvent::DrawIssued);
    assert!(matches!(state, RenderState::Completed));
    assert!(action.is_none());
    let (state, action) = render_step(state, RenderEvent::CanvasCleared);
    assert!(matches!(state, RenderState::Completed));
    assert!(action.is_none());
}

#[test]
fn missing_input_message_names_the_field() {
    let e = RenderError::Resolution(InputFault::Missing, InputField::VertexCount);
    assert_eq!(e.message(), "Missing input value: vertex-count");
    let e = RenderError::Resolution(InputFault::Malformed, InputField::BackgroundBlue);
    assert_eq!(e.message(), "Malformed input value: background-blue");
}
