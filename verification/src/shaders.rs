//! Shader program building: source assembly and stage outcomes.
//!
//! A render pass compiles one fixed vertex shader and one generated fragment
//! shader, then links them.  The fragment shader embeds the inverted shape
//! color channels as literal constants, so the compiled program always
//! outputs that single color with full opacity.  The graphics calls
//! themselves happen in the unverified shell; it reports each stage's raw
//! outcome — whether the object was allocated, the boolean status flag, and
//! the diagnostic log — and the functions here turn that outcome into the
//! pass's result.

use crate::channel::{channel_inverted, channel_text, format_channel, invert_channel};
use crate::colors::{color_valid, Color};
use crate::errors::RenderError;
use vstd::prelude::*;

verus! {

/// The two shader stages of the pipeline.
#[derive(Clone, Copy, PartialEq, Eq, Structural, Debug)]
pub enum ShaderKind {
    Vertex,
    Fragment,
}

/// Source text of the fixed pass-through vertex shader: it forwards a
/// four-component position attribute unchanged to clip space.
pub open spec fn vertex_shader_source_spec() -> Seq<char> {
    "\n      attribute vec4 position;\n      void main() {\n        gl_Position = position;\n      }\n      "@
}

/// Source text of the fragment shader for a shape color: a fixed template
/// with the three inverted channels embedded as literals and full opacity.
pub open spec fn fragment_shader_source_spec(shape: Color) -> Seq<char> {
    "\n      void main() {\n        gl_FragColor = vec4("@ + channel_text(
        channel_inverted(shape.red as int),
    ) + ", "@ + channel_text(channel_inverted(shape.green as int)) + ", "@ + channel_text(
        channel_inverted(shape.blue as int),
    ) + ", 1.0);\n      }\n      "@
}

/// The fixed pass-through vertex shader source.
pub fn vertex_shader_source() -> (r: String)
    ensures
        r@ == vertex_shader_source_spec(),
{
    "\n      attribute vec4 position;\n      void main() {\n        gl_Position = position;\n      }\n      ".to_owned()
}

/// The fragment shader source for a shape color, embedding the inverted
/// channels as literal constants.
pub fn fragment_shader_source(shape: &Color) -> (r: String)
    requires
        color_valid(*shape),
    ensures
        r@ == fragment_shader_source_spec(*shape),
{
    let mut r = "\n      void main() {\n        gl_FragColor = vec4(".to_owned();
    let red = format_channel(invert_channel(shape.red));
    let green = format_channel(invert_channel(shape.green));
    let blue = format_channel(invert_channel(shape.blue));
    r.append(red.as_str());
    r.append(", ");
    r.append(green.as_str());
    r.append(", ");
    r.append(blue.as_str());
    r.append(", 1.0);\n      }\n      ");
    proof {
        assert(r@ =~= fragment_shader_source_spec(*shape));
    }
    r
}

/// Whether `e` is the error that a shader compile stage with this raw outcome
/// produces: allocation refused, or the diagnostic log, or the fixed fallback
/// message when no log is available.
pub open spec fn compile_error_matches(
    e: RenderError,
    created: bool,
    status: bool,
    log: Option<String>,
) -> bool {
    if !created {
        e is CreateShaderFailed
    } else {
        match log {
            Some(l) => e matches RenderError::ShaderCompile(m) && m@ == l@,
            None => e matches RenderError::ShaderCompile(m) && m@
                == "Unknown error creating shader."@,
        }
    }
}

/// Whether `e` is the error that the link stage with this raw outcome
/// produces.
pub open spec fn link_error_matches(
    e: RenderError,
    created: bool,
    status: bool,
    log: Option<String>,
) -> bool {
    if !created {
        e is CreateProgramFailed
    } else {
        match log {
            Some(l) => e matches RenderError::ProgramLink(m) && m@ == l@,
            None => e matches RenderError::ProgramLink(m) && m@
                == "Unknown error creating program object."@,
        }
    }
}

/// Decides the outcome of one shader compilation: `created` says whether the
/// graphics context allocated the shader object, `status` is the compile
/// status flag, and `log` is the diagnostic text, if any.  Succeeds exactly
/// when the object was created and the status flag is true; otherwise returns
/// the stage's error, carrying the diagnostic log or the fixed fallback.
pub fn shader_compile_result(created: bool, status: bool, log: Option<String>) -> (r: Result<
    (),
    RenderError,
>)
    ensures
        r is Ok <==> created && status,
        r matches Err(e) ==> compile_error_matches(e, created, status, log),
{
    if !created {
        Err(RenderError::CreateShaderFailed)
    } else if status {
        Ok(())
    } else {
        match log {
            Some(l) => Err(RenderError::ShaderCompile(l)),
            None => Err(RenderError::ShaderCompile("Unknown error creating shader.".to_owned())),
        }
    }
}

/// Decides the outcome of linking the program, from the same kind of raw
/// outcome as `shader_compile_result`.  Succeeds exactly when the program
/// object was created and the link status flag is true.
pub fn program_link_result(created: bool, status: bool, log: Option<String>) -> (r: Result<
    (),
    RenderError,
>)
    ensures
        r is Ok <==> created && status,
        r matches Err(e) ==> link_error_matches(e, created, status, log),
{
    if !created {
        Err(RenderError::CreateProgramFailed)
    } else if status {
        Ok(())
    } else {
        match log {
            Some(l) => Err(RenderError::ProgramLink(l)),
            None => Err(
                RenderError::ProgramLink("Unknown error creating program object.".to_owned()),
            ),
        }
    }
}

} // verus!
