//! The error taxonomy of a render pass.
//!
//! Every failure aborts the whole pass and is surfaced to the caller as one
//! of these values; none is retried or recovered locally.

use vstd::prelude::*;

verus! {

/// The input value slots a render pass resolves.
#[derive(Clone, Copy, PartialEq, Eq, Structural, Debug)]
pub enum InputField {
    VertexCount,
    ShapeRed,
    ShapeGreen,
    ShapeBlue,
    BackgroundRed,
    BackgroundGreen,
    BackgroundBlue,
}

/// Why resolving an input value failed.
#[derive(Clone, Copy, PartialEq, Eq, Structural, Debug)]
pub enum InputFault {
    /// The input slot is absent.
    Missing,
    /// The textual value does not parse as the expected numeric type.
    Malformed,
}

/// An error that aborts a render pass.
#[derive(PartialEq, Eq, Debug)]
pub enum RenderError {
    /// A required input value is missing or fails to parse.
    Resolution(InputFault, InputField),
    /// The render target or its graphics context cannot be acquired.
    ContextUnavailable,
    /// The graphics context refused to allocate a shader object.
    CreateShaderFailed,
    /// Shader compilation reported failure; carries the diagnostic log.
    ShaderCompile(String),
    /// The graphics context refused to allocate a program object.
    CreateProgramFailed,
    /// Program linking reported failure; carries the diagnostic log.
    ProgramLink(String),
    /// The graphics context refused to allocate a vertex buffer.
    CreateBufferFailed,
}

/// The name of an input field, as the host page labels its slot.
pub open spec fn field_name_spec(f: InputField) -> Seq<char> {
    match f {
        InputField::VertexCount => "vertex-count"@,
        InputField::ShapeRed => "shape-red"@,
        InputField::ShapeGreen => "shape-green"@,
        InputField::ShapeBlue => "shape-blue"@,
        InputField::BackgroundRed => "background-red"@,
        InputField::BackgroundGreen => "background-green"@,
        InputField::BackgroundBlue => "background-blue"@,
    }
}

/// The message text of an error.
pub open spec fn error_message_spec(e: RenderError) -> Seq<char> {
    match e {
        RenderError::Resolution(InputFault::Missing, f) => "Missing input value: "@
            + field_name_spec(f),
        RenderError::Resolution(InputFault::Malformed, f) => "Malformed input value: "@
            + field_name_spec(f),
        RenderError::ContextUnavailable => "Unable to acquire the graphics context."@,
        RenderError::CreateShaderFailed => "Unable to create shader object."@,
        RenderError::ShaderCompile(m) => m@,
        RenderError::CreateProgramFailed => "Unable to create shader object."@,
        RenderError::ProgramLink(m) => m@,
        RenderError::CreateBufferFailed => "Failed to create buffer."@,
    }
}

impl InputField {
    /// The field's name, as the host page labels its input slot.
    pub fn name(&self) -> (r: String)
        ensures
            r@ == field_name_spec(*self),
    {
        match self {
            InputField::VertexCount => "vertex-count".to_owned(),
            InputField::ShapeRed => "shape-red".to_owned(),
            InputField::ShapeGreen => "shape-green".to_owned(),
            InputField::ShapeBlue => "shape-blue".to_owned(),
            InputField::BackgroundRed => "background-red".to_owned(),
            InputField::BackgroundGreen => "background-green".to_owned(),
            InputField::BackgroundBlue => "background-blue".to_owned(),
        }
    }
}

impl RenderError {
    /// The error's message text, for the caller to surface.
    pub fn message(&self) -> (r: String)
        ensures
            r@ == error_message_spec(*self),
    {
        match self {
            RenderError::Resolution(InputFault::Missing, f) => {
                let mut m = "Missing input value: ".to_owned();
                m.append(f.name().as_str());
                m
            },
            RenderError::Resolution(InputFault::Malformed, f) => {
                let mut m = "Malformed input value: ".to_owned();
                m.append(f.name().as_str());
                m
            },
            RenderError::ContextUnavailable => "Unable to acquire the graphics context.".to_owned(),
            RenderError::CreateShaderFailed => "Unable to create shader object.".to_owned(),
            RenderError::ShaderCompile(m) => m.clone(),
            RenderError::CreateProgramFailed => "Unable to create shader object.".to_owned(),
            RenderError::ProgramLink(m) => m.clone(),
            RenderError::CreateBufferFailed => "Failed to create buffer.".to_owned(),
        }
    }
}

} // verus!
