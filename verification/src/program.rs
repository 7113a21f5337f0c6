//! The named inputs of the shader program and where the linked program put them.
//!
//! The host compiles and links the program and asks it for each input by name.
//! What it found is checked here, once, at start-up: a frame never has to deal
//! with an input that is not there.

use vstd::prelude::*;
use crate::error::SetupError;

verus! {

/// A per-vertex input of the shader program.
#[derive(Clone, Copy, Debug, PartialEq, Eq, Structural)]
pub enum Attribute {
    VertexPosition,
    VertexColor,
}

/// A per-draw input of the shader program.
#[derive(Clone, Copy, Debug, PartialEq, Eq, Structural)]
pub enum Uniform {
    /// The 4x4 model-view transform.
    ModelViewMatrix,
    /// The 4x4 projection transform.
    ProjectionMatrix,
    /// The elapsed time of the frame, a scalar, set on every frame.
    Time,
    /// The constant one, a scalar. It is the second of "one or two scalars":
    /// a program may do without it, and a frame then leaves it out.
    One,
}

impl Attribute {
    /// The name of the attribute in the shader source.
    pub open spec fn spec_name(self) -> Seq<char> {
        match self {
            Attribute::VertexPosition => "a_vertex_position"@,
            Attribute::VertexColor => "a_vertex_color"@,
        }
    }

    /// The name of the attribute in the shader source.
    pub fn name(&self) -> (name: &'static str)
        ensures
            name@ == self.spec_name(),
    {
        match self {
            Attribute::VertexPosition => "a_vertex_position",
            Attribute::VertexColor => "a_vertex_color",
        }
    }
}

impl Uniform {
    /// The name of the uniform in the shader source.
    pub open spec fn spec_name(self) -> Seq<char> {
        match self {
            Uniform::ModelViewMatrix => "u_model_view_matrix"@,
            Uniform::ProjectionMatrix => "u_projection_matrix"@,
            Uniform::Time => "u_time"@,
            Uniform::One => "u_one"@,
        }
    }

    /// The name of the uniform in the shader source.
    pub fn name(&self) -> (name: &'static str)
        ensures
            name@ == self.spec_name(),
    {
        match self {
            Uniform::ModelViewMatrix => "u_model_view_matrix",
            Uniform::ProjectionMatrix => "u_projection_matrix",
            Uniform::Time => "u_time",
            Uniform::One => "u_one",
        }
    }

    /// Whether start-up fails when the program lacks the uniform: true of the
    /// two transforms and of the time, false of the constant one alone.
    pub open spec fn spec_required(&self) -> bool {
        !(self is One)
    }

    /// Whether start-up fails when the program lacks the uniform.
    #[verifier::when_used_as_spec(spec_required)]
    pub fn required(&self) -> (required: bool)
        ensures
            required == self.spec_required(),
    {
        match self {
            Uniform::One => false,
            _ => true,
        }
    }
}

/// The index of each vertex attribute in the linked program.
#[derive(Clone, Copy, Debug, PartialEq, Eq, Structural)]
pub struct AttribLocations {
    pub vertex_position: u32,
    pub vertex_color: u32,
}

/// Which uniforms the linked program has a location for.
#[derive(Clone, Copy, Debug, PartialEq, Eq, Structural)]
pub struct UniformLocations {
    pub model_view_matrix: bool,
    pub projection_matrix: bool,
    pub time: bool,
    pub one: bool,
}

/// What a frame needs to know of the linked program.
#[derive(Clone, Copy, Debug, PartialEq, Eq, Structural)]
pub struct ProgramInfo {
    pub attrib_locations: AttribLocations,
    pub uniform_locations: UniformLocations,
}

impl AttribLocations {
    /// The index of the given attribute.
    pub open spec fn spec_get(&self, attribute: Attribute) -> u32 {
        match attribute {
            Attribute::VertexPosition => self.vertex_position,
            Attribute::VertexColor => self.vertex_color,
        }
    }

    /// The index of the given attribute.
    #[verifier::when_used_as_spec(spec_get)]
    pub fn get(&self, attribute: Attribute) -> (location: u32)
        ensures
            location == self.spec_get(attribute),
    {
        match attribute {
            Attribute::VertexPosition => self.vertex_position,
            Attribute::VertexColor => self.vertex_color,
        }
    }
}

impl UniformLocations {
    /// Whether the program has a location for the given uniform.
    pub open spec fn spec_has(&self, uniform: Uniform) -> bool {
        match uniform {
            Uniform::ModelViewMatrix => self.model_view_matrix,
            Uniform::ProjectionMatrix => self.projection_matrix,
            Uniform::Time => self.time,
            Uniform::One => self.one,
        }
    }

    /// Whether the program has a location for the given uniform.
    #[verifier::when_used_as_spec(spec_has)]
    pub fn has(&self, uniform: Uniform) -> (found: bool)
        ensures
            found == self.spec_has(uniform),
    {
        match uniform {
            Uniform::ModelViewMatrix => self.model_view_matrix,
            Uniform::ProjectionMatrix => self.projection_matrix,
            Uniform::Time => self.time,
            Uniform::One => self.one,
        }
    }
}

/// The index that an attribute query stands for. The rendering backend
/// answers a query for an attribute that the program lacks with a negative
/// number.
pub open spec fn spec_attribute_index(location: i32) -> Option<u32> {
    if location < 0 {
        None
    } else {
        Some(location as u32)
    }
}

/// The index that an attribute query stands for, if the attribute was found.
#[verifier::when_used_as_spec(spec_attribute_index)]
pub fn attribute_index(location: i32) -> (index: Option<u32>)
    ensures
        index == spec_attribute_index(location),
{
    if location < 0 {
        None
    } else {
        Some(location as u32)
    }
}

impl ProgramInfo {
    /// What `new` makes of the host's findings. The first input that is
    /// missing, in the order position, color, model-view, projection, time,
    /// gives the error. Only the constant one may be missing.
    pub open spec fn resolve(
        vertex_position: i32,
        vertex_color: i32,
        uniforms: UniformLocations,
    ) -> Result<ProgramInfo, SetupError> {
        if spec_attribute_index(vertex_position) is None {
            Err(SetupError::MissingAttribute(Attribute::VertexPosition))
        } else if spec_attribute_index(vertex_color) is None {
            Err(SetupError::MissingAttribute(Attribute::VertexColor))
        } else if !uniforms.model_view_matrix {
            Err(SetupError::MissingUniform(Uniform::ModelViewMatrix))
        } else if !uniforms.projection_matrix {
            Err(SetupError::MissingUniform(Uniform::ProjectionMatrix))
        } else if !uniforms.time {
            Err(SetupError::MissingUniform(Uniform::Time))
        } else {
            Ok(
                ProgramInfo {
                    attrib_locations: AttribLocations {
                        vertex_position: spec_attribute_index(vertex_position)->0,
                        vertex_color: spec_attribute_index(vertex_color)->0,
                    },
                    uniform_locations: uniforms,
                },
            )
        }
    }

    /// True when the program has a location for every required uniform: both
    /// transforms and the time.
    pub open spec fn complete(self) -> bool {
        forall|uniform: Uniform|
            uniform.spec_required() ==> #[trigger] self.uniform_locations.spec_has(uniform)
    }

    /// Checks what the host found in the linked program: the answers to the
    /// two attribute queries, and which uniforms have a location.
    pub fn new(vertex_position: i32, vertex_color: i32, uniforms: UniformLocations) -> (info:
        Result<ProgramInfo, SetupError>)
        ensures
            info == ProgramInfo::resolve(vertex_position, vertex_color, uniforms),
            info is Ok ==> info->Ok_0.complete(),
            info is Ok <==> vertex_position >= 0 && vertex_color >= 0 && uniforms.model_view_matrix
                && uniforms.projection_matrix && uniforms.time,
    {
        let position = match attribute_index(vertex_position) {
            Some(index) => index,
            None => {
                return Err(SetupError::MissingAttribute(Attribute::VertexPosition));
            },
        };
        let color = match attribute_index(vertex_color) {
            Some(index) => index,
            None => {
                return Err(SetupError::MissingAttribute(Attribute::VertexColor));
            },
        };
        if !uniforms.model_view_matrix {
            return Err(SetupError::MissingUniform(Uniform::ModelViewMatrix));
        }
        if !uniforms.projection_matrix {
            return Err(SetupError::MissingUniform(Uniform::ProjectionMatrix));
        }
        if !uniforms.time {
            return Err(SetupError::MissingUniform(Uniform::Time));
        }
        Ok(
            ProgramInfo {
                attrib_locations: AttribLocations { vertex_position: position, vertex_color: color },
                uniform_locations: uniforms,
            },
        )
    }
}

/// The two steps of building the shader program whose status the host asks for.
#[derive(Clone, Copy, Debug, PartialEq, Eq, Structural)]
pub enum BuildStep {
    /// Compiling one shader.
    Compile,
    /// Linking the program.
    Link,
}

/// What the answer to a status query means. Only a plain `true` stands for
/// success: `false`, or an answer that is no boolean at all, fails the step.
pub open spec fn spec_build_outcome(step: BuildStep, status: Option<bool>) -> Result<
    (),
    SetupError,
> {
    if status == Some(true) {
        Ok(())
    } else {
        match step {
            BuildStep::Compile => Err(SetupError::ShaderCompile),
            BuildStep::Link => Err(SetupError::ProgramLink),
        }
    }
}

/// What the answer to a status query means for the given step.
pub fn build_outcome(step: BuildStep, status: Option<bool>) -> (outcome: Result<(), SetupError>)
    ensures
        outcome == spec_build_outcome(step, status),
{
    match status {
        Some(true) => Ok(()),
        _ => match step {
            BuildStep::Compile => Err(SetupError::ShaderCompile),
            BuildStep::Link => Err(SetupError::ProgramLink),
        },
    }
}

} // verus!
