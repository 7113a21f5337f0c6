//! The fixed plan of one frame's draw: which buffer feeds which attribute and
//! how, which uniforms are set and in what order, and the draw call.
//!
//! The values of the uniforms (the two transforms and the time) are the
//! host's to compute. The plan says only where they go.

use vstd::prelude::*;
use crate::program::{Attribute, ProgramInfo, Uniform, UniformLocations};

verus! {

/// The binding target of vertex attribute data.
pub const ARRAY_BUFFER: u32 = 34962;

/// The component type of 32-bit floating-point data.
pub const FLOAT: u32 = 5126;

/// The primitive topology of a strip of triangles.
pub const TRIANGLE_STRIP: u32 = 5;

/// The number of vertices of the quad that a frame draws.
pub const VERTEX_COUNT: i32 = 4;

/// How the contents of one buffer are read as one vertex attribute.
#[derive(Debug, PartialEq, Eq)]
pub struct BufferAttrib {
    /// The name under which the host keeps the buffer.
    pub name: String,
    /// The binding target of the buffer.
    pub target: u32,
    /// The number of components per vertex.
    pub num_components: i32,
    /// The type of each component.
    pub buffer_type: u32,
    /// Whether integer data is mapped to the unit range.
    pub normalize: bool,
    /// The distance in bytes from one vertex to the next; zero for tight packing.
    pub stride: i32,
    /// The position in bytes of the first component.
    pub offset: i32,
}

/// A `BufferAttrib` as a mathematical value.
pub struct BufferAttribView {
    pub name: Seq<char>,
    pub target: u32,
    pub num_components: i32,
    pub buffer_type: u32,
    pub normalize: bool,
    pub stride: i32,
    pub offset: i32,
}

impl View for BufferAttrib {
    type V = BufferAttribView;

    open spec fn view(&self) -> BufferAttribView {
        BufferAttribView {
            name: self.name@,
            target: self.target,
            num_components: self.num_components,
            buffer_type: self.buffer_type,
            normalize: self.normalize,
            stride: self.stride,
            offset: self.offset,
        }
    }
}

/// One attribute of the program, fed from one buffer.
#[derive(Debug, PartialEq, Eq)]
pub struct AttribBinding {
    /// The index of the attribute in the linked program.
    pub location: u32,
    /// The buffer and its layout.
    pub attrib: BufferAttrib,
}

/// An `AttribBinding` as a mathematical value.
pub struct AttribBindingView {
    pub location: u32,
    pub attrib: BufferAttribView,
}

impl View for AttribBinding {
    type V = AttribBindingView;

    open spec fn view(&self) -> AttribBindingView {
        AttribBindingView { location: self.location, attrib: self.attrib@ }
    }
}

/// The arguments of the draw call.
#[derive(Clone, Copy, Debug, PartialEq, Eq, Structural)]
pub struct DrawCall {
    /// The primitive topology.
    pub mode: u32,
    /// The index of the first vertex.
    pub first: i32,
    /// The number of vertices.
    pub count: i32,
}

/// What the host does to draw one frame, in this order: bind each attribute,
/// set each uniform, issue the draw call.
#[derive(Debug, PartialEq, Eq)]
pub struct FramePlan {
    pub attributes: Vec<AttribBinding>,
    pub uniforms: Vec<Uniform>,
    pub draw: DrawCall,
}

/// A `FramePlan` as a mathematical value.
pub struct FramePlanView {
    pub attributes: Seq<AttribBindingView>,
    pub uniforms: Seq<Uniform>,
    pub draw: DrawCall,
}

impl View for FramePlan {
    type V = FramePlanView;

    open spec fn view(&self) -> FramePlanView {
        FramePlanView {
            attributes: Seq::new(self.attributes@.len(), |i: int| self.attributes@[i]@),
            uniforms: self.uniforms@,
            draw: self.draw,
        }
    }
}

/// The layout of the buffer that feeds an attribute. Positions are pairs and
/// colors are quadruples of floats, tightly packed from the start of the
/// buffer named "vertices" or "colors".
pub open spec fn spec_attrib_layout(attribute: Attribute) -> BufferAttribView {
    BufferAttribView {
        name: match attribute {
            Attribute::VertexPosition => "vertices"@,
            Attribute::VertexColor => "colors"@,
        },
        target: ARRAY_BUFFER,
        num_components: match attribute {
            Attribute::VertexPosition => 2,
            Attribute::VertexColor => 4,
        },
        buffer_type: FLOAT,
        normalize: false,
        stride: 0,
        offset: 0,
    }
}

/// The layout of the buffer that feeds an attribute.
pub fn attrib_layout(attribute: Attribute) -> (attrib: BufferAttrib)
    ensures
        attrib@ == spec_attrib_layout(attribute),
{
    match attribute {
        Attribute::VertexPosition => BufferAttrib {
            name: "vertices".to_owned(),
            target: ARRAY_BUFFER,
            num_components: 2,
            buffer_type: FLOAT,
            normalize: false,
            stride: 0,
            offset: 0,
        },
        Attribute::VertexColor => BufferAttrib {
            name: "colors".to_owned(),
            target: ARRAY_BUFFER,
            num_components: 4,
            buffer_type: FLOAT,
            normalize: false,
            stride: 0,
            offset: 0,
        },
    }
}

/// The binding of an attribute for a given program.
pub open spec fn spec_binding(info: ProgramInfo, attribute: Attribute) -> AttribBindingView {
    AttribBindingView {
        location: info.attrib_locations.spec_get(attribute),
        attrib: spec_attrib_layout(attribute),
    }
}

/// The uniforms that a frame sets: those the program has a location for, in
/// the order projection, model-view, time, one.
pub open spec fn spec_uniform_order(found: UniformLocations) -> Seq<Uniform> {
    (if found.projection_matrix {
        seq![Uniform::ProjectionMatrix]
    } else {
        seq![]
    }) + (if found.model_view_matrix {
        seq![Uniform::ModelViewMatrix]
    } else {
        seq![]
    }) + (if found.time {
        seq![Uniform::Time]
    } else {
        seq![]
    }) + (if found.one {
        seq![Uniform::One]
    } else {
        seq![]
    })
}

/// The draw call of every frame: a quad as a strip of four vertices.
pub open spec fn spec_quad() -> DrawCall {
    DrawCall { mode: TRIANGLE_STRIP, first: 0, count: VERTEX_COUNT }
}

/// The plan of a frame for a given program.
pub open spec fn spec_frame_plan(info: ProgramInfo) -> FramePlanView {
    FramePlanView {
        attributes: seq![
            spec_binding(info, Attribute::VertexPosition),
            spec_binding(info, Attribute::VertexColor),
        ],
        uniforms: spec_uniform_order(info.uniform_locations),
        draw: spec_quad(),
    }
}

/// The uniforms that a frame sets, in order.
pub fn uniform_order(found: &UniformLocations) -> (uniforms: Vec<Uniform>)
    ensures
        uniforms@ == spec_uniform_order(*found),
{
    let mut uniforms: Vec<Uniform> = Vec::new();
    if found.projection_matrix {
        uniforms.push(Uniform::ProjectionMatrix);
    }
    if found.model_view_matrix {
        uniforms.push(Uniform::ModelViewMatrix);
    }
    if found.time {
        uniforms.push(Uniform::Time);
    }
    if found.one {
        uniforms.push(Uniform::One);
    }
    assert(uniforms@ =~= spec_uniform_order(*found));
    uniforms
}

/// The plan of a frame for a given program.
pub fn frame_plan(info: &ProgramInfo) -> (plan: FramePlan)
    ensures
        plan@ == spec_frame_plan(*info),
{
    let mut attributes: Vec<AttribBinding> = Vec::new();
    attributes.push(
        AttribBinding {
            location: info.attrib_locations.get(Attribute::VertexPosition),
            attrib: attrib_layout(Attribute::VertexPosition),
        },
    );
    attributes.push(
        AttribBinding {
            location: info.attrib_locations.get(Attribute::VertexColor),
            attrib: attrib_layout(Attribute::VertexColor),
        },
    );
    let plan = FramePlan {
        attributes,
        uniforms: uniform_order(&info.uniform_locations),
        draw: DrawCall { mode: TRIANGLE_STRIP, first: 0, count: VERTEX_COUNT },
    };
    assert(plan@.attributes =~= spec_frame_plan(*info).attributes);
    plan
}

/// A program that passed the start-up check gets both transforms and the
/// time on every frame, in the order projection, model-view, time, and before
/// the constant one.
pub proof fn lemma_complete_program_sets_transforms_and_time(info: ProgramInfo)
    requires
        info.complete(),
    ensures
        spec_frame_plan(info).uniforms.len() >= 3,
        spec_frame_plan(info).uniforms[0] == Uniform::ProjectionMatrix,
        spec_frame_plan(info).uniforms[1] == Uniform::ModelViewMatrix,
        spec_frame_plan(info).uniforms[2] == Uniform::Time,
        spec_frame_plan(info).uniforms.len() == 4 <==> info.uniform_locations.one,
{
    assert(info.uniform_locations.spec_has(Uniform::ProjectionMatrix));
    assert(info.uniform_locations.spec_has(Uniform::ModelViewMatrix));
    assert(info.uniform_locations.spec_has(Uniform::Time));
}

} // verus!
