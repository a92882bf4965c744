//! The commands that the library hands to whoever owns the graphics context,
//! and a model of what they do to the pipeline.

use vstd::prelude::*;
use crate::camera::Camera;

verus! {

/// A fixed-function switch of the pipeline.
#[derive(Clone, Copy, Debug, PartialEq, Eq, Structural)]
pub enum Capability {
    DepthTest,
    Blend,
    CullFace,
}

/// A blending factor.
#[derive(Clone, Copy, Debug, PartialEq, Eq, Structural)]
pub enum BlendFactor {
    Zero,
    One,
    SrcAlpha,
    OneMinusSrcAlpha,
}

/// How polygons are rasterised, on both faces.
#[derive(Clone, Copy, Debug, PartialEq, Eq, Structural)]
pub enum PolygonMode {
    Fill,
    Line,
}

/// How often the contents of a buffer are expected to change.
#[derive(Clone, Copy, Debug, PartialEq, Eq, Structural)]
pub enum BufferUsage {
    StreamDraw,
    StaticDraw,
    DynamicDraw,
}

/// The type of one component of a vertex attribute.
#[derive(Clone, Copy, Debug, PartialEq, Eq, Structural)]
pub enum ElementType {
    Byte,
    UnsignedByte,
    Short,
    UnsignedShort,
    Int,
    UnsignedInt,
    Float,
}

impl ElementType {
    /// The number of bytes that one component takes.
    pub open spec fn spec_size(self) -> int {
        match self {
            ElementType::Byte | ElementType::UnsignedByte => 1,
            ElementType::Short | ElementType::UnsignedShort => 2,
            ElementType::Int | ElementType::UnsignedInt | ElementType::Float => 4,
        }
    }

    /// The number of bytes that one component takes.
    pub fn size(&self) -> (r: u64)
        ensures
            r == self.spec_size(),
    {
        match self {
            ElementType::Byte | ElementType::UnsignedByte => 1,
            ElementType::Short | ElementType::UnsignedShort => 2,
            ElementType::Int | ElementType::UnsignedInt | ElementType::Float => 4,
        }
    }
}

/// One of the three matrices that the shader program declares.
#[derive(Clone, Copy, Debug, PartialEq, Eq, Structural)]
pub enum Uniform {
    Model,
    View,
    Projection,
}

impl Uniform {
    /// The name under which the shader program declares the matrix.
    pub open spec fn spec_name(self) -> Seq<char> {
        match self {
            Uniform::Model => "uModel"@,
            Uniform::View => "uView"@,
            Uniform::Projection => "uProjection"@,
        }
    }

    /// The name under which the shader program declares the matrix.
    pub fn name(&self) -> (r: &'static str)
        ensures
            r@ == self.spec_name(),
    {
        match self {
            Uniform::Model => "uModel",
            Uniform::View => "uView",
            Uniform::Projection => "uProjection",
        }
    }
}

/// Three real values, each a binary32 bit pattern.
#[derive(Clone, Copy, Debug, PartialEq, Eq, Structural)]
pub struct Vector3 {
    pub x: u32,
    pub y: u32,
    pub z: u32,
}

/// What a matrix is computed from. Real values are binary32 bit patterns.
#[derive(Clone, Copy, Debug, PartialEq, Eq, Structural)]
pub enum Transform {
    /// The identity matrix.
    Identity,
    /// A right-handed view matrix: the camera at `eye` looks at `target`,
    /// with `up` pointing upwards.
    LookAt { eye: Camera, target: Vector3, up: Vector3 },
    /// A perspective projection with a vertical field of view in degrees
    /// and the aspect ratio `width / height`.
    Perspective { fovy_degrees: u32, width: u32, height: u32, near: u32, far: u32 },
}

/// One step for the owner of the graphics context to carry out.
#[derive(Clone, Copy, Debug, PartialEq, Eq, Structural)]
pub enum Command {
    /// Make a vertex array current; 0 unbinds.
    BindVertexArray(u32),
    /// Make a buffer the current array buffer; 0 unbinds.
    BindBuffer(u32),
    /// Upload `size` bytes of vertex data to the current array buffer.
    BufferData { size: usize, usage: BufferUsage },
    /// Switch on the vertex attribute with this index.
    EnableVertexAttribArray(u32),
    /// Say where the attribute with this index lies in a vertex record. The
    /// components are not normalised; `offset` is in bytes.
    VertexAttribPointer { index: u32, components: u32, element: ElementType, stride: i32, offset: usize },
    /// Draw `count` vertices, from `first` on, as a list of triangles.
    DrawArrays { first: i32, count: i32 },
    Enable(Capability),
    Disable(Capability),
    BlendFunc(BlendFactor, BlendFactor),
    PolygonMode(PolygonMode),
    Viewport { x: i32, y: i32, width: i32, height: i32 },
    /// Set the clear colour; each channel is a binary32 bit pattern.
    ClearColor { red: u32, green: u32, blue: u32, alpha: u32 },
    /// Clear the colour buffer, and no other.
    ClearColorBuffer,
    /// Make a shader program current; 0 makes none current.
    UseProgram(u32),
    /// Upload a matrix to a uniform of the current program. Without a
    /// current program nothing is uploaded.
    SetMat4 { uniform: Uniform, matrix: Transform },
    /// Draw the control panel over the scene.
    RenderOverlay,
    /// Show the finished frame.
    SwapWindow,
    /// Wait for this many nanoseconds.
    Sleep(u32),
}

/// One draw call as the pipeline saw it: what was drawn, and the state it
/// was drawn in.
pub struct Draw {
    pub vertex_array: u32,
    pub mode: PolygonMode,
    pub first: i32,
    pub count: i32,
    pub program: u32,
    pub matrices: Map<(u32, Uniform), Transform>,
}

/// The part of the pipeline's state that the commands of this library touch,
/// with the draw calls made so far.
pub struct Pipeline {
    pub depth_test: bool,
    pub blend: bool,
    pub blend_source: BlendFactor,
    pub blend_destination: BlendFactor,
    pub polygon_mode: PolygonMode,
    pub cull_face: bool,
    pub vertex_array: u32,
    /// The current shader program, 0 for none.
    pub program: u32,
    /// The matrices uploaded so far, by program and uniform.
    pub matrices: Map<(u32, Uniform), Transform>,
    pub drawn: Seq<Draw>,
}

impl Pipeline {
    /// The pipeline with one switch set.
    pub open spec fn with(self, capability: Capability, on: bool) -> Pipeline {
        match capability {
            Capability::DepthTest => Pipeline { depth_test: on, ..self },
            Capability::Blend => Pipeline { blend: on, ..self },
            Capability::CullFace => Pipeline { cull_face: on, ..self },
        }
    }

    /// The record of a draw call made in this state.
    pub open spec fn draw(self, first: i32, count: i32) -> Draw {
        Draw {
            vertex_array: self.vertex_array,
            mode: self.polygon_mode,
            first,
            count,
            program: self.program,
            matrices: self.matrices,
        }
    }

    /// The pipeline after one command.
    pub open spec fn after(self, command: Command) -> Pipeline {
        match command {
            Command::Enable(capability) => self.with(capability, true),
            Command::Disable(capability) => self.with(capability, false),
            Command::BlendFunc(source, destination) => Pipeline {
                blend_source: source,
                blend_destination: destination,
                ..self
            },
            Command::PolygonMode(mode) => Pipeline { polygon_mode: mode, ..self },
            Command::BindVertexArray(id) => Pipeline { vertex_array: id, ..self },
            Command::UseProgram(id) => Pipeline { program: id, ..self },
            Command::SetMat4 { uniform, matrix } => if self.program == 0 {
                self
            } else {
                Pipeline { matrices: self.matrices.insert((self.program, uniform), matrix), ..self }
            },
            Command::DrawArrays { first, count } => Pipeline { drawn: self.drawn.push(self.draw(first, count)), ..self },
            _ => self,
        }
    }

    /// The pipeline after a sequence of commands, carried out in order.
    pub open spec fn after_all(self, commands: Seq<Command>) -> Pipeline
        decreases commands.len(),
    {
        if commands.len() == 0 {
            self
        } else {
            self.after_all(commands.drop_last()).after(commands.last())
        }
    }
}

/// Carrying out one more command at the end is one more step.
pub proof fn lemma_after_push(p: Pipeline, commands: Seq<Command>, command: Command)
    ensures
        p.after_all(commands.push(command)) == p.after_all(commands).after(command),
{
    assert(commands.push(command).drop_last() =~= commands);
}

/// Carrying out two sequences one after the other is carrying out the first
/// and then, from where that ends, the second.
pub proof fn lemma_after_concat(p: Pipeline, first: Seq<Command>, second: Seq<Command>)
    ensures
        p.after_all(first + second) == p.after_all(first).after_all(second),
    decreases second.len(),
{
    if second.len() == 0 {
        assert(first + second =~= first);
    } else {
        lemma_after_concat(p, first, second.drop_last());
        assert((first + second).drop_last() =~= first + second.drop_last());
        assert((first + second).last() == second.last());
    }
}

} // verus!
