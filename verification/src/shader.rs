//! The shader program: whether building it succeeded, and the commands that
//! make it current and hand it a matrix.

use vstd::prelude::*;
use crate::command::{Command, Transform, Uniform};

verus! {

/// Why a shader program could not be built.
#[derive(Clone, Copy, Debug, PartialEq, Eq, Structural)]
pub enum ShaderError {
    /// The vertex stage did not compile.
    VertexStage,
    /// The fragment stage did not compile.
    FragmentStage,
    /// No program object was made.
    Create,
    /// The two stages did not link.
    Link,
}

/// What the driver said of building a program from two source texts.
#[derive(Clone, Copy, Debug, PartialEq, Eq, Structural)]
pub struct BuildReport {
    pub vertex_compiled: bool,
    pub fragment_compiled: bool,
    /// The handle of the program object, 0 if none was made.
    pub program: u32,
    pub linked: bool,
}

impl BuildReport {
    /// The handle of the program if it was built, else the first thing that
    /// went wrong, in the order in which a program is built.
    pub open spec fn outcome(self) -> Result<u32, ShaderError> {
        if !self.vertex_compiled {
            Err(ShaderError::VertexStage)
        } else if !self.fragment_compiled {
            Err(ShaderError::FragmentStage)
        } else if self.program == 0 {
            Err(ShaderError::Create)
        } else if !self.linked {
            Err(ShaderError::Link)
        } else {
            Ok(self.program)
        }
    }
}

/// A linked shader program. The value owns the handle, which is never 0.
pub struct Shader {
    id: u32,
}

impl Shader {
    #[verifier::type_invariant]
    spec fn inv(self) -> bool {
        self.id != 0
    }

    /// The handle of the program.
    pub closed spec fn spec_id(self) -> u32 {
        self.id
    }

    /// Takes over a program that was built, or says why there is none.
    pub fn new(report: BuildReport) -> (r: Result<Shader, ShaderError>)
        ensures
            match r {
                Ok(shader) => report.outcome() == Ok::<u32, ShaderError>(shader.spec_id()),
                Err(e) => report.outcome() == Err::<u32, ShaderError>(e),
            },
    {
        if !report.vertex_compiled {
            Err(ShaderError::VertexStage)
        } else if !report.fragment_compiled {
            Err(ShaderError::FragmentStage)
        } else if report.program == 0 {
            Err(ShaderError::Create)
        } else if !report.linked {
            Err(ShaderError::Link)
        } else {
            Ok(Shader { id: report.program })
        }
    }

    /// The handle of the program.
    pub fn id(&self) -> (r: u32)
        ensures
            r == self.spec_id(),
            r != 0,
    {
        proof {
            use_type_invariant(self);
        }
        self.id
    }

    /// The command that makes the program current. Uniforms set and
    /// vertices drawn after it go to this program, until another is made
    /// current.
    pub fn use_program(&self) -> (r: Command)
        ensures
            r == Command::UseProgram(self.spec_id()),
            self.spec_id() != 0,
    {
        proof {
            use_type_invariant(self);
        }
        Command::UseProgram(self.id)
    }

    /// The command that uploads a matrix to one of the program's uniforms.
    /// It is to follow `use_program`: it goes to whichever program is
    /// current.
    pub fn set_mat4(&self, uniform: Uniform, matrix: Transform) -> (r: Command)
        ensures
            r == (Command::SetMat4 { uniform, matrix }),
    {
        Command::SetMat4 { uniform, matrix }
    }
}

} // verus!
