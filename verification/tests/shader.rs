use cube_demo::command::{Command, Transform, Uniform};
use cube_demo::shader::{BuildReport, Shader, ShaderError};

fn report(vertex_compiled: bool, fragment_compiled: bool, program: u32, linked: bool) -> BuildReport {
    BuildReport { vertex_compiled, fragment_compiled, program, linked }
}

fn error_of(r: BuildReport) -> Option<ShaderError> {
    Shader::new(r).err()
}

#[test]
fn shader_built() {
    let shader = Shader::new(report(true, true, 12, true)).ok().unwrap();
    assert_eq!(shader.id(), 12);
}

#[test]
fn shader_vertex_stage_fails_first() {
    assert_eq!(error_of(report(false, true, 12, true)), Some(ShaderError::VertexStage));
    assert_eq!(error_of(report(false, false, 0, false)), Some(ShaderError::VertexStage));
}

#[test]
fn shader_fragment_stage_fails() {
    assert_eq!(error_of(report(true, false, 12, true)), Some(ShaderError::FragmentStage));
    assert_eq!(error_of(report(true, false, 0, false)), Some(ShaderError::FragmentStage));
}

#[test]
fn shader_without_program() {
    assert_eq!(error_of(report(true, true, 0, true)), Some(ShaderError::Create));
    assert_eq!(error_of(report(true, true, 0, false)), Some(ShaderError::Create));
}

#[test]
fn shader_link_fails() {
    assert_eq!(error_of(report(true, true, 12, false)), Some(ShaderError::Link));
}

#[test]
fn shader_commands() {
    let shader = Shader::new(report(true, true, 5, true)).ok().unwrap();
    assert_eq!(shader.use_program(), Command::UseProgram(5));
    assert_eq!(
        shader.set_mat4(Uniform::Model, Transform::Identity),
        Command::SetMat4 { uniform: Uniform::Model, matrix: Transform::Identity }
    );
}
