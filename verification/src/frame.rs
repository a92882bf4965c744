//! The frame loop: what ends it, what the control panel may change, and the
//! commands of one frame.

use vstd::prelude::*;
use crate::camera::{clamped, Camera, HALF_BITS, ONE_BITS, ZERO_BITS};
use crate::command::{
    lemma_after_concat, lemma_after_push, Command, Draw, Pipeline, Transform, Uniform, Vector3,
};
use crate::render_state::{lemma_apply_effect, RenderState};
use crate::shader::Shader;
use crate::vertex::{lemma_draw_effect, Vertex, VertexView};

verus! {

/// The width of the window, in pixels.
pub const WINDOW_WIDTH: u32 = 640;

/// The height of the window, in pixels.
pub const WINDOW_HEIGHT: u32 = 480;

/// The major version of the core profile that the context is asked for.
pub const CONTEXT_MAJOR: u8 = 3;

/// The minor version of the core profile that the context is asked for.
pub const CONTEXT_MINOR: u8 = 3;

/// The time that a frame is followed by, in nanoseconds: a sixtieth of a
/// second, rounded down.
pub const FRAME_NANOS: u32 = 16_666_666;

/// The bit pattern of forty-five, the vertical field of view in degrees.
pub const FOVY_BITS: u32 = 0x4234_0000;

/// The bit pattern of the binary32 value nearest to one tenth, the distance
/// of the near plane.
pub const NEAR_BITS: u32 = 0x3DCC_CCCD;

/// The bit pattern of one hundred, the distance of the far plane.
pub const FAR_BITS: u32 = 0x42C8_0000;

/// A key, as far as the loop tells keys apart.
#[derive(Clone, Copy, Debug, PartialEq, Eq, Structural)]
pub enum Key {
    Escape,
    Other,
}

/// What the platform reports, as far as the loop tells it apart.
#[derive(Clone, Copy, Debug, PartialEq, Eq, Structural)]
pub enum Input {
    Quit,
    KeyDown(Key),
    Other,
}

/// An input together with what the control panel said of it: a claimed
/// event belongs to the panel and the loop does not look at it.
#[derive(Clone, Copy, Debug, PartialEq, Eq, Structural)]
pub struct Event {
    pub input: Input,
    pub claimed: bool,
}

impl Event {
    /// Whether the event ends the loop: a quit signal or the escape key going
    /// down, unless the panel has claimed it.
    pub open spec fn stops(self) -> bool {
        !self.claimed && (self.input == Input::Quit || self.input == Input::KeyDown(Key::Escape))
    }
}

/// The state of the loop. `Terminating` is never left.
#[derive(Clone, Copy, Debug, PartialEq, Eq, Structural)]
pub enum LoopState {
    Running,
    Terminating,
}

impl LoopState {
    /// The state after one event.
    pub open spec fn after(self, event: Event) -> LoopState {
        if self == LoopState::Terminating || event.stops() {
            LoopState::Terminating
        } else {
            LoopState::Running
        }
    }

    /// The state after a sequence of events: `Terminating` if it was so
    /// before or if one of the events stops the loop.
    pub open spec fn after_all(self, events: Seq<Event>) -> LoopState {
        if self == LoopState::Terminating || exists|i: int|
            0 <= i < events.len() && (#[trigger] events[i]).stops() {
            LoopState::Terminating
        } else {
            LoopState::Running
        }
    }

    /// The state in which a loop starts.
    pub fn initial() -> (r: LoopState)
        ensures
            r == LoopState::Running,
    {
        LoopState::Running
    }

    /// Takes one event and gives the state that follows.
    pub fn on_event(self, event: Event) -> (r: LoopState)
        ensures
            r == self.after(event),
    {
        if self == LoopState::Terminating {
            return LoopState::Terminating;
        }
        if event.claimed {
            return LoopState::Running;
        }
        match event.input {
            Input::Quit => LoopState::Terminating,
            Input::KeyDown(Key::Escape) => LoopState::Terminating,
            _ => LoopState::Running,
        }
    }

    /// Takes the events of one poll and gives the state that follows.
    pub fn poll(self, events: &Vec<Event>) -> (r: LoopState)
        ensures
            r == self.after_all(events@),
    {
        let mut state = self;
        let mut i: usize = 0;
        while i < events.len() && state == LoopState::Running
            invariant
                0 <= i <= events.len(),
                state == self.after_all(events@.take(i as int)),
            decreases events.len() - i,
        {
            let ghost seen = events@.take(i as int);
            let ghost next = events@.take(i + 1);
            state = state.on_event(events[i]);
            proof {
                assert(next[i as int] == events@[i as int]);
                assert forall|j: int| 0 <= j < seen.len() implies seen[j] == next[j] by {}
                if state == LoopState::Running {
                    assert forall|j: int| 0 <= j < next.len() implies !(#[trigger] next[j]).stops() by {
                        if j < i {
                            assert(seen[j] == next[j]);
                        }
                    }
                }
            }
            i = i + 1;
        }
        proof {
            let seen = events@.take(i as int);
            if state == LoopState::Terminating {
                if self != LoopState::Terminating {
                    let j = choose|j: int| 0 <= j < seen.len() && (#[trigger] seen[j]).stops();
                    assert(events@[j] == seen[j]);
                }
            } else {
                assert(seen =~= events@);
            }
        }
        state
    }
}

/// What the control panel shows for editing, read back after it was drawn.
/// The coordinates are binary32 bit patterns, as the sliders left them.
#[derive(Clone, Copy, Debug, PartialEq, Eq, Structural)]
pub struct PanelValues {
    pub depth_test: bool,
    pub blend: bool,
    pub wireframe: bool,
    pub culling: bool,
    pub camera_x: u32,
    pub camera_y: u32,
    pub camera_z: u32,
}

/// What a frame is drawn from.
#[derive(Clone, Copy, Debug, PartialEq, Eq, Structural)]
pub struct Scene {
    pub render_state: RenderState,
    pub camera: Camera,
}

impl Scene {
    /// The scene that the loop starts with: every switch on, the camera at
    /// its starting position.
    pub fn initial() -> (r: Scene)
        ensures
            r.render_state == (RenderState {
                depth_test: true,
                blend: true,
                wireframe: true,
                culling: true,
            }),
            r.camera.wf(),
            r.camera.spec_x() == crate::camera::LIMIT_BITS,
            r.camera.spec_y() == crate::camera::NEG_LIMIT_BITS,
            r.camera.spec_z() == crate::camera::LIMIT_BITS,
    {
        Scene { render_state: RenderState::initial(), camera: Camera::initial() }
    }

    /// What the panel offers for editing.
    pub fn panel_values(&self) -> (r: PanelValues)
        ensures
            r == (PanelValues {
                depth_test: self.render_state.depth_test,
                blend: self.render_state.blend,
                wireframe: self.render_state.wireframe,
                culling: self.render_state.culling,
                camera_x: self.camera.spec_x(),
                camera_y: self.camera.spec_y(),
                camera_z: self.camera.spec_z(),
            }),
    {
        PanelValues {
            depth_test: self.render_state.depth_test,
            blend: self.render_state.blend,
            wireframe: self.render_state.wireframe,
            culling: self.render_state.culling,
            camera_x: self.camera.x(),
            camera_y: self.camera.y(),
            camera_z: self.camera.z(),
        }
    }

    /// Takes over what the panel left: the switches as they are, each
    /// coordinate clamped. The next frame is drawn from the result.
    pub fn update(&mut self, values: PanelValues)
        ensures
            final(self).render_state == (RenderState {
                depth_test: values.depth_test,
                blend: values.blend,
                wireframe: values.wireframe,
                culling: values.culling,
            }),
            final(self).camera.wf(),
            final(self).camera.spec_x() == clamped(values.camera_x),
            final(self).camera.spec_y() == clamped(values.camera_y),
            final(self).camera.spec_z() == clamped(values.camera_z),
    {
        self.render_state = RenderState {
            depth_test: values.depth_test,
            blend: values.blend,
            wireframe: values.wireframe,
            culling: values.culling,
        };
        self.camera = Camera::new(values.camera_x, values.camera_y, values.camera_z);
    }
}

/// The model matrix: the cube stays where it is.
pub open spec fn model_transform() -> Transform {
    Transform::Identity
}

/// The view matrix: from the camera towards the centre of the cube, with the
/// third axis pointing upwards.
pub open spec fn view_transform(camera: Camera) -> Transform {
    Transform::LookAt {
        eye: camera,
        target: Vector3 { x: HALF_BITS, y: HALF_BITS, z: HALF_BITS },
        up: Vector3 { x: ZERO_BITS, y: ZERO_BITS, z: ONE_BITS },
    }
}

/// The projection matrix: a perspective with the aspect ratio of the window.
pub open spec fn projection_transform() -> Transform {
    Transform::Perspective {
        fovy_degrees: FOVY_BITS,
        width: WINDOW_WIDTH,
        height: WINDOW_HEIGHT,
        near: NEAR_BITS,
        far: FAR_BITS,
    }
}

/// The commands between applying the switches and drawing: set the viewport
/// to the window, clear the colour buffer to opaque white, make the program
/// current and hand it the three matrices. The depth buffer is not cleared.
pub open spec fn prepare_commands(program: u32, camera: Camera) -> Seq<Command> {
    seq![
        Command::Viewport { x: 0, y: 0, width: WINDOW_WIDTH as i32, height: WINDOW_HEIGHT as i32 },
        Command::ClearColor { red: ONE_BITS, green: ONE_BITS, blue: ONE_BITS, alpha: ONE_BITS },
        Command::ClearColorBuffer,
        Command::UseProgram(program),
        Command::SetMat4 { uniform: Uniform::Model, matrix: model_transform() },
        Command::SetMat4 { uniform: Uniform::View, matrix: view_transform(camera) },
        Command::SetMat4 { uniform: Uniform::Projection, matrix: projection_transform() },
    ]
}

/// The commands after drawing: the panel over the scene, the finished frame
/// to the screen, and the wait that paces the loop.
pub open spec fn finish_commands() -> Seq<Command> {
    seq![Command::RenderOverlay, Command::SwapWindow, Command::Sleep(FRAME_NANOS)]
}

/// All commands of one frame, in the order in which they are carried out.
pub open spec fn frame_commands(scene: Scene, program: u32, vertex: VertexView) -> Seq<Command> {
    scene.render_state.commands() + prepare_commands(program, scene.camera)
        + vertex.draw_commands() + finish_commands()
}

/// The matrices of a program once a frame has handed it the three of a
/// camera.
pub open spec fn frame_matrices(
    before: Map<(u32, Uniform), Transform>,
    program: u32,
    camera: Camera,
) -> Map<(u32, Uniform), Transform> {
    before.insert((program, Uniform::Model), model_transform()).insert(
        (program, Uniform::View),
        view_transform(camera),
    ).insert((program, Uniform::Projection), projection_transform())
}

/// The commands of one pass of the loop from a given state: those of a frame
/// if the loop is still running after the events of the pass, else none.
pub open spec fn step_commands(
    state: LoopState,
    events: Seq<Event>,
    scene: Scene,
    program: u32,
    vertex: VertexView,
) -> Seq<Command> {
    if state.after_all(events) == LoopState::Running {
        frame_commands(scene, program, vertex)
    } else {
        Seq::empty()
    }
}

/// The commands of one frame.
pub fn frame(scene: &Scene, shader: &Shader, vertex: &Vertex) -> (r: Vec<Command>)
    ensures
        r@ == frame_commands(*scene, shader.spec_id(), vertex@),
        shader.spec_id() != 0,
{
    let mut r = scene.render_state.apply();
    let ghost applied = r@;
    r.push(
        Command::Viewport { x: 0, y: 0, width: WINDOW_WIDTH as i32, height: WINDOW_HEIGHT as i32 },
    );
    r.push(
        Command::ClearColor { red: ONE_BITS, green: ONE_BITS, blue: ONE_BITS, alpha: ONE_BITS },
    );
    r.push(Command::ClearColorBuffer);
    r.push(shader.use_program());
    r.push(shader.set_mat4(Uniform::Model, Transform::Identity));
    r.push(
        shader.set_mat4(
            Uniform::View,
            Transform::LookAt {
                eye: scene.camera,
                target: Vector3 { x: HALF_BITS, y: HALF_BITS, z: HALF_BITS },
                up: Vector3 { x: ZERO_BITS, y: ZERO_BITS, z: ONE_BITS },
            },
        ),
    );
    r.push(
        shader.set_mat4(
            Uniform::Projection,
            Transform::Perspective {
                fovy_degrees: FOVY_BITS,
                width: WINDOW_WIDTH,
                height: WINDOW_HEIGHT,
                near: NEAR_BITS,
                far: FAR_BITS,
            },
        ),
    );
    assert(r@ =~= applied + prepare_commands(shader.spec_id(), scene.camera));
    let mut draw = vertex.draw();
    let ghost prepared = r@;
    let ghost drawing = draw@;
    r.append(&mut draw);
    assert(r@ == prepared + drawing);
    r.push(Command::RenderOverlay);
    r.push(Command::SwapWindow);
    r.push(Command::Sleep(FRAME_NANOS));
    assert(r@ =~= prepared + drawing + finish_commands());
    r
}

/// One pass of the loop: the events of this pass are looked at first, and a
/// frame is drawn only if the loop is still running after them.
pub fn step(
    state: LoopState,
    events: &Vec<Event>,
    scene: &Scene,
    shader: &Shader,
    vertex: &Vertex,
) -> (r: (LoopState, Vec<Command>))
    ensures
        r.0 == state.after_all(events@),
        r.1@ == step_commands(state, events@, *scene, shader.spec_id(), vertex@),
        shader.spec_id() != 0,
{
    let next = state.poll(events);
    if next == LoopState::Running {
        (next, frame(scene, shader, vertex))
    } else {
        let _ = shader.id();
        (next, Vec::new())
    }
}

/// A loop that is terminating stays so, whatever the events.
pub proof fn lemma_terminating_absorbs(events: Seq<Event>)
    ensures
        LoopState::Terminating.after_all(events) == LoopState::Terminating,
{
}

/// A quit signal, or the escape key, that the panel has not claimed ends the
/// loop in the pass in which it is seen, and that pass draws nothing: it has
/// no command at all, so the pipeline stays as it was.
pub proof fn lemma_stop_terminates(
    state: LoopState,
    events: Seq<Event>,
    i: int,
    scene: Scene,
    program: u32,
    vertex: VertexView,
    p: Pipeline,
)
    requires
        0 <= i < events.len(),
        events[i].stops(),
    ensures
        state.after_all(events) == LoopState::Terminating,
        step_commands(state, events, scene, program, vertex) == Seq::<Command>::empty(),
        p.after_all(step_commands(state, events, scene, program, vertex)) == p,
{
}

/// Once the loop is terminating no pass has a command, whatever the events.
pub proof fn lemma_terminating_is_silent(
    events: Seq<Event>,
    scene: Scene,
    program: u32,
    vertex: VertexView,
)
    ensures
        step_commands(LoopState::Terminating, events, scene, program, vertex) == Seq::<
            Command,
        >::empty(),
{
}

/// Taking the events of a pass one by one gives the same state as taking
/// them together.
pub proof fn lemma_after_all_push(state: LoopState, events: Seq<Event>, event: Event)
    ensures
        state.after_all(events.push(event)) == state.after_all(events).after(event),
{
    let more = events.push(event);
    if state.after_all(events) == LoopState::Terminating {
        if state != LoopState::Terminating {
            let j = choose|j: int| 0 <= j < events.len() && (#[trigger] events[j]).stops();
            assert(more[j].stops());
        }
    } else if event.stops() {
        assert(more[events.len() as int].stops());
    } else {
        assert forall|j: int| 0 <= j < more.len() implies !(#[trigger] more[j]).stops() by {
            if j < events.len() {
                assert(more[j] == events[j]);
            }
        }
    }
}

/// The pipeline after one frame, for a program that exists: the switches
/// are those of the scene, the program is current and has the three
/// matrices of the scene's camera, no vertex array is bound, and exactly one
/// draw call was added, of all the buffer's vertices, made in that state and
/// in the polygon mode that the wireframe switch selects.
pub proof fn lemma_frame_effect(scene: Scene, program: u32, vertex: VertexView, p: Pipeline)
    requires
        program != 0,
    ensures
        p.after_all(frame_commands(scene, program, vertex)) == (Pipeline {
            vertex_array: 0,
            program,
            matrices: frame_matrices(p.matrices, program, scene.camera),
            drawn: p.drawn.push(
                Draw {
                    vertex_array: vertex.vao,
                    mode: scene.render_state.polygon_mode(),
                    first: 0,
                    count: vertex.vertex_num,
                    program,
                    matrices: frame_matrices(p.matrices, program, scene.camera),
                },
            ),
            ..scene.render_state.applied_to(p)
        }),
{
    let a = scene.render_state.commands();
    let b = prepare_commands(program, scene.camera);
    let c = vertex.draw_commands();
    let d = finish_commands();
    let p1 = scene.render_state.applied_to(p);
    lemma_apply_effect(scene.render_state, p);
    lemma_after_concat(p, a, b);
    lemma_after_concat(p, a + b, c);
    lemma_after_concat(p, a + b + c, d);
    let e = Seq::<Command>::empty();
    assert(p1.after_all(e) == p1);
    lemma_after_push(p1, e, b[0]);
    lemma_after_push(p1, e.push(b[0]), b[1]);
    lemma_after_push(p1, e.push(b[0]).push(b[1]), b[2]);
    lemma_after_push(p1, e.push(b[0]).push(b[1]).push(b[2]), b[3]);
    lemma_after_push(p1, e.push(b[0]).push(b[1]).push(b[2]).push(b[3]), b[4]);
    lemma_after_push(p1, e.push(b[0]).push(b[1]).push(b[2]).push(b[3]).push(b[4]), b[5]);
    lemma_after_push(
        p1,
        e.push(b[0]).push(b[1]).push(b[2]).push(b[3]).push(b[4]).push(b[5]),
        b[6],
    );
    assert(b =~= e.push(b[0]).push(b[1]).push(b[2]).push(b[3]).push(b[4]).push(b[5]).push(b[6]));
    let p2 = Pipeline {
        program,
        matrices: frame_matrices(p.matrices, program, scene.camera),
        ..p1
    };
    assert(p1.after_all(b) == p2);
    lemma_draw_effect(vertex, p2);
    let p3 = p2.after_all(c);
    assert(p3.after_all(e) == p3);
    lemma_after_push(p3, e, d[0]);
    lemma_after_push(p3, e.push(d[0]), d[1]);
    lemma_after_push(p3, e.push(d[0]).push(d[1]), d[2]);
    assert(d =~= e.push(d[0]).push(d[1]).push(d[2]));
    assert(p3.after_all(d) == p3);
}

} // verus!
