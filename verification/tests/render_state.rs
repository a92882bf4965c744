use cube_demo::command::{BlendFactor, Capability, Command, PolygonMode};
use cube_demo::render_state::{toggle, RenderState};

#[derive(Clone, Copy, Debug, PartialEq)]
struct Switches {
    depth_test: bool,
    blend: bool,
    factors: (BlendFactor, BlendFactor),
    mode: PolygonMode,
    cull_face: bool,
}

fn carry_out(mut s: Switches, commands: &[Command]) -> Switches {
    for c in commands {
        match *c {
            Command::Enable(Capability::DepthTest) => s.depth_test = true,
            Command::Disable(Capability::DepthTest) => s.depth_test = false,
            Command::Enable(Capability::Blend) => s.blend = true,
            Command::Disable(Capability::Blend) => s.blend = false,
            Command::Enable(Capability::CullFace) => s.cull_face = true,
            Command::Disable(Capability::CullFace) => s.cull_face = false,
            Command::BlendFunc(a, b) => s.factors = (a, b),
            Command::PolygonMode(m) => s.mode = m,
            _ => {}
        }
    }
    s
}

fn all_states() -> Vec<RenderState> {
    let mut v = Vec::new();
    for n in 0..16 {
        v.push(RenderState {
            depth_test: n & 1 != 0,
            blend: n & 2 != 0,
            wireframe: n & 4 != 0,
            culling: n & 8 != 0,
        });
    }
    v
}

#[test]
fn render_state_starts_with_everything_on() {
    assert_eq!(
        RenderState::initial(),
        RenderState { depth_test: true, blend: true, wireframe: true, culling: true }
    );
}

#[test]
fn toggle_enables_or_disables() {
    assert_eq!(toggle(Capability::Blend, true), Command::Enable(Capability::Blend));
    assert_eq!(toggle(Capability::CullFace, false), Command::Disable(Capability::CullFace));
}

#[test]
fn apply_everything_on() {
    assert_eq!(
        RenderState::initial().apply(),
        vec![
            Command::Enable(Capability::DepthTest),
            Command::Enable(Capability::Blend),
            Command::BlendFunc(BlendFactor::SrcAlpha, BlendFactor::OneMinusSrcAlpha),
            Command::PolygonMode(PolygonMode::Line),
            Command::Enable(Capability::CullFace),
        ]
    );
}

#[test]
fn apply_everything_off() {
    let s = RenderState { depth_test: false, blend: false, wireframe: false, culling: false };
    assert_eq!(
        s.apply(),
        vec![
            Command::Disable(Capability::DepthTest),
            Command::Disable(Capability::Blend),
            Command::PolygonMode(PolygonMode::Fill),
            Command::Disable(Capability::CullFace),
        ]
    );
}

#[test]
fn apply_sets_each_switch_alone() {
    let start = Switches {
        depth_test: false,
        blend: false,
        factors: (BlendFactor::One, BlendFactor::Zero),
        mode: PolygonMode::Fill,
        cull_face: false,
    };
    for s in all_states() {
        let got = carry_out(start, &s.apply());
        assert_eq!(got.depth_test, s.depth_test);
        assert_eq!(got.blend, s.blend);
        assert_eq!(got.cull_face, s.culling);
        assert_eq!(got.mode, if s.wireframe { PolygonMode::Line } else { PolygonMode::Fill });
        if s.blend {
            assert_eq!(got.factors, (BlendFactor::SrcAlpha, BlendFactor::OneMinusSrcAlpha));
        } else {
            assert_eq!(got.factors, (BlendFactor::One, BlendFactor::Zero));
        }
    }
}

#[test]
fn apply_twice_is_apply_once() {
    let start = Switches {
        depth_test: true,
        blend: false,
        factors: (BlendFactor::One, BlendFactor::Zero),
        mode: PolygonMode::Line,
        cull_face: true,
    };
    for s in all_states() {
        let once = carry_out(start, &s.apply());
        let twice = carry_out(once, &s.apply());
        assert_eq!(once, twice);
    }
}
