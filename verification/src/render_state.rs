//! The four pipeline toggles, applied afresh on every frame.

use vstd::prelude::*;
use crate::command::{
    lemma_after_push, BlendFactor, Capability, Command, Pipeline, PolygonMode,
};

verus! {

/// Four independent switches, each standing for one fixed-function state.
#[derive(Clone, Copy, Debug, PartialEq, Eq, Structural)]
pub struct RenderState {
    pub depth_test: bool,
    pub blend: bool,
    pub wireframe: bool,
    pub culling: bool,
}

/// The command that sets one switch.
pub open spec fn spec_toggle(capability: Capability, on: bool) -> Command {
    if on {
        Command::Enable(capability)
    } else {
        Command::Disable(capability)
    }
}

/// The command that sets one switch.
pub fn toggle(capability: Capability, on: bool) -> (r: Command)
    ensures
        r == spec_toggle(capability, on),
{
    if on {
        Command::Enable(capability)
    } else {
        Command::Disable(capability)
    }
}

impl RenderState {
    /// The polygon mode that the wireframe switch selects.
    pub open spec fn polygon_mode(self) -> PolygonMode {
        if self.wireframe {
            PolygonMode::Line
        } else {
            PolygonMode::Fill
        }
    }

    /// The commands that apply the four switches: depth test, blending (with
    /// its two factors where it is on), polygon mode, face culling.
    pub open spec fn commands(self) -> Seq<Command> {
        if self.blend {
            seq![
                spec_toggle(Capability::DepthTest, self.depth_test),
                Command::Enable(Capability::Blend),
                Command::BlendFunc(BlendFactor::SrcAlpha, BlendFactor::OneMinusSrcAlpha),
                Command::PolygonMode(self.polygon_mode()),
                spec_toggle(Capability::CullFace, self.culling),
            ]
        } else {
            seq![
                spec_toggle(Capability::DepthTest, self.depth_test),
                Command::Disable(Capability::Blend),
                Command::PolygonMode(self.polygon_mode()),
                spec_toggle(Capability::CullFace, self.culling),
            ]
        }
    }

    /// The pipeline once the switches are applied to it. The blending factors
    /// are set only where blending is on; nothing else changes.
    pub open spec fn applied_to(self, p: Pipeline) -> Pipeline {
        Pipeline {
            depth_test: self.depth_test,
            blend: self.blend,
            blend_source: if self.blend {
                BlendFactor::SrcAlpha
            } else {
                p.blend_source
            },
            blend_destination: if self.blend {
                BlendFactor::OneMinusSrcAlpha
            } else {
                p.blend_destination
            },
            polygon_mode: self.polygon_mode(),
            cull_face: self.culling,
            ..p
        }
    }

    /// All four switches on.
    pub fn initial() -> (r: RenderState)
        ensures
            r == (RenderState { depth_test: true, blend: true, wireframe: true, culling: true }),
    {
        RenderState { depth_test: true, blend: true, wireframe: true, culling: true }
    }

    /// The commands that apply all four switches, whether or not any of them
    /// has changed.
    pub fn apply(&self) -> (r: Vec<Command>)
        ensures
            r@ == self.commands(),
    {
        let mut r: Vec<Command> = Vec::new();
        r.push(toggle(Capability::DepthTest, self.depth_test));
        if self.blend {
            r.push(Command::Enable(Capability::Blend));
            r.push(Command::BlendFunc(BlendFactor::SrcAlpha, BlendFactor::OneMinusSrcAlpha));
        } else {
            r.push(Command::Disable(Capability::Blend));
        }
        if self.wireframe {
            r.push(Command::PolygonMode(PolygonMode::Line));
        } else {
            r.push(Command::PolygonMode(PolygonMode::Fill));
        }
        r.push(toggle(Capability::CullFace, self.culling));
        assert(r@ =~= self.commands());
        r
    }
}

/// Carrying out the commands of a render state sets each switch to what the
/// render state says and leaves the rest of the pipeline alone.
pub proof fn lemma_apply_effect(state: RenderState, p: Pipeline)
    ensures
        p.after_all(state.commands()) == state.applied_to(p),
{
    let a = spec_toggle(Capability::DepthTest, state.depth_test);
    let m = Command::PolygonMode(state.polygon_mode());
    let c = spec_toggle(Capability::CullFace, state.culling);
    let s0 = Seq::<Command>::empty();
    assert(p.after_all(s0) == p);
    lemma_after_push(p, s0, a);
    let s1 = s0.push(a);
    if state.blend {
        let e = Command::Enable(Capability::Blend);
        let f = Command::BlendFunc(BlendFactor::SrcAlpha, BlendFactor::OneMinusSrcAlpha);
        lemma_after_push(p, s1, e);
        lemma_after_push(p, s1.push(e), f);
        lemma_after_push(p, s1.push(e).push(f), m);
        lemma_after_push(p, s1.push(e).push(f).push(m), c);
        assert(state.commands() =~= s1.push(e).push(f).push(m).push(c));
    } else {
        let d = Command::Disable(Capability::Blend);
        lemma_after_push(p, s1, d);
        lemma_after_push(p, s1.push(d), m);
        lemma_after_push(p, s1.push(d).push(m), c);
        assert(state.commands() =~= s1.push(d).push(m).push(c));
    }
}

/// Applying the same render state twice in a row leaves the pipeline as
/// applying it once does.
pub proof fn lemma_apply_idempotent(state: RenderState, p: Pipeline)
    ensures
        p.after_all(state.commands()).after_all(state.commands()) == p.after_all(
            state.commands(),
        ),
        p.after_all(state.commands() + state.commands()) == p.after_all(state.commands()),
{
    lemma_apply_effect(state, p);
    lemma_apply_effect(state, state.applied_to(p));
    crate::command::lemma_after_concat(p, state.commands(), state.commands());
}

/// Of two render states applied one after the other, only the second shows,
/// but for the blending factors, which the first sets if the second has
/// blending off.
pub proof fn lemma_apply_last_wins(first: RenderState, second: RenderState, p: Pipeline)
    ensures
        second.blend ==> p.after_all(first.commands()).after_all(second.commands())
            == p.after_all(second.commands()),
        p.after_all(first.commands()).after_all(second.commands()) == second.applied_to(
            first.applied_to(p),
        ),
{
    lemma_apply_effect(first, p);
    lemma_apply_effect(second, first.applied_to(p));
    lemma_apply_effect(second, p);
}

} // verus!
