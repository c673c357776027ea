use vstd::prelude::*;
use crate::surface::{PresentMode, SurfaceConfig, TextureFormat};

verus! {

/// Which shader effect is drawn.
#[derive(Clone, Copy, Debug, PartialEq, Eq, Structural)]
pub enum Effect {
    /// One full-screen triangle, no uniforms; redrawn when the window asks.
    Still,
    /// Two triangles that cover the screen, animated by an elapsed-time
    /// uniform; redrawn continuously.
    Animated,
}

/// Number of vertices in the single draw call of a frame.
pub open spec fn spec_vertex_count(e: Effect) -> u32 {
    match e {
        Effect::Still => 3,
        Effect::Animated => 6,
    }
}

impl Effect {
    /// The geometry is generated in the vertex shader from the vertex index,
    /// so this count is all that a draw call needs.
    pub fn vertex_count(self) -> (r: u32)
        ensures
            r == spec_vertex_count(self),
    {
        match self {
            Effect::Still => 3,
            Effect::Animated => 6,
        }
    }

    /// Whether frames bind and update the elapsed-time uniform.
    pub fn uses_time_uniform(self) -> (r: bool)
        ensures
            r == (self == Effect::Animated),
    {
        match self {
            Effect::Still => false,
            Effect::Animated => true,
        }
    }
}

/// `a + b`, held at `u64::MAX`.
pub open spec fn spec_saturating_add(a: u64, b: u64) -> u64 {
    if a + b > u64::MAX { u64::MAX } else { (a + b) as u64 }
}

/// `a - b`, held at zero.
pub open spec fn spec_saturating_sub(a: u64, b: u64) -> u64 {
    if a < b { 0 } else { (a - b) as u64 }
}

/// Contents of the uniform block that the animated shader reads: the time
/// elapsed over all rendered frames, in nanoseconds. The GPU side receives it
/// converted to seconds.
#[derive(Clone, Copy, Debug, PartialEq, Eq, Structural)]
pub struct UniformsRaw {
    pub i_time_ns: u64,
}

impl UniformsRaw {
    /// Time starts at zero.
    pub fn new() -> (r: UniformsRaw)
        ensures
            r.i_time_ns == 0,
    {
        UniformsRaw { i_time_ns: 0 }
    }

    /// Advances the elapsed time by `dt_ns`.
    pub fn update(&mut self, dt_ns: u64)
        ensures
            final(self).i_time_ns == spec_saturating_add(old(self).i_time_ns, dt_ns),
    {
        if dt_ns > u64::MAX - self.i_time_ns {
            self.i_time_ns = u64::MAX;
        } else {
            self.i_time_ns = self.i_time_ns + dt_ns;
        }
    }
}

/// What to do with one redraw.
#[derive(Clone, Copy, Debug, PartialEq, Eq, Structural)]
pub enum FramePlan {
    /// Encode one render pass into the acquired frame, with the pipeline set,
    /// the uniform bind group set when `bind_uniforms` holds, and one draw of
    /// vertices `0..vertex_count` and instances `0..instance_count`; submit
    /// it. When `upload_time` is `Some(t)`, write `t` to the uniform buffer
    /// first.
    Draw { vertex_count: u32, instance_count: u32, bind_uniforms: bool, upload_time: Option<u64> },
    /// No frame could be acquired: report the error and drop the frame.
    Skip,
}

/// The demo's state, apart from the GPU handles: which effect it draws, the
/// presentation surface's configuration, the uniform values, and the time
/// (in nanoseconds from an origin of the caller's choice) of the last
/// rendered frame.
#[derive(Clone, Copy, Debug, PartialEq, Eq, Structural)]
pub struct Demo {
    pub effect: Effect,
    pub config: SurfaceConfig,
    pub uniforms: UniformsRaw,
    pub last_time_ns: u64,
}

/// The plan for a redraw of `d` when a frame was acquired.
pub open spec fn spec_draw_plan(d: Demo, now_ns: u64) -> FramePlan {
    let animated = d.effect == Effect::Animated;
    FramePlan::Draw {
        vertex_count: spec_vertex_count(d.effect),
        instance_count: 1,
        bind_uniforms: animated,
        upload_time: if animated {
            Some(spec_saturating_add(d.uniforms.i_time_ns, spec_saturating_sub(now_ns, d.last_time_ns)))
        } else {
            None
        },
    }
}

/// The state of `d` after a frame was drawn at `now_ns`.
pub open spec fn spec_after_draw(d: Demo, now_ns: u64) -> Demo {
    if d.effect == Effect::Animated {
        Demo {
            uniforms: UniformsRaw {
                i_time_ns: spec_saturating_add(d.uniforms.i_time_ns, spec_saturating_sub(now_ns, d.last_time_ns)),
            },
            last_time_ns: now_ns,
            ..d
        }
    } else {
        d
    }
}

impl Demo {
    /// A demo of `effect` on a surface of the given format and size, whose
    /// clock starts at `now_ns` with zero elapsed time.
    pub fn new(effect: Effect, format: TextureFormat, width: u32, height: u32, now_ns: u64) -> (r: Demo)
        ensures
            r.effect == effect,
            r.config == (SurfaceConfig { format, width, height, present_mode: PresentMode::Mailbox }),
            r.uniforms.i_time_ns == 0,
            r.last_time_ns == now_ns,
    {
        Demo {
            effect,
            config: SurfaceConfig::new(format, width, height),
            uniforms: UniformsRaw::new(),
            last_time_ns: now_ns,
        }
    }

    /// The surface takes the new size; the caller recreates the swap chain
    /// from `self.config`.
    pub fn resize(&mut self, width: u32, height: u32)
        ensures
            final(self).config.width == width,
            final(self).config.height == height,
            *final(self) == (Demo { config: SurfaceConfig { width, height, ..old(self).config }, ..*old(self) }),
    {
        self.config.resize(width, height);
    }

    /// Decides a redraw. `frame_acquired` tells whether the swap chain gave
    /// a frame; `now_ns` is the present time. Without a frame nothing changes
    /// and the frame is skipped. With one, the animated effect advances its
    /// elapsed time by the time since the last rendered frame (zero if the
    /// clock went backwards) and uploads it; then one draw call is planned.
    pub fn render(&mut self, frame_acquired: bool, now_ns: u64) -> (r: FramePlan)
        ensures
            !frame_acquired ==> r == FramePlan::Skip && *final(self) == *old(self),
            frame_acquired ==> r == spec_draw_plan(*old(self), now_ns)
                && *final(self) == spec_after_draw(*old(self), now_ns),
    {
        if !frame_acquired {
            return FramePlan::Skip;
        }
        let animated = self.effect.uses_time_uniform();
        let upload_time = if animated {
            let dt_ns: u64 = if now_ns < self.last_time_ns { 0 } else { now_ns - self.last_time_ns };
            self.last_time_ns = now_ns;
            self.uniforms.update(dt_ns);
            Some(self.uniforms.i_time_ns)
        } else {
            None
        };
        FramePlan::Draw {
            vertex_count: self.effect.vertex_count(),
            instance_count: 1,
            bind_uniforms: animated,
            upload_time,
        }
    }
}

} // verus!
