//! The frame orchestrator: per-frame sequencing and the surface lifecycle.
//!
//! The compositor owns every drawing component and the state of the
//! presentable surface. Each redraw it derives one `FramePlan` — the clear
//! color, the globe uniforms and the clock strokes, composited in the fixed
//! layer order background, globe, clock face — for the shell to encode and
//! present. The surface lifecycle is a small state machine: a lost surface
//! is reconfigured and the acquisition retried within the same redraw, a
//! timeout or an outdated surface skips the frame silently, and any other
//! acquisition failure is fatal.

use vstd::prelude::*;

use crate::background::{Background, Rgba8};
use crate::clock_face::{ClockFace, StrokeCommand, spec_stroke_plan};
use crate::globe::{Globe, GlobeUniforms};
use crate::viewport::{Projection, Viewport};
use crate::wallclock::{TimeOfDay, UtcInstant, sample_wall_clock};

verus! {

/// The three drawing layers, in their one and only compositing order:
/// later layers alpha-blend over earlier ones.
#[derive(Clone, Copy, Debug, PartialEq, Eq, Structural)]
pub enum Layer {
    Background,
    Globe,
    ClockFace,
}

/// The state of the presentable surface.
#[derive(Clone, Copy, Debug, PartialEq, Eq, Structural)]
pub enum SurfaceState {
    /// No valid configuration; the surface must be configured before a
    /// frame can be acquired.
    Unconfigured,
    /// Configured for a window of the given size, with the negotiated
    /// format and vsync-locked (FIFO) presentation.
    Configured { width: u32, height: u32 },
}

/// What one attempt to acquire a drawable frame reported.
#[derive(Clone, Copy, Debug, PartialEq, Eq, Structural)]
pub enum AcquireOutcome {
    /// A drawable frame is available.
    Ready,
    /// The surface was lost; it must be reconfigured before retrying.
    Lost,
    /// The acquisition timed out; transient, expected during resizes.
    Timeout,
    /// The configuration no longer matches the window; also transient.
    Outdated,
    /// Any other error; not recoverable.
    Failure,
}

/// Everything the shell needs to encode one frame, in compositing order.
#[derive(Clone, Debug, PartialEq, Eq)]
pub struct FramePlan {
    /// Always background, globe, clock face — the fixed draw order.
    pub layers: Vec<Layer>,
    /// The background's clear color.
    pub clear_color: Rgba8,
    /// The globe's uniform block for this frame.
    pub globe_uniforms: GlobeUniforms,
    /// The clock face's stroke plan for this frame.
    pub clock_strokes: Vec<StrokeCommand>,
}

/// How one redraw request ended.
#[derive(Clone, Debug, PartialEq, Eq)]
pub enum RedrawResult {
    /// A frame was acquired (after `reconfigures` lost-surface recoveries)
    /// and the plan below is to be encoded, submitted and presented.
    Rendered { reconfigures: usize, plan: FramePlan },
    /// The frame was skipped silently; nothing is drawn or presented.
    Skipped,
    /// An unrecoverable acquisition error; the frame loop must stop.
    Failed,
}

/// The index of the first acquisition outcome that settles the redraw: the
/// first one that is not `Lost`.
pub open spec fn spec_first_decisive(outcomes: Seq<AcquireOutcome>) -> int
    decreases outcomes.len(),
{
    if outcomes.len() == 0 {
        0
    } else if outcomes[0] != AcquireOutcome::Lost {
        0
    } else {
        1 + spec_first_decisive(outcomes.drop_first())
    }
}

/// Up to its first decisive element, a sequence of outcomes is all `Lost`,
/// and the decisive element itself is not `Lost`.
pub proof fn lemma_first_decisive(outcomes: Seq<AcquireOutcome>)
    requires
        exists|i: int| 0 <= i < outcomes.len() && outcomes[i] != AcquireOutcome::Lost,
    ensures
        0 <= spec_first_decisive(outcomes) < outcomes.len(),
        outcomes[spec_first_decisive(outcomes)] != AcquireOutcome::Lost,
        forall|j: int| 0 <= j < spec_first_decisive(outcomes) ==> outcomes[j]
            == AcquireOutcome::Lost,
    decreases outcomes.len(),
{
    if outcomes[0] != AcquireOutcome::Lost {
    } else {
        let i = choose|i: int| 0 <= i < outcomes.len() && outcomes[i] != AcquireOutcome::Lost;
        assert(outcomes.drop_first()[i - 1] != AcquireOutcome::Lost);
        lemma_first_decisive(outcomes.drop_first());
        let k = spec_first_decisive(outcomes);
        assert(outcomes[k] == outcomes.drop_first()[k - 1]);
        assert forall|j: int| 0 <= j < k implies outcomes[j] == AcquireOutcome::Lost by {
            if j > 0 {
                assert(outcomes.drop_first()[j - 1] == AcquireOutcome::Lost);
                assert(outcomes[j] == outcomes.drop_first()[j - 1]);
            }
        }
    }
}

/// The frame orchestrator: the four scene components, the shared viewport,
/// and the surface state.
#[derive(Clone, Debug, PartialEq, Eq, Structural)]
pub struct Compositor {
    pub viewport: Viewport,
    pub background: Background,
    pub globe: Globe,
    pub clock_face: ClockFace,
    pub surface: SurfaceState,
}

impl Compositor {
    pub open spec fn wf(self) -> bool {
        self.viewport.wf() && self.globe.wf() && self.clock_face.wf()
    }

    /// A fresh orchestrator: identity projection, initial globe uniforms,
    /// default dial, and no surface configuration yet.
    pub fn new() -> (r: Compositor)
        ensures
            r.viewport.projection == Projection::spec_identity(),
            r.globe.uniforms == GlobeUniforms::spec_initial(),
            r.clock_face.config == crate::clock_face::Config::spec_default(),
            r.surface == SurfaceState::Unconfigured,
            r.wf(),
    {
        Compositor {
            viewport: Viewport::new(),
            background: Background::new(),
            globe: Globe::new(),
            clock_face: ClockFace::new(),
            surface: SurfaceState::Unconfigured,
        }
    }

    /// Feeds the sampled instant to the globe and the clock face: the globe
    /// follows UTC, the hands follow local time.
    pub fn update(&mut self, utc: &UtcInstant, local: &TimeOfDay)
        requires
            old(self).wf(),
            utc.wf(),
            local.wf(),
        ensures
            final(self).globe.uniforms == (GlobeUniforms {
                rotation: crate::globe::spec_rotation(utc.day_seconds),
                tilt_phase: crate::globe::spec_tilt_phase(utc.day_of_year0),
                ..old(self).globe.uniforms
            }),
            final(self).clock_face.hour_angle == local.spec_hour_hand_angle(),
            final(self).clock_face.minute_angle == local.spec_minute_hand_angle(),
            final(self).clock_face.config == old(self).clock_face.config,
            final(self).viewport == old(self).viewport,
            final(self).background == old(self).background,
            final(self).surface == old(self).surface,
            final(self).wf(),
    {
        self.globe.set_date(utc);
        self.clock_face.set_time(local);
    }

    /// Samples the system clock once and applies it, returning the sampled
    /// instant; the update is exactly `update` of the returned values.
    pub fn update_now(&mut self) -> (sampled: (UtcInstant, TimeOfDay))
        requires
            old(self).wf(),
        ensures
            sampled.0.wf(),
            sampled.1.wf(),
            final(self).globe.uniforms == (GlobeUniforms {
                rotation: crate::globe::spec_rotation(sampled.0.day_seconds),
                tilt_phase: crate::globe::spec_tilt_phase(sampled.0.day_of_year0),
                ..old(self).globe.uniforms
            }),
            final(self).clock_face.hour_angle == sampled.1.spec_hour_hand_angle(),
            final(self).clock_face.minute_angle == sampled.1.spec_minute_hand_angle(),
            final(self).clock_face.config == old(self).clock_face.config,
            final(self).viewport == old(self).viewport,
            final(self).background == old(self).background,
            final(self).surface == old(self).surface,
            final(self).wf(),
    {
        let (utc, local) = sample_wall_clock();
        self.update(&utc, &local);
        (utc, local)
    }

    /// (Re)configures the surface for a window of the given size; format
    /// and FIFO presentation are fixed at negotiation time.
    pub fn reconfigure(&mut self, width: u32, height: u32)
        requires
            0 < width,
            0 < height,
        ensures
            final(self).surface == (SurfaceState::Configured { width, height }),
            *final(self) == (Compositor { surface: final(self).surface, ..*old(self) }),
    {
        self.surface = SurfaceState::Configured { width, height };
    }

    /// A window resize: the projection follows the new size and the surface
    /// is reconfigured for it.
    pub fn window_resized(&mut self, width: u32, height: u32)
        requires
            old(self).wf(),
            0 < width,
            0 < height,
        ensures
            final(self).viewport.projection == Projection::spec_for_size(width, height),
            final(self).surface == (SurfaceState::Configured { width, height }),
            final(self).globe == old(self).globe,
            final(self).clock_face == old(self).clock_face,
            final(self).background == old(self).background,
            final(self).wf(),
    {
        self.viewport.window_resized(width, height);
        self.reconfigure(width, height);
    }

    /// One redraw request, driven by the acquisition outcomes the surface
    /// reports, one per attempt, until one settles it: a lost surface is
    /// reconfigured for the current window size and the acquisition retried;
    /// the first outcome that is not `Lost` decides the result. `Ready`
    /// renders this frame's plan, `Timeout` and `Outdated` skip the frame,
    /// and `Failure` ends the frame loop.
    pub fn redraw(&mut self, outcomes: &Vec<AcquireOutcome>, width: u32, height: u32) -> (r:
        RedrawResult)
        requires
            old(self).wf(),
            0 < width,
            0 < height,
            exists|i: int| 0 <= i < outcomes@.len() && outcomes@[i] != AcquireOutcome::Lost,
        ensures
            final(self).viewport == old(self).viewport,
            final(self).globe == old(self).globe,
            final(self).clock_face == old(self).clock_face,
            final(self).background == old(self).background,
            final(self).wf(),
            ({
                let k = spec_first_decisive(outcomes@);
                &&& (k == 0 ==> final(self).surface == old(self).surface)
                &&& (k > 0 ==> final(self).surface == (SurfaceState::Configured {
                    width,
                    height,
                }))
                &&& (outcomes@[k] == AcquireOutcome::Ready ==> (r matches RedrawResult::Rendered {
                    reconfigures,
                    plan,
                } && reconfigures == k && plan.layers@ =~= seq![
                    Layer::Background,
                    Layer::Globe,
                    Layer::ClockFace,
                ] && plan.clear_color == Rgba8::spec_opaque_black() && plan.globe_uniforms == old(
                    self,
                ).globe.uniforms && plan.clock_strokes@.len() == spec_stroke_plan(
                    old(self).clock_face.config,
                    old(self).clock_face.hour_angle,
                    old(self).clock_face.minute_angle,
                ).len() && (forall|i: int|
                    0 <= i < plan.clock_strokes@.len()
                        ==> (#[trigger] plan.clock_strokes@[i]).width_milli == spec_stroke_plan(
                        old(self).clock_face.config,
                        old(self).clock_face.hour_angle,
                        old(self).clock_face.minute_angle,
                    )[i].0 && plan.clock_strokes@[i].segments@ =~= spec_stroke_plan(
                        old(self).clock_face.config,
                        old(self).clock_face.hour_angle,
                        old(self).clock_face.minute_angle,
                    )[i].1)))
                &&& (outcomes@[k] == AcquireOutcome::Timeout || outcomes@[k]
                    == AcquireOutcome::Outdated ==> r == RedrawResult::Skipped)
                &&& (outcomes@[k] == AcquireOutcome::Failure ==> r == RedrawResult::Failed)
            }),
    {
        proof {
            lemma_first_decisive(outcomes@);
        }
        let ghost k = spec_first_decisive(outcomes@);
        let n = outcomes.len();
        let mut attempt: usize = 0;
        while outcomes[attempt] == AcquireOutcome::Lost
            invariant
                outcomes@.len() == n,
                0 <= attempt <= k < outcomes@.len(),
                forall|j: int| 0 <= j < attempt ==> outcomes@[j] == AcquireOutcome::Lost,
                outcomes@[k] != AcquireOutcome::Lost,
                forall|j: int| 0 <= j < k ==> outcomes@[j] == AcquireOutcome::Lost,
                attempt == 0 ==> self.surface == old(self).surface,
                attempt > 0 ==> self.surface == (SurfaceState::Configured { width, height }),
                self.viewport == old(self).viewport,
                self.globe == old(self).globe,
                self.clock_face == old(self).clock_face,
                0 < width,
                0 < height,
            decreases outcomes@.len() - attempt,
        {
            self.reconfigure(width, height);
            attempt = attempt + 1;
        }
        assert(attempt == k);
        match outcomes[attempt] {
            AcquireOutcome::Ready => {
                let clear_color = self.background.draw();
                let globe_uniforms = self.globe.draw();
                let clock_strokes = self.clock_face.draw();
                let mut layers: Vec<Layer> = Vec::new();
                layers.push(Layer::Background);
                layers.push(Layer::Globe);
                layers.push(Layer::ClockFace);
                RedrawResult::Rendered {
                    reconfigures: attempt,
                    plan: FramePlan { layers, clear_color, globe_uniforms, clock_strokes },
                }
            },
            AcquireOutcome::Timeout => RedrawResult::Skipped,
            AcquireOutcome::Outdated => RedrawResult::Skipped,
            _ => RedrawResult::Failed,
        }
    }
}

/// The first sRGB-capable format among those the surface offers, or the
/// first offered format if none is sRGB-capable. `srgb` holds, for each
/// offered format in the platform's preference order, whether it is
/// sRGB-capable.
pub fn select_render_format(srgb: &Vec<bool>) -> (r: usize)
    requires
        0 < srgb@.len(),
    ensures
        r < srgb@.len(),
        (exists|i: int| 0 <= i < srgb@.len() && srgb@[i]) ==> srgb@[r as int] && (forall|j: int|
            0 <= j < r ==> !srgb@[j]),
        !(exists|i: int| 0 <= i < srgb@.len() && srgb@[i]) ==> r == 0,
{
    let mut i: usize = 0;
    while i < srgb.len()
        invariant
            i <= srgb@.len(),
            forall|j: int| 0 <= j < i ==> !srgb@[j],
        decreases srgb@.len() - i,
    {
        if srgb[i] {
            return i;
        }
        i = i + 1;
    }
    0
}

} // verus!
