//! The clock-face layer: an analog dial rasterized on the CPU every frame.
//!
//! The dial is a set of stroked line segments, all radial: tick marks around
//! the rim and the two hands from the center. Their geometry is exact — each
//! segment is an angle (a fraction of a turn) together with an inner and an
//! outer radius in thousandths of the dial radius. `draw` turns the current
//! hand angles into the full stroke plan for one frame; the shell rasterizes
//! that plan into the square pixel buffer (cleared to transparent first),
//! uploads it as an sRGB RGBA texture, and blends the textured quad over the
//! scene with premultiplied alpha.

use vstd::prelude::*;

use crate::angle::Turn;
use crate::background::Rgba8;

verus! {

/// Stroke width of the major ticks and the hour hand, in thousandths of the
/// dial radius.
pub const MAJOR_STROKE_WIDTH_MILLI: u32 = 20;

/// Stroke width of the minor ticks and the minute hand, in thousandths.
pub const MINOR_STROKE_WIDTH_MILLI: u32 = 15;

/// The dial's fixed layout. Radii and lengths are in thousandths of the
/// dial radius; `width` is the side of the square pixel buffer.
#[derive(Clone, Copy, Debug, PartialEq, Eq, Structural)]
pub struct Config {
    pub width: u32,
    pub major_ticks: u32,
    pub minor_ticks: u32,
    pub major_inner_milli: u32,
    pub major_outer_milli: u32,
    pub minor_inner_milli: u32,
    pub minor_outer_milli: u32,
    pub hour_hand_milli: u32,
    pub minute_hand_milli: u32,
}

impl Config {
    /// Bounds that keep every derived tick count and denominator well within
    /// `u32`, and the geometry within the dial.
    pub open spec fn wf(self) -> bool {
        &&& 0 < self.width
        &&& 0 < self.major_ticks <= 1024
        &&& self.minor_ticks <= 1024
        &&& self.major_inner_milli <= self.major_outer_milli <= 1000
        &&& self.minor_inner_milli <= self.minor_outer_milli <= 1000
        &&& self.hour_hand_milli <= 1000
        &&& self.minute_hand_milli <= 1000
    }

    /// The default dial: a 1024×1024 buffer, four major ticks each followed
    /// by five minor ticks, and hands of 0.4 and 0.6 of the radius.
    pub open spec fn spec_default() -> Config {
        Config {
            width: 1024,
            major_ticks: 4,
            minor_ticks: 5,
            major_inner_milli: 850,
            major_outer_milli: 950,
            minor_inner_milli: 900,
            minor_outer_milli: 950,
            hour_hand_milli: 400,
            minute_hand_milli: 600,
        }
    }
}

impl Default for Config {
    fn default() -> (r: Config)
        ensures
            r == Config::spec_default(),
            r.wf(),
    {
        Config {
            width: 1024,
            major_ticks: 4,
            minor_ticks: 5,
            major_inner_milli: 850,
            major_outer_milli: 950,
            minor_inner_milli: 900,
            minor_outer_milli: 950,
            hour_hand_milli: 400,
            minute_hand_milli: 600,
        }
    }
}

/// One stroked line segment of the dial, radial at `angle`: it runs from
/// `inner_milli` to `outer_milli` thousandths of the dial radius.
#[derive(Clone, Copy, Debug, PartialEq, Eq, Structural)]
pub struct RadialSegment {
    pub angle: Turn,
    pub inner_milli: u32,
    pub outer_milli: u32,
}

/// One stroke of the rasterizer: a set of segments drawn with one width.
/// The four strokes of a frame all share the paint of `stroke_style`.
#[derive(Clone, Debug, PartialEq, Eq)]
pub struct StrokeCommand {
    pub width_milli: u32,
    pub segments: Vec<RadialSegment>,
}

/// The shared paint: translucent white, anti-aliased, with round caps.
/// Color channels are in thousandths.
#[derive(Clone, Copy, Debug, PartialEq, Eq, Structural)]
pub struct StrokeStyle {
    pub red_milli: u32,
    pub green_milli: u32,
    pub blue_milli: u32,
    pub alpha_milli: u32,
    pub anti_alias: bool,
    pub round_cap: bool,
}

/// The paint shared by every stroke of the dial: half-transparent white.
pub fn stroke_style() -> (s: StrokeStyle)
    ensures
        s == (StrokeStyle {
            red_milli: 1000u32,
            green_milli: 1000u32,
            blue_milli: 1000u32,
            alpha_milli: 500u32,
            anti_alias: true,
            round_cap: true,
        }),
{
    StrokeStyle {
        red_milli: 1000,
        green_milli: 1000,
        blue_milli: 1000,
        alpha_milli: 500,
        anti_alias: true,
        round_cap: true,
    }
}

/// The color the pixel buffer is cleared to before each frame's strokes:
/// fully transparent. Nothing of a previous frame survives the clear.
pub fn clear_color() -> (c: Rgba8)
    ensures
        c == (Rgba8 { r: 0u8, g: 0u8, b: 0u8, a: 0u8 }),
{
    Rgba8 { r: 0, g: 0, b: 0, a: 0 }
}

/// Major tick `k`: a full-length rim tick at `k / major_ticks` of a turn.
pub open spec fn spec_major_segment(cfg: Config, k: int) -> RadialSegment {
    RadialSegment {
        angle: Turn { num: k as u32, den: cfg.major_ticks },
        inner_milli: cfg.major_inner_milli,
        outer_milli: cfg.major_outer_milli,
    }
}

/// All `major_ticks` major ticks, in order around the dial.
pub open spec fn spec_major_segments(cfg: Config) -> Seq<RadialSegment> {
    Seq::new(cfg.major_ticks as nat, |k: int| spec_major_segment(cfg, k))
}

/// Minor tick `j` (counting `minor_ticks` per major interval): the
/// `(j % minor_ticks) + 1`-th of the short ticks that subdivide major
/// interval `j / minor_ticks`. Its angle is a fraction of a turn with
/// denominator `major_ticks * (minor_ticks + 1)`.
pub open spec fn spec_minor_segment(cfg: Config, j: int) -> RadialSegment {
    let k = j / (cfg.minor_ticks as int);
    let m = j % (cfg.minor_ticks as int);
    RadialSegment {
        angle: Turn {
            num: (k * (cfg.minor_ticks + 1) + (m + 1)) as u32,
            den: (cfg.major_ticks * (cfg.minor_ticks + 1)) as u32,
        },
        inner_milli: cfg.minor_inner_milli,
        outer_milli: cfg.minor_outer_milli,
    }
}

/// All `major_ticks * minor_ticks` minor ticks, in order around the dial.
pub open spec fn spec_minor_segments(cfg: Config) -> Seq<RadialSegment> {
    Seq::new((cfg.major_ticks * cfg.minor_ticks) as nat, |j: int| spec_minor_segment(cfg, j))
}

/// A hand: a segment from the dial's center to `length_milli`, rotated to
/// `angle`.
pub open spec fn spec_hand_segment(angle: Turn, length_milli: u32) -> RadialSegment {
    RadialSegment { angle, inner_milli: 0, outer_milli: length_milli }
}

/// The whole stroke plan of one frame, as `(width, segments)` pairs in draw
/// order: major ticks, minor ticks, hour hand, minute hand. It is a pure
/// function of the configuration and the two hand angles.
pub open spec fn spec_stroke_plan(cfg: Config, hour_angle: Turn, minute_angle: Turn) -> Seq<
    (u32, Seq<RadialSegment>),
> {
    seq![
        (MAJOR_STROKE_WIDTH_MILLI, spec_major_segments(cfg)),
        (MINOR_STROKE_WIDTH_MILLI, spec_minor_segments(cfg)),
        (MAJOR_STROKE_WIDTH_MILLI, seq![spec_hand_segment(hour_angle, cfg.hour_hand_milli)]),
        (MINOR_STROKE_WIDTH_MILLI, seq![spec_hand_segment(minute_angle, cfg.minute_hand_milli)]),
    ]
}

/// Builds the major tick segments of `cfg`, in order.
fn major_tick_segments(cfg: &Config) -> (r: Vec<RadialSegment>)
    requires
        cfg.wf(),
    ensures
        r@ =~= spec_major_segments(*cfg),
{
    let mut r: Vec<RadialSegment> = Vec::new();
    let mut k: u32 = 0;
    while k < cfg.major_ticks
        invariant
            cfg.wf(),
            k <= cfg.major_ticks,
            r@.len() == k,
            forall|i: int| 0 <= i < k ==> r@[i] == spec_major_segment(*cfg, i),
        decreases cfg.major_ticks - k,
    {
        r.push(
            RadialSegment {
                angle: Turn { num: k, den: cfg.major_ticks },
                inner_milli: cfg.major_inner_milli,
                outer_milli: cfg.major_outer_milli,
            },
        );
        k = k + 1;
    }
    r
}

/// Builds the minor tick segments of `cfg`, in order.
fn minor_tick_segments(cfg: &Config) -> (r: Vec<RadialSegment>)
    requires
        cfg.wf(),
    ensures
        r@ =~= spec_minor_segments(*cfg),
{
    let subdivisions = cfg.minor_ticks + 1;
    proof {
        assert(cfg.major_ticks * subdivisions <= 1024 * 1025 && cfg.major_ticks * cfg.minor_ticks
            <= 1024 * 1024) by (nonlinear_arith)
            requires
                0 < cfg.major_ticks <= 1024,
                cfg.minor_ticks <= 1024,
                subdivisions == cfg.minor_ticks + 1,
        ;
    }
    let den = cfg.major_ticks * subdivisions;
    let mut r: Vec<RadialSegment> = Vec::new();
    let mut k: u32 = 0;
    while k < cfg.major_ticks
        invariant
            cfg.wf(),
            subdivisions == cfg.minor_ticks + 1,
            den == cfg.major_ticks * subdivisions,
            den <= 1024 * 1025,
            k <= cfg.major_ticks,
            r@.len() == k * cfg.minor_ticks,
            forall|j: int| 0 <= j < r@.len() ==> r@[j] == spec_minor_segment(*cfg, j),
        decreases cfg.major_ticks - k,
    {
        proof {
            assert((k + 1) * cfg.minor_ticks == k * cfg.minor_ticks + cfg.minor_ticks && k
                * cfg.minor_ticks <= 1024 * 1024 && k * subdivisions <= 1023 * 1025)
                by (nonlinear_arith)
                requires
                    k < cfg.major_ticks <= 1024,
                    cfg.minor_ticks <= 1024,
                    subdivisions == cfg.minor_ticks + 1,
            ;
        }
        let base = k * subdivisions;
        let mut m: u32 = 0;
        while m < cfg.minor_ticks
            invariant
                cfg.wf(),
                subdivisions == cfg.minor_ticks + 1,
                den == cfg.major_ticks * subdivisions,
                den <= 1024 * 1025,
                k < cfg.major_ticks,
                base == k * subdivisions,
                base <= 1023 * 1025,
                m <= cfg.minor_ticks,
                r@.len() == k * cfg.minor_ticks + m,
                forall|j: int| 0 <= j < r@.len() ==> r@[j] == spec_minor_segment(*cfg, j),
            decreases cfg.minor_ticks - m,
        {
            let ghost j = r@.len() as int;
            r.push(
                RadialSegment {
                    angle: Turn { num: base + (m + 1), den },
                    inner_milli: cfg.minor_inner_milli,
                    outer_milli: cfg.minor_outer_milli,
                },
            );
            proof {
                vstd::arithmetic::div_mod::lemma_fundamental_div_mod_converse_div(
                    j,
                    cfg.minor_ticks as int,
                    k as int,
                    m as int,
                );
                vstd::arithmetic::div_mod::lemma_fundamental_div_mod_converse_mod(
                    j,
                    cfg.minor_ticks as int,
                    k as int,
                    m as int,
                );
                assert(r@[j] == spec_minor_segment(*cfg, j));
            }
            m = m + 1;
        }
        k = k + 1;
    }
    proof {
        assert(cfg.major_ticks * cfg.minor_ticks == (cfg.major_ticks as int)
            * (cfg.minor_ticks as int));
    }
    r
}

/// The clock-face drawing component: the fixed dial layout and the two hand
/// angles, refreshed by `set_time` and rasterized by `draw`.
#[derive(Clone, Debug, PartialEq, Eq, Structural)]
pub struct ClockFace {
    pub config: Config,
    pub hour_angle: Turn,
    pub minute_angle: Turn,
}

impl ClockFace {
    pub open spec fn wf(self) -> bool {
        self.config.wf() && self.hour_angle.wf() && self.minute_angle.wf()
    }

    /// A fresh dial with the default layout and both hands at angle zero.
    pub fn new() -> (r: ClockFace)
        ensures
            r.config == Config::spec_default(),
            r.hour_angle == (Turn { num: 0u32, den: crate::wallclock::SECONDS_PER_DAY }),
            r.minute_angle == (Turn { num: 0u32, den: crate::wallclock::SECONDS_PER_HOUR }),
            r.wf(),
    {
        ClockFace {
            config: Config::default(),
            hour_angle: Turn { num: 0, den: crate::wallclock::SECONDS_PER_DAY },
            minute_angle: Turn { num: 0, den: crate::wallclock::SECONDS_PER_HOUR },
        }
    }

    /// Stores the hand angles for the given time of day; nothing is drawn
    /// until the next `draw`.
    pub fn set_time(&mut self, time: &crate::wallclock::TimeOfDay)
        requires
            time.wf(),
        ensures
            final(self).hour_angle == time.spec_hour_hand_angle(),
            final(self).minute_angle == time.spec_minute_hand_angle(),
            final(self).config == old(self).config,
            old(self).config.wf() ==> final(self).wf(),
    {
        self.hour_angle = time.hour_hand_angle();
        self.minute_angle = time.minute_hand_angle();
    }

    /// The stroke plan of this frame: exactly `spec_stroke_plan` of the
    /// configuration and the current hand angles. Rasterizing it — clear to
    /// transparent, then stroke each command in order — is therefore a pure
    /// function of the two hand angles and the fixed dial layout.
    pub fn draw(&self) -> (r: Vec<StrokeCommand>)
        requires
            self.wf(),
        ensures
            r@.len() == spec_stroke_plan(self.config, self.hour_angle, self.minute_angle).len(),
            forall|i: int|
                0 <= i < r@.len() ==> (#[trigger] r@[i]).width_milli == spec_stroke_plan(
                    self.config,
                    self.hour_angle,
                    self.minute_angle,
                )[i].0 && r@[i].segments@ =~= spec_stroke_plan(
                    self.config,
                    self.hour_angle,
                    self.minute_angle,
                )[i].1,
    {
        let major = StrokeCommand {
            width_milli: MAJOR_STROKE_WIDTH_MILLI,
            segments: major_tick_segments(&self.config),
        };
        let minor = StrokeCommand {
            width_milli: MINOR_STROKE_WIDTH_MILLI,
            segments: minor_tick_segments(&self.config),
        };
        let mut hour_segments: Vec<RadialSegment> = Vec::new();
        hour_segments.push(
            RadialSegment {
                angle: self.hour_angle,
                inner_milli: 0,
                outer_milli: self.config.hour_hand_milli,
            },
        );
        let hour = StrokeCommand { width_milli: MAJOR_STROKE_WIDTH_MILLI, segments: hour_segments };
        let mut minute_segments: Vec<RadialSegment> = Vec::new();
        minute_segments.push(
            RadialSegment {
                angle: self.minute_angle,
                inner_milli: 0,
                outer_milli: self.config.minute_hand_milli,
            },
        );
        let minute = StrokeCommand {
            width_milli: MINOR_STROKE_WIDTH_MILLI,
            segments: minute_segments,
        };
        let mut r: Vec<StrokeCommand> = Vec::new();
        r.push(major);
        r.push(minor);
        r.push(hour);
        r.push(minute);
        r
    }
}

/// Rasterization is a pure function of the hand angles: two frames drawn
/// from the same dial layout and the same hour and minute angles have the
/// same stroke plan, and so — the buffer being cleared before each frame —
/// pixel-identical output.
pub proof fn lemma_rasterization_pure(a: ClockFace, b: ClockFace)
    requires
        a.config == b.config,
        a.hour_angle == b.hour_angle,
        a.minute_angle == b.minute_angle,
    ensures
        spec_stroke_plan(a.config, a.hour_angle, a.minute_angle) == spec_stroke_plan(
            b.config,
            b.hour_angle,
            b.minute_angle,
        ),
{
}

} // verus!
