//! The globe layer: day/night shading parameters derived from calendar time.
//!
//! The globe itself is shaded on the GPU; this component's whole job is to
//! keep the shader's uniform block up to date. Two of its fields move with
//! time:
//!
//! - the spin angle, one revolution per day with a fixed phase lead of a
//!   quarter turn (six hours), so that angle zero corresponds to 06:00 UTC
//!   and the lit hemisphere faces the sun realistically;
//! - the axial tilt, `23.4° × sin(phase)` where the phase runs once around
//!   per 365-day year, shifted so that it crosses zero near the vernal
//!   equinox (day 78 of the year).
//!
//! Both are held exactly: the spin as a fraction of a turn over seconds of
//! the day, the seasonal phase as a fraction of a turn over days of the
//! year. Only the final sine and radian conversions are floating point, and
//! they happen in the shell.

use vstd::prelude::*;

use crate::angle::Turn;
use crate::wallclock::{DAYS_PER_YEAR, SECONDS_PER_DAY, UtcInstant};

verus! {

/// Phase lead of the spin angle: a quarter turn, i.e. six hours of spin.
pub const ROTATION_OFFSET_SECONDS: u32 = 21600;

/// Day of the year (counted from zero) on which the seasonal phase crosses
/// zero: an approximation of the vernal equinox. The phase shift of minus
/// 78 days is carried as plus 287, the same shift modulo one year.
pub const EQUINOX_DAY_OF_YEAR: u32 = 78;

/// The tilt amplitude, in thousandths of a degree: ±23.4°.
pub const MAX_AXIAL_TILT_MILLIDEG: u32 = 23400;

/// Latitude clipping bounds of the shaded sphere, in degrees.
pub const MIN_LATITUDE_DEG: i32 = -90;

pub const MAX_LATITUDE_DEG: i32 = 90;

/// The globe's local placement transform: a uniform scale in thousandths.
pub const LOCAL_SCALE_MILLI: u32 = 800;

/// The fixed "deflection point" shading parameter, in thousandths.
pub const DEFLECTION_X_MILLI: u32 = 550;

pub const DEFLECTION_Y_MILLI: u32 = 650;

/// The globe shader's uniform block, with every angle held exactly. The
/// shell converts it field by field: `rotation` and the seasonal tilt
/// `23.4° × sin(tilt_phase)` to radians, the remaining ratios to `f32`.
#[derive(Clone, Copy, Debug, PartialEq, Eq, Structural)]
pub struct GlobeUniforms {
    /// Spin angle: a fraction of a turn over the seconds of a day.
    pub rotation: Turn,
    /// Argument of the seasonal sinusoid: a fraction of a turn over the
    /// days of a year.
    pub tilt_phase: Turn,
    pub max_tilt_millideg: u32,
    pub min_latitude_deg: i32,
    pub max_latitude_deg: i32,
    pub local_scale_milli: u32,
    pub deflection_x_milli: u32,
    pub deflection_y_milli: u32,
}

impl GlobeUniforms {
    pub open spec fn wf(self) -> bool {
        self.rotation.wf() && self.tilt_phase.wf()
    }

    /// The uniforms before the first `set_date`: zero spin and zero phase,
    /// with the fixed shading parameters already in place.
    pub open spec fn spec_initial() -> GlobeUniforms {
        GlobeUniforms {
            rotation: Turn { num: 0, den: SECONDS_PER_DAY },
            tilt_phase: Turn { num: 0, den: DAYS_PER_YEAR },
            max_tilt_millideg: MAX_AXIAL_TILT_MILLIDEG,
            min_latitude_deg: MIN_LATITUDE_DEG,
            max_latitude_deg: MAX_LATITUDE_DEG,
            local_scale_milli: LOCAL_SCALE_MILLI,
            deflection_x_milli: DEFLECTION_X_MILLI,
            deflection_y_milli: DEFLECTION_Y_MILLI,
        }
    }
}

/// The spin angle at `day_seconds` past UTC midnight: the fraction of the
/// day elapsed, led by a quarter turn.
pub open spec fn spec_rotation(day_seconds: u32) -> Turn {
    Turn {
        num: ((day_seconds + ROTATION_OFFSET_SECONDS) % (SECONDS_PER_DAY as int)) as u32,
        den: SECONDS_PER_DAY,
    }
}

/// The seasonal phase on day `day_of_year0` of the year: the fraction of
/// the year elapsed since the vernal equinox.
pub open spec fn spec_tilt_phase(day_of_year0: u32) -> Turn {
    Turn {
        num: ((day_of_year0 + (DAYS_PER_YEAR - EQUINOX_DAY_OF_YEAR)) % (
        DAYS_PER_YEAR as int)) as u32,
        den: DAYS_PER_YEAR,
    }
}

/// The globe drawing component: the current uniform block, mutated once per
/// frame by `set_date` and read back by `draw`.
#[derive(Clone, Copy, Debug, PartialEq, Eq, Structural)]
pub struct Globe {
    pub uniforms: GlobeUniforms,
}

impl Globe {
    pub open spec fn wf(self) -> bool {
        self.uniforms.wf()
    }

    pub fn new() -> (r: Globe)
        ensures
            r.uniforms == GlobeUniforms::spec_initial(),
            r.wf(),
    {
        Globe {
            uniforms: GlobeUniforms {
                rotation: Turn { num: 0, den: SECONDS_PER_DAY },
                tilt_phase: Turn { num: 0, den: DAYS_PER_YEAR },
                max_tilt_millideg: MAX_AXIAL_TILT_MILLIDEG,
                min_latitude_deg: MIN_LATITUDE_DEG,
                max_latitude_deg: MAX_LATITUDE_DEG,
                local_scale_milli: LOCAL_SCALE_MILLI,
                deflection_x_milli: DEFLECTION_X_MILLI,
                deflection_y_milli: DEFLECTION_Y_MILLI,
            },
        }
    }

    /// Recomputes the spin angle and the seasonal phase for the given UTC
    /// instant; the fixed shading parameters are untouched.
    pub fn set_date(&mut self, date: &UtcInstant)
        requires
            date.wf(),
        ensures
            final(self).uniforms == (GlobeUniforms {
                rotation: spec_rotation(date.day_seconds),
                tilt_phase: spec_tilt_phase(date.day_of_year0),
                ..old(self).uniforms
            }),
            final(self).wf(),
    {
        self.uniforms.rotation = Turn {
            num: (date.day_seconds + ROTATION_OFFSET_SECONDS) % SECONDS_PER_DAY,
            den: SECONDS_PER_DAY,
        };
        self.uniforms.tilt_phase = Turn {
            num: (date.day_of_year0 + (DAYS_PER_YEAR - EQUINOX_DAY_OF_YEAR)) % DAYS_PER_YEAR,
            den: DAYS_PER_YEAR,
        };
    }

    /// The uniform block to upload for this frame: exactly the current one.
    pub fn draw(&self) -> (u: GlobeUniforms)
        ensures
            u == self.uniforms,
    {
        self.uniforms
    }
}

/// The spin angle at a running count of UTC seconds.
pub open spec fn spec_rotation_at(total_seconds: nat) -> Turn {
    spec_rotation((total_seconds % (SECONDS_PER_DAY as nat)) as u32)
}

/// The globe's rotation is periodic with a period of exactly one day.
pub proof fn lemma_rotation_daily_period(total_seconds: nat)
    ensures
        spec_rotation_at((total_seconds + SECONDS_PER_DAY) as nat) == spec_rotation_at(
            total_seconds,
        ),
{
    vstd::arithmetic::div_mod::lemma_mod_add_multiples_vanish(
        total_seconds as int,
        SECONDS_PER_DAY as int,
    );
}

/// The seasonal phase at a running count of days.
pub open spec fn spec_tilt_phase_at(total_days: nat) -> Turn {
    spec_tilt_phase((total_days % (DAYS_PER_YEAR as nat)) as u32)
}

/// The axial tilt is driven by the seasonal phase alone, which is periodic
/// with a period of exactly 365 days.
pub proof fn lemma_tilt_phase_yearly_period(total_days: nat)
    ensures
        spec_tilt_phase_at((total_days + DAYS_PER_YEAR) as nat) == spec_tilt_phase_at(total_days),
{
    vstd::arithmetic::div_mod::lemma_mod_add_multiples_vanish(
        total_days as int,
        DAYS_PER_YEAR as int,
    );
}

/// At UTC midnight the spin angle is exactly the fixed phase lead: a
/// quarter turn.
pub proof fn lemma_rotation_at_midnight_is_offset()
    ensures
        spec_rotation(0).num * 4 == spec_rotation(0).den,
{
}

} // verus!
