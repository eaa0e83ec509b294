//! The decisions of the duty engine.
//!
//! The engine turns a temperature into a duty for the pump or a fan. What it
//! decides by comparing temperatures is decided here: which part of a curve
//! applies, whether the smart mode keeps the fans off, runs them at full
//! speed, or in between. The result is a [`DutyPlan`]; the arithmetic on
//! fractional numbers that turns a plan into a duty value is the caller's.
use crate::config::curve_rises;
use crate::model::FanSetting;
use crate::model::TempDuty;
use crate::single::Single;
use crate::single::HUNDRED_BITS;
use crate::single::MINUS_TWENTY_BITS;
use crate::single::ONE_BITS;
use crate::single::TWENTY_BITS;
use crate::single::TWENTY_TWO_BITS;
use vstd::prelude::*;

verus! {

/// Width, in degrees, of the band below the trigger temperature in which
/// running fans keep running: the number one.
pub const SWITCH_TEMP_BUFFER_BITS: u32 = ONE_BITS;

/// Ambient temperature below which the sensor counts as unplugged: minus twenty.
pub const AMBIENT_FLOOR_BITS: u32 = MINUS_TWENTY_BITS;

/// Ambient temperature taken in place of one below the floor: twenty-two.
pub const AMBIENT_DEFAULT_BITS: u32 = TWENTY_TWO_BITS;

/// Duty, in percent, at the trigger temperature of the smart mode: twenty.
pub const SMART_FLOOR_DUTY_BITS: u32 = TWENTY_BITS;

/// Duty, in percent, at the upper temperature of the smart mode: a hundred.
pub const SMART_FULL_DUTY_BITS: u32 = HUNDRED_BITS;

/// What the engine decided for one temperature.
#[derive(Debug, Copy, Clone, PartialEq, Eq)]
pub enum DutyPlan {
    /// Duty zero.
    Off,
    /// The largest duty value of the caller's range.
    Full,
    /// The given percentage of the caller's range.
    Percent(Single),
    /// The percentage at the temperature on the line from the first control
    /// point to the second.
    Between(TempDuty, TempDuty),
}

impl FanSetting {
    /// The plan of the curve at `temp`: below the first point its duty, from
    /// the last point on the duty of the last, else the line between the two
    /// points that bracket `temp`. A NaN is below no point.
    pub open spec fn plan_at(self, temp: Single) -> DutyPlan {
        if temp.below(self.curve[0].0) {
            DutyPlan::Percent(self.curve[0].1)
        } else if temp.below(self.curve[1].0) {
            DutyPlan::Between(self.curve[0], self.curve[1])
        } else if temp.below(self.curve[2].0) {
            DutyPlan::Between(self.curve[1], self.curve[2])
        } else if temp.below(self.curve[3].0) {
            DutyPlan::Between(self.curve[2], self.curve[3])
        } else {
            DutyPlan::Percent(self.curve[3].1)
        }
    }

    /// What the curve asks for at `temp`.
    pub fn duty_plan(&self, temp: Single) -> (r: DutyPlan)
        ensures
            r == self.plan_at(temp),
    {
        if temp.lt(&self.curve[0].0) {
            DutyPlan::Percent(self.curve[0].1)
        } else if temp.lt(&self.curve[1].0) {
            DutyPlan::Between(self.curve[0], self.curve[1])
        } else if temp.lt(&self.curve[2].0) {
            DutyPlan::Between(self.curve[1], self.curve[2])
        } else if temp.lt(&self.curve[3].0) {
            DutyPlan::Between(self.curve[2], self.curve[3])
        } else {
            DutyPlan::Percent(self.curve[3].1)
        }
    }

    /// On a valid curve the plan is the line of the one segment that holds the
    /// temperature: a line is planned exactly for a temperature that is a
    /// number from the first point up to, and without, the last, and the
    /// line's two points are neighbours on the curve, the first at or below
    /// the temperature, the second above it.
    pub proof fn lemma_plan_brackets(self, temp: Single)
        requires
            self.valid(),
        ensures
            self.plan_at(temp) is Between <==> self.curve[0].0.at_most(temp) && temp.below(
                self.curve[3].0,
            ),
            self.plan_at(temp) matches DutyPlan::Between(low, high) ==> low.0.at_most(temp)
                && temp.below(high.0) && exists|i: int|
                0 <= i < 3 && low == #[trigger] self.curve[i] && high == self.curve[i + 1],
            temp.below(self.curve[0].0) ==> self.plan_at(temp) == DutyPlan::Percent(
                self.curve[0].1,
            ),
            self.curve[3].0.at_most(temp) ==> self.plan_at(temp) == DutyPlan::Percent(
                self.curve[3].1,
            ),
    {
        assert(curve_rises(self.curve));
        let c = self.curve;
        assert(c[0].0.below(c[1].0) && c[1].0.below(c[2].0) && c[2].0.below(c[3].0)) by {
            assert(crate::config::step_rises(c[0int], c[0int + 1]));
            assert(crate::config::step_rises(c[1int], c[1int + 1]));
            assert(crate::config::step_rises(c[2int], c[2int + 1]));
        }
        match self.plan_at(temp) {
            DutyPlan::Between(low, high) => {
                if temp.below(c[1].0) {
                    assert(low == c[0] && high == c[0int + 1]);
                } else if temp.below(c[2].0) {
                    assert(low == c[1] && high == c[1int + 1]);
                } else {
                    assert(low == c[2] && high == c[2int + 1]);
                }
            },
            _ => {},
        }
    }
}

/// The ambient temperature that the engine works with: the measured one, or
/// twenty-two degrees where the measured one is below minus twenty, which
/// only an unplugged sensor reports.
pub open spec fn ambient_or_default(ambient_temp: Single) -> Single {
    if ambient_temp.below(Single::whole(-20)) {
        Single::whole(22)
    } else {
        ambient_temp
    }
}

/// The ambient temperature that the engine works with.
pub fn sane_ambient(ambient_temp: Single) -> (r: Single)
    ensures
        r == ambient_or_default(ambient_temp),
{
    proof {
        Single::lemma_named_patterns();
    }
    if ambient_temp.lt(&Single::from_bits(AMBIENT_FLOOR_BITS)) {
        Single::from_bits(AMBIENT_DEFAULT_BITS)
    } else {
        ambient_temp
    }
}

/// The plan of the smart mode. `trigger_temp` is the ambient temperature plus
/// the configured distance, `release_temp` is `trigger_temp` less the switch
/// buffer. Running fans are switched off at or below `release_temp`, stopped
/// fans stay off at or below `trigger_temp`; otherwise the fans run at full
/// speed from `max_temp` on, and below it on the line from twenty percent at
/// `trigger_temp` to a hundred percent at `max_temp`.
pub open spec fn smart_plan_at(
    temp: Single,
    trigger_temp: Single,
    release_temp: Single,
    max_temp: Single,
    is_running: bool,
) -> DutyPlan {
    if is_running && temp.at_most(release_temp) {
        DutyPlan::Off
    } else if !is_running && temp.at_most(trigger_temp) {
        DutyPlan::Off
    } else if max_temp.at_most(temp) {
        DutyPlan::Full
    } else {
        DutyPlan::Between((trigger_temp, Single::whole(20)), (max_temp, Single::whole(100)))
    }
}

/// What the smart mode asks for at `temp`.
pub fn smart_duty_plan(
    temp: Single,
    trigger_temp: Single,
    release_temp: Single,
    max_temp: Single,
    is_running: bool,
) -> (r: DutyPlan)
    ensures
        r == smart_plan_at(temp, trigger_temp, release_temp, max_temp, is_running),
{
    proof {
        Single::lemma_named_patterns();
    }
    if is_running && temp.le(&release_temp) {
        return DutyPlan::Off;
    }
    if !is_running && temp.le(&trigger_temp) {
        return DutyPlan::Off;
    }
    if temp.ge(&max_temp) {
        return DutyPlan::Full;
    }
    DutyPlan::Between(
        (trigger_temp, Single::from_bits(SMART_FLOOR_DUTY_BITS)),
        (max_temp, Single::from_bits(SMART_FULL_DUTY_BITS)),
    )
}

/// The band between the release and the trigger temperature keeps the state:
/// at a temperature above the first and at or below the second, stopped fans
/// stay off and running fans are not switched off. At or below the release
/// temperature the fans are off whatever the state, provided it does not lie
/// above the trigger temperature.
pub proof fn lemma_hysteresis(
    temp: Single,
    trigger_temp: Single,
    release_temp: Single,
    max_temp: Single,
)
    ensures
        release_temp.below(temp) && temp.at_most(trigger_temp) ==> smart_plan_at(
            temp,
            trigger_temp,
            release_temp,
            max_temp,
            false,
        ) == DutyPlan::Off && smart_plan_at(temp, trigger_temp, release_temp, max_temp, true)
            != DutyPlan::Off,
        temp.at_most(release_temp) && release_temp.at_most(trigger_temp) ==> smart_plan_at(
            temp,
            trigger_temp,
            release_temp,
            max_temp,
            false,
        ) == DutyPlan::Off && smart_plan_at(temp, trigger_temp, release_temp, max_temp, true)
            == DutyPlan::Off,
{
}

} // verus!
