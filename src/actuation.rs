use vstd::prelude::*;
use crate::color::{kelvin_from_mireds, kelvin_of, ColorError};
use crate::percentage::Percentage;
use crate::state::{OnOff, State, BRIGHTNESS_SCALE};

verus! {

/// Monitor control code of the brightness feature.
pub const VCP_BRIGHTNESS: u8 = 0x10;

/// Monitor control code of the power feature.
pub const VCP_POWER: u8 = 0xD6;

/// The value written to the power feature for each power state.
pub fn ddc_power_value(p: OnOff) -> (r: u16)
    ensures
        p == OnOff::On ==> r == 1,
        p == OnOff::Off ==> r == 5,
{
    match p {
        OnOff::On => 1,
        OnOff::Off => 5,
    }
}

/// One call on the hardware.
#[derive(PartialEq, Eq, Structural, Clone, Copy, Debug)]
pub enum Actuation {
    /// Power every display on or off; a failure is fatal.
    Power(OnOff),
    /// Set the brightness of every display (fatal on failure) and of the
    /// kernel backlight (failure is only reported).
    Brightness(Percentage),
    /// Paint the overlay with the colour of this many Kelvin.
    Paint(u32),
}

/// Why a state cannot be applied in full.
#[derive(PartialEq, Eq, Structural, Clone, Copy, Debug)]
pub enum ApplyError {
    /// The brightness lies beyond the brightness scale.
    BrightnessOutOfRange(u32),
    Color(ColorError),
}

/// The calls that apply a state, in order, and the failure met after them,
/// if any.
#[derive(Clone, Debug)]
pub struct Plan {
    pub steps: Vec<Actuation>,
    pub failure: Option<ApplyError>,
}

/// The brightness of `state` as a percentage of the brightness scale.
pub open spec fn brightness_percent(b: u32) -> int {
    b * 100 / BRIGHTNESS_SCALE as int
}

/// What applying `state` does: when off, dim to zero and then power off; when
/// on, power on, then set the scaled brightness, then paint the colour of its
/// temperature. A value that cannot be converted stops the plan where its
/// step would come.
pub open spec fn plan_of(state: State, steps: Seq<Actuation>, failure: Option<ApplyError>) -> bool {
    match state.state {
        OnOff::Off => {
            &&& steps.len() == 2
            &&& steps[0] matches Actuation::Brightness(p) && p@ == 0
            &&& steps[1] == Actuation::Power(OnOff::Off)
            &&& failure is None
        },
        OnOff::On => {
            &&& steps.len() >= 1
            &&& steps[0] == Actuation::Power(OnOff::On)
            &&& if state.brightness > BRIGHTNESS_SCALE {
                &&& steps.len() == 1
                &&& failure == Some(ApplyError::BrightnessOutOfRange(state.brightness))
            } else {
                &&& steps.len() >= 2
                &&& steps[1] matches Actuation::Brightness(p) && p@ == brightness_percent(
                    state.brightness,
                )
                &&& if state.color_temp == 0 {
                    &&& steps.len() == 2
                    &&& failure == Some(ApplyError::Color(ColorError::ZeroMireds))
                } else {
                    &&& steps.len() == 3
                    &&& steps[2] == Actuation::Paint(kelvin_of(state.color_temp))
                    &&& failure is None
                }
            }
        },
    }
}

/// Plans the hardware calls that realise `state`.
pub fn apply_state(state: &State) -> (r: Plan)
    ensures
        plan_of(*state, r.steps@, r.failure),
        r.steps@.len() > 0,
{
    let mut steps: Vec<Actuation> = Vec::new();
    match state.state {
        OnOff::Off => {
            steps.push(Actuation::Brightness(Percentage::zero()));
            steps.push(Actuation::Power(OnOff::Off));
            Plan { steps, failure: None }
        },
        OnOff::On => {
            steps.push(Actuation::Power(OnOff::On));
            let level = match Percentage::scaled(state.brightness, BRIGHTNESS_SCALE) {
                Some(p) => p,
                None => {
                    return Plan {
                        steps,
                        failure: Some(ApplyError::BrightnessOutOfRange(state.brightness)),
                    };
                },
            };
            steps.push(Actuation::Brightness(level));
            match kelvin_from_mireds(state.color_temp) {
                Ok(kelvin) => {
                    steps.push(Actuation::Paint(kelvin));
                    Plan { steps, failure: None }
                },
                Err(e) => Plan { steps, failure: Some(ApplyError::Color(e)) },
            }
        },
    }
}

} // verus!
