use vstd::prelude::*;

verus! {

/// Kelvin at and below which the warm branch of the fit applies.
pub const WARM_LIMIT_KELVIN: u32 = 6600;

/// Kelvin at and below which blue is fully off.
pub const BLUE_OFF_KELVIN: u32 = 1900;

/// An 8-bit-per-channel colour.
#[derive(PartialEq, Eq, Structural, Clone, Copy, Debug)]
pub struct Rgb {
    pub red: u8,
    pub green: u8,
    pub blue: u8,
}

/// The colour temperature could not be converted.
#[derive(PartialEq, Eq, Structural, Clone, Copy, Debug)]
pub enum ColorError {
    /// A colour temperature of zero mireds has no Kelvin value.
    ZeroMireds,
}

/// Values of the empirical curves at one temperature, each truncated toward
/// zero to an integer but not yet clamped.
///
/// `warm_green` is the logarithmic green curve used at and below 6600 K;
/// `cool_red` and `cool_green` are the power curves used above it;
/// `mid_blue` is the logarithmic blue curve used strictly between 1900 K and
/// 6600 K.
#[derive(PartialEq, Eq, Structural, Clone, Copy, Debug)]
pub struct CurveSamples {
    pub warm_green: i64,
    pub cool_red: i64,
    pub cool_green: i64,
    pub mid_blue: i64,
}

/// `v` held to the closed range 0..=255.
pub open spec fn clamp_channel(v: int) -> u8 {
    if v < 0 {
        0
    } else if v > 255 {
        255
    } else {
        v as u8
    }
}

pub open spec fn red_of(kelvin: u32, s: CurveSamples) -> u8 {
    if kelvin <= WARM_LIMIT_KELVIN {
        255
    } else {
        clamp_channel(s.cool_red as int)
    }
}

pub open spec fn green_of(kelvin: u32, s: CurveSamples) -> u8 {
    if kelvin <= WARM_LIMIT_KELVIN {
        clamp_channel(s.warm_green as int)
    } else {
        clamp_channel(s.cool_green as int)
    }
}

pub open spec fn blue_of(kelvin: u32, s: CurveSamples) -> u8 {
    if kelvin >= WARM_LIMIT_KELVIN {
        255
    } else if kelvin <= BLUE_OFF_KELVIN {
        0
    } else {
        clamp_channel(s.mid_blue as int)
    }
}

/// The Kelvin value of a colour temperature given in mireds.
pub open spec fn kelvin_of(mireds: u32) -> u32
    recommends
        mireds != 0,
{
    (1_000_000u32 / mireds) as u32
}

/// Converts mireds to Kelvin by integer division, refusing zero.
pub fn kelvin_from_mireds(mireds: u32) -> (r: Result<u32, ColorError>)
    ensures
        mireds == 0 <==> r is Err,
        r matches Err(e) ==> e == ColorError::ZeroMireds,
        r matches Ok(k) ==> k == kelvin_of(mireds),
{
    if mireds == 0 {
        Err(ColorError::ZeroMireds)
    } else {
        Ok(1_000_000 / mireds)
    }
}

fn clamp_sample(v: i64) -> (r: u8)
    ensures
        r == clamp_channel(v as int),
{
    if v < 0 {
        0
    } else if v > 255 {
        255
    } else {
        v as u8
    }
}

/// Picks, for each channel, the fixed value or the curve that the two-branch
/// fit prescribes at `kelvin`, clamping curve values to 0..=255.
pub fn color_temperature_to_rgb(kelvin: u32, samples: &CurveSamples) -> (r: Rgb)
    ensures
        r.red == red_of(kelvin, *samples),
        r.green == green_of(kelvin, *samples),
        r.blue == blue_of(kelvin, *samples),
        kelvin <= WARM_LIMIT_KELVIN ==> r.red == 255,
        kelvin <= BLUE_OFF_KELVIN ==> r.blue == 0,
        kelvin >= WARM_LIMIT_KELVIN ==> r.blue == 255,
{
    let red = if kelvin <= WARM_LIMIT_KELVIN {
        255
    } else {
        clamp_sample(samples.cool_red)
    };
    let green = if kelvin <= WARM_LIMIT_KELVIN {
        clamp_sample(samples.warm_green)
    } else {
        clamp_sample(samples.cool_green)
    };
    let blue = if kelvin >= WARM_LIMIT_KELVIN {
        255
    } else if kelvin <= BLUE_OFF_KELVIN {
        0
    } else {
        clamp_sample(samples.mid_blue)
    };
    Rgb { red, green, blue }
}

} // verus!
