use vstd::prelude::*;

verus! {

/// A whole percentage, 0 to 100 inclusive.
#[derive(PartialEq, Eq, Structural, Clone, Copy, Debug)]
pub struct Percentage(u8);

/// Rejection of a value above 100.
#[derive(PartialEq, Eq, Structural, Clone, Copy, Debug)]
pub enum PercentageError {
    OutOfRange(u8),
}

impl Percentage {
    pub closed spec fn view(&self) -> nat {
        self.0 as nat
    }

    pub open spec fn wf(&self) -> bool {
        self@ <= 100
    }

    /// Accepts `v` exactly when it lies in 0..=100.
    pub fn new(v: u8) -> (r: Result<Percentage, PercentageError>)
        ensures
            v <= 100 <==> r is Ok,
            r matches Ok(p) ==> p@ == v && p.wf(),
            r matches Err(e) ==> e == PercentageError::OutOfRange(v),
    {
        if v <= 100 {
            Ok(Percentage(v))
        } else {
            Err(PercentageError::OutOfRange(v))
        }
    }

    /// Zero percent.
    pub fn zero() -> (r: Percentage)
        ensures
            r@ == 0,
            r.wf(),
    {
        Percentage(0)
    }

    /// Scales `value` on the range 0..=`max` to a whole percentage, rounding
    /// down; `None` where `value` exceeds `max`.
    pub fn scaled(value: u32, max: u32) -> (r: Option<Percentage>)
        requires
            max > 0,
        ensures
            value <= max <==> r is Some,
            r matches Some(p) ==> p@ == value * 100 / max as int && p.wf(),
    {
        if value > max {
            return None;
        }
        let v: u64 = value as u64 * 100 / max as u64;
        assert(value * 100 / max as int <= 100) by (nonlinear_arith)
            requires
                value <= max,
                max > 0,
        ;
        Some(Percentage(v as u8))
    }

    /// The raw backlight level for this percentage of `max`, rounding down.
    pub fn backlight_level(&self, max: u32) -> (r: u32)
        requires
            self.wf(),
        ensures
            r == self@ * max / 100,
    {
        assert(self@ * max <= 100 * max && self@ * max / 100 <= max) by (nonlinear_arith)
            requires
                self@ <= 100,
        ;
        let level: u64 = self.0 as u64 * max as u64 / 100;
        level as u32
    }

    /// The percentage as an integer.
    pub fn value(&self) -> (r: u8)
        ensures
            r == self@,
    {
        self.0
    }
}

} // verus!
