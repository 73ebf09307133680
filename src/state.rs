use vstd::prelude::*;

verus! {

/// Highest value of the abstract brightness scale announced to the controller.
pub const BRIGHTNESS_SCALE: u32 = 254;

/// Lowest colour temperature, in mireds, announced to the controller.
pub const MIN_MIREDS: u32 = 155;

/// Highest colour temperature, in mireds, announced to the controller.
pub const MAX_MIREDS: u32 = 500;

/// Power state of the light.
#[derive(PartialEq, Eq, Structural, Clone, Copy, Debug)]
pub enum OnOff {
    On,
    Off,
}

impl OnOff {
    /// The wire tag of the power state.
    pub fn as_str(&self) -> (r: &'static str)
        ensures
            *self == OnOff::On ==> r@ == "ON"@,
            *self == OnOff::Off ==> r@ == "OFF"@,
    {
        match self {
            OnOff::On => "ON",
            OnOff::Off => "OFF",
        }
    }
}

/// The canonical device state, as persisted and published.
#[derive(Clone, Debug)]
pub struct State {
    pub brightness: u32,
    pub color_mode: String,
    pub color_temp: u32,
    pub linkquality: u32,
    pub state: OnOff,
    pub update_available: bool,
}

/// Field-wise equality of two device states; the sole trigger for publishing.
pub open spec fn same_state(a: State, b: State) -> bool {
    &&& a.brightness == b.brightness
    &&& a.color_mode@ == b.color_mode@
    &&& a.color_temp == b.color_temp
    &&& a.linkquality == b.linkquality
    &&& a.state == b.state
    &&& a.update_available == b.update_available
}

impl PartialEq for State {
    fn eq(&self, other: &State) -> (r: bool)
        ensures
            r == same_state(*self, *other),
    {
        self.brightness == other.brightness && self.color_mode == other.color_mode
            && self.color_temp == other.color_temp && self.linkquality == other.linkquality
            && self.state == other.state && self.update_available == other.update_available
    }
}

impl vstd::std_specs::cmp::PartialEqSpecImpl for State {
    open spec fn obeys_eq_spec() -> bool {
        true
    }

    open spec fn eq_spec(&self, other: &State) -> bool {
        same_state(*self, *other)
    }
}

/// A partial command: power is always given, the other fields only optionally.
#[derive(Clone, Copy, Debug)]
pub struct StateSet {
    pub state: OnOff,
    pub brightness: Option<u32>,
    pub color_temp: Option<u32>,
}

/// The state that results from applying command `c` to state `s`.
pub open spec fn merge(c: StateSet, s: State) -> State {
    State {
        brightness: match c.brightness {
            Some(b) => b,
            None => s.brightness,
        },
        color_mode: s.color_mode,
        color_temp: match c.color_temp {
            Some(t) => t,
            None => s.color_temp,
        },
        linkquality: s.linkquality,
        state: c.state,
        update_available: s.update_available,
    }
}

/// Applies a command to a state: power is always overwritten, brightness and
/// colour temperature only where the command carries them, and every other
/// field is carried over.
pub fn calculate_new_state(set_state: &StateSet, state: &State) -> (r: State)
    ensures
        r == merge(*set_state, *state),
        r.state == set_state.state,
        set_state.brightness is None ==> r.brightness == state.brightness,
        set_state.brightness matches Some(b) ==> r.brightness == b,
        set_state.color_temp is None ==> r.color_temp == state.color_temp,
        set_state.color_temp matches Some(t) ==> r.color_temp == t,
        r.color_mode@ == state.color_mode@,
        r.linkquality == state.linkquality,
        r.update_available == state.update_available,
{
    let brightness = match set_state.brightness {
        Some(b) => b,
        None => state.brightness,
    };
    let color_temp = match set_state.color_temp {
        Some(t) => t,
        None => state.color_temp,
    };
    State {
        brightness,
        color_mode: state.color_mode.clone(),
        color_temp,
        linkquality: state.linkquality,
        state: set_state.state,
        update_available: state.update_available,
    }
}

} // verus!
