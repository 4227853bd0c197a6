use vstd::prelude::*;

verus! {

/// How the vibration alarm shakes the bed.
#[derive(Clone, Copy, Debug, PartialEq, Eq, Structural)]
pub enum VibrationPattern {
    /// heavy
    Double,
    /// gentle
    Rise,
}

impl VibrationPattern {
    /// The tag the device and the settings document use for the pattern.
    pub open spec fn name(self) -> Seq<char> {
        match self {
            VibrationPattern::Double => "double"@,
            VibrationPattern::Rise => "rise"@,
        }
    }

    pub fn to_string(&self) -> (r: String)
        ensures
            r@ == self.name(),
    {
        match self {
            VibrationPattern::Double => "double".to_owned(),
            VibrationPattern::Rise => "rise".to_owned(),
        }
    }
}

/// Payload of the command that arms the vibration alarm.
#[derive(Clone, Debug)]
pub struct AlarmSettings {
    /// vibration intensity, percent
    pub pl: u8,
    /// duration in seconds
    pub du: u16,
    /// vibration pattern tag ("double" or "rise")
    pub pi: String,
    /// Unix epoch seconds at which the alarm fires
    pub tt: u64,
}

/// Which half of the bed a command addresses.
#[derive(Clone, Copy, Debug, PartialEq, Eq, Structural)]
pub enum BedSide {
    Left,
    Right,
    Both,
}

} // verus!
