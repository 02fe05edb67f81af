//! The modulation waveform of the chorus unit.
use vstd::prelude::*;

verus! {

/// Chorus type
#[derive(Debug, Clone, Copy, PartialEq, Eq, Hash)]
pub enum ChorusMode {
    Sine,
    Triangle,
}

impl ChorusMode {
    /// The integer that stands for the mode.
    pub open spec fn code(self) -> int {
        match self {
            ChorusMode::Sine => 0,
            ChorusMode::Triangle => 1,
        }
    }

    /// The mode that the integer `code` stands for, if it stands for one.
    pub open spec fn decode(code: int) -> Option<ChorusMode> {
        if code == 0 {
            Some(ChorusMode::Sine)
        } else if code == 1 {
            Some(ChorusMode::Triangle)
        } else {
            None
        }
    }

    /// The integer that stands for the mode.
    pub fn to_i32(self) -> (code: i32)
        ensures
            code == self.code(),
            Self::decode(code as int) == Some(self),
    {
        match self {
            ChorusMode::Sine => 0,
            ChorusMode::Triangle => 1,
        }
    }

    /// The mode that `code` stands for, if it stands for one.
    pub fn from_i32(code: i32) -> (mode: Option<Self>)
        ensures
            mode == Self::decode(code as int),
            mode matches Some(x) ==> x.code() == code,
    {
        if code == 0 {
            Some(ChorusMode::Sine)
        } else if code == 1 {
            Some(ChorusMode::Triangle)
        } else {
            None
        }
    }
}

impl Default for ChorusMode {
    fn default() -> (mode: Self)
        ensures
            mode == ChorusMode::Sine,
    {
        ChorusMode::Sine
    }
}

/// The number of voices of the chorus unit unless it is set.
pub const CHORUS_DEFAULT_N: u32 = 3;

} // verus!
