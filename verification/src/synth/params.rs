//! The interpolation method and the channel that it is set for.
use crate::types::Chan;
use vstd::prelude::*;

verus! {

/// Flags to choose the interpolation method
#[derive(Debug, Clone, Copy, PartialEq, Eq, Hash)]
pub enum InterpMethod {
    /// No interpolation: Fastest, but questionable audio quality
    Unfiltered,
    /// Straight-line interpolation: A bit slower, reasonable audio quality
    Linear,
    /// Fourth-order interpolation: Requires 50% of the whole DSP processing
    /// time, good quality (default)
    FourthOrder,
    /// Seventh-order interpolation
    SeventhOrder,
}

impl InterpMethod {
    /// The integer that stands for the method: its order.
    pub open spec fn code(self) -> int {
        match self {
            InterpMethod::Unfiltered => 0,
            InterpMethod::Linear => 1,
            InterpMethod::FourthOrder => 4,
            InterpMethod::SeventhOrder => 7,
        }
    }

    /// The method that the integer `code` stands for, if it stands for one.
    pub open spec fn decode(code: int) -> Option<InterpMethod> {
        if code == 0 {
            Some(InterpMethod::Unfiltered)
        } else if code == 1 {
            Some(InterpMethod::Linear)
        } else if code == 4 {
            Some(InterpMethod::FourthOrder)
        } else if code == 7 {
            Some(InterpMethod::SeventhOrder)
        } else {
            None
        }
    }

    /// The integer that stands for the method.
    pub fn to_i32(self) -> (code: i32)
        ensures
            code == self.code(),
            Self::decode(code as int) == Some(self),
    {
        match self {
            InterpMethod::Unfiltered => 0,
            InterpMethod::Linear => 1,
            InterpMethod::FourthOrder => 4,
            InterpMethod::SeventhOrder => 7,
        }
    }

    /// The method that `code` stands for, if it stands for one.
    pub fn from_i32(code: i32) -> (method: Option<Self>)
        ensures
            method == Self::decode(code as int),
            method matches Some(x) ==> x.code() == code,
    {
        if code == 0 {
            Some(InterpMethod::Unfiltered)
        } else if code == 1 {
            Some(InterpMethod::Linear)
        } else if code == 4 {
            Some(InterpMethod::FourthOrder)
        } else if code == 7 {
            Some(InterpMethod::SeventhOrder)
        } else {
            None
        }
    }
}

impl Default for InterpMethod {
    fn default() -> (method: Self)
        ensures
            method == InterpMethod::FourthOrder,
    {
        InterpMethod::FourthOrder
    }
}

/// The channel argument of a call that is made for one channel
/// (`Some(chan)`) or for all channels (`None`): all channels are `-1`.
pub fn channel_selector(chan: Option<Chan>) -> (arg: i32)
    ensures
        arg == (match chan {
            Some(c) => c as i32,
            None => -1i32,
        }),
{
    match chan {
        Some(c) => c as i32,
        None => -1,
    }
}

} // verus!
