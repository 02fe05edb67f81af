//! Generator (effect) numbers.
//!
//! A generator is known to the synthesizer by its number in the SoundFont
//! 2.01 specification, section 8.1.3.  The numbers that the specification
//! leaves unused or reserved stand for no generator.
use vstd::prelude::*;

verus! {

/// Generator (effect) numbers
#[derive(Debug, Clone, Copy, PartialEq, Eq, Hash)]
pub enum GenParam {
    /// Sample start address offset (0-32767)
    StartAddrOfs,
    /// Sample end address offset (-32767-0)
    EndAddrOfs,
    /// Sample loop start address offset (-32767-32767)
    StartLoopAddOfs,
    /// Sample loop end address offset (-32767-32767)
    EndLoopAddrOfs,
    /// Sample start address coarse offset (X 32768)
    StartAddrCoarseOfs,
    /// Modulation LFO to pitch
    ModLfoToPitch,
    /// Vibrato LFO to pitch
    VibLfoToPitch,
    /// Modulation envelope to pitch
    ModEnvToPitch,
    /// Filter cutoff
    FilterFc,
    /// Filter Q
    FilterQ,
    /// Modulation LFO to filter cutoff
    ModLfoToFilterFc,
    /// Modulation envelope to filter cutoff
    ModEnvToFilterFc,
    /// Sample end address coarse offset (X 32768)
    EndAddrCoarseOfs,
    /// Modulation LFO to volume
    ModLfoToVol,
    /// Chorus send amount
    ChorussEnd,
    /// Reverb send amount
    ReverbsEnd,
    /// Stereo panning
    Pan,
    /// Modulation LFO delay
    ModLfoDelay,
    /// Modulation LFO frequency
    ModLfoFreq,
    /// Vibrato LFO delay
    Viblfodelay,
    /// Vibrato LFO frequency
    VibLfoFreq,
    /// Modulation envelope delay
    ModEnvDelay,
    /// Modulation envelope attack
    ModEnvAttack,
    /// Modulation envelope hold
    ModEnvHold,
    /// Modulation envelope decay
    ModEnvDecay,
    /// Modulation envelope sustain
    ModEnvSustain,
    /// Modulation envelope release
    ModEnvRelease,
    /// Key to modulation envelope hold
    KeyToModEnvHold,
    /// Key to modulation envelope decay
    KeyToModEnvDecay,
    /// Volume envelope delay
    VolEnvDelay,
    /// Volume envelope attack
    VolEnvAttack,
    /// Volume envelope hold
    VolEnvHold,
    /// Volume envelope decay
    VolEnvDecay,
    /// Volume envelope sustain
    VolEnvSustain,
    /// Volume envelope release
    VolEnvRelease,
    /// Key to volume envelope hold
    KeyToVolEnvHold,
    /// Key to volume envelope decay
    KeyToVolEnvDecay,
    /// Instrument ID (shouldn't be set by user)
    Instrument,
    /// MIDI note range
    Keyrange,
    /// MIDI velocity range
    Velrange,
    /// Sample start loop address coarse offset (X 32768)
    Startloopaddrcoarseofs,
    /// Fixed MIDI note number
    Keynum,
    /// Fixed MIDI velocity value
    Velocity,
    /// Initial volume attenuation
    Attenuation,
    /// Sample end loop address coarse offset (X 32768)
    EndLoopAddrCoarseOfs,
    /// Coarse tuning
    CoarseTune,
    /// Fine tuning
    FineTune,
    /// Sample ID (shouldn't be set by user)
    SampleId,
    /// Sample mode flags
    SampleMode,
    /// Scale tuning
    ScaleTune,
    /// Exclusive class number
    ExclusiveClass,
    /// Sample root note override
    OverrideRootKey,
    /// Pitch, which is no SoundFont generator: it is the destination of the
    /// default pitch wheel modulator
    Pitch,
}

impl GenParam {
    /// The number of the generator.
    pub open spec fn code(self) -> int {
        match self {
            GenParam::StartAddrOfs => 0,
            GenParam::EndAddrOfs => 1,
            GenParam::StartLoopAddOfs => 2,
            GenParam::EndLoopAddrOfs => 3,
            GenParam::StartAddrCoarseOfs => 4,
            GenParam::ModLfoToPitch => 5,
            GenParam::VibLfoToPitch => 6,
            GenParam::ModEnvToPitch => 7,
            GenParam::FilterFc => 8,
            GenParam::FilterQ => 9,
            GenParam::ModLfoToFilterFc => 10,
            GenParam::ModEnvToFilterFc => 11,
            GenParam::EndAddrCoarseOfs => 12,
            GenParam::ModLfoToVol => 13,
            GenParam::ChorussEnd => 15,
            GenParam::ReverbsEnd => 16,
            GenParam::Pan => 17,
            GenParam::ModLfoDelay => 21,
            GenParam::ModLfoFreq => 22,
            GenParam::Viblfodelay => 23,
            GenParam::VibLfoFreq => 24,
            GenParam::ModEnvDelay => 25,
            GenParam::ModEnvAttack => 26,
            GenParam::ModEnvHold => 27,
            GenParam::ModEnvDecay => 28,
            GenParam::ModEnvSustain => 29,
            GenParam::ModEnvRelease => 30,
            GenParam::KeyToModEnvHold => 31,
            GenParam::KeyToModEnvDecay => 32,
            GenParam::VolEnvDelay => 33,
            GenParam::VolEnvAttack => 34,
            GenParam::VolEnvHold => 35,
            GenParam::VolEnvDecay => 36,
            GenParam::VolEnvSustain => 37,
            GenParam::VolEnvRelease => 38,
            GenParam::KeyToVolEnvHold => 39,
            GenParam::KeyToVolEnvDecay => 40,
            GenParam::Instrument => 41,
            GenParam::Keyrange => 43,
            GenParam::Velrange => 44,
            GenParam::Startloopaddrcoarseofs => 45,
            GenParam::Keynum => 46,
            GenParam::Velocity => 47,
            GenParam::Attenuation => 48,
            GenParam::EndLoopAddrCoarseOfs => 50,
            GenParam::CoarseTune => 51,
            GenParam::FineTune => 52,
            GenParam::SampleId => 53,
            GenParam::SampleMode => 54,
            GenParam::ScaleTune => 56,
            GenParam::ExclusiveClass => 57,
            GenParam::OverrideRootKey => 58,
            GenParam::Pitch => 59,
        }
    }

    /// The generator that the integer `code` stands for, if it stands for one.
    pub open spec fn decode(code: int) -> Option<GenParam> {
        if code == 0 {
            Some(GenParam::StartAddrOfs)
        } else if code == 1 {
            Some(GenParam::EndAddrOfs)
        } else if code == 2 {
            Some(GenParam::StartLoopAddOfs)
        } else if code == 3 {
            Some(GenParam::EndLoopAddrOfs)
        } else if code == 4 {
            Some(GenParam::StartAddrCoarseOfs)
        } else if code == 5 {
            Some(GenParam::ModLfoToPitch)
        } else if code == 6 {
            Some(GenParam::VibLfoToPitch)
        } else if code == 7 {
            Some(GenParam::ModEnvToPitch)
        } else if code == 8 {
            Some(GenParam::FilterFc)
        } else if code == 9 {
            Some(GenParam::FilterQ)
        } else if code == 10 {
            Some(GenParam::ModLfoToFilterFc)
        } else if code == 11 {
            Some(GenParam::ModEnvToFilterFc)
        } else if code == 12 {
            Some(GenParam::EndAddrCoarseOfs)
        } else if code == 13 {
            Some(GenParam::ModLfoToVol)
        } else if code == 15 {
            Some(GenParam::ChorussEnd)
        } else if code == 16 {
            Some(GenParam::ReverbsEnd)
        } else if code == 17 {
            Some(GenParam::Pan)
        } else if code == 21 {
            Some(GenParam::ModLfoDelay)
        } else if code == 22 {
            Some(GenParam::ModLfoFreq)
        } else if code == 23 {
            Some(GenParam::Viblfodelay)
        } else if code == 24 {
            Some(GenParam::VibLfoFreq)
        } else if code == 25 {
            Some(GenParam::ModEnvDelay)
        } else if code == 26 {
            Some(GenParam::ModEnvAttack)
        } else if code == 27 {
            Some(GenParam::ModEnvHold)
        } else if code == 28 {
            Some(GenParam::ModEnvDecay)
        } else if code == 29 {
            Some(GenParam::ModEnvSustain)
        } else if code == 30 {
            Some(GenParam::ModEnvRelease)
        } else if code == 31 {
            Some(GenParam::KeyToModEnvHold)
        } else if code == 32 {
            Some(GenParam::KeyToModEnvDecay)
        } else if code == 33 {
            Some(GenParam::VolEnvDelay)
        } else if code == 34 {
            Some(GenParam::VolEnvAttack)
        } else if code == 35 {
            Some(GenParam::VolEnvHold)
        } else if code == 36 {
            Some(GenParam::VolEnvDecay)
        } else if code == 37 {
            Some(GenParam::VolEnvSustain)
        } else if code == 38 {
            Some(GenParam::VolEnvRelease)
        } else if code == 39 {
            Some(GenParam::KeyToVolEnvHold)
        } else if code == 40 {
            Some(GenParam::KeyToVolEnvDecay)
        } else if code == 41 {
            Some(GenParam::Instrument)
        } else if code == 43 {
            Some(GenParam::Keyrange)
        } else if code == 44 {
            Some(GenParam::Velrange)
        } else if code == 45 {
            Some(GenParam::Startloopaddrcoarseofs)
        } else if code == 46 {
            Some(GenParam::Keynum)
        } else if code == 47 {
            Some(GenParam::Velocity)
        } else if code == 48 {
            Some(GenParam::Attenuation)
        } else if code == 50 {
            Some(GenParam::EndLoopAddrCoarseOfs)
        } else if code == 51 {
            Some(GenParam::CoarseTune)
        } else if code == 52 {
            Some(GenParam::FineTune)
        } else if code == 53 {
            Some(GenParam::SampleId)
        } else if code == 54 {
            Some(GenParam::SampleMode)
        } else if code == 56 {
            Some(GenParam::ScaleTune)
        } else if code == 57 {
            Some(GenParam::ExclusiveClass)
        } else if code == 58 {
            Some(GenParam::OverrideRootKey)
        } else if code == 59 {
            Some(GenParam::Pitch)
        } else {
            None
        }
    }

    /// The number of the generator.
    pub fn to_i32(self) -> (code: i32)
        ensures
            code == self.code(),
            Self::decode(code as int) == Some(self),
            0 <= code <= 59,
    {
        match self {
            GenParam::StartAddrOfs => 0,
            GenParam::EndAddrOfs => 1,
            GenParam::StartLoopAddOfs => 2,
            GenParam::EndLoopAddrOfs => 3,
            GenParam::StartAddrCoarseOfs => 4,
            GenParam::ModLfoToPitch => 5,
            GenParam::VibLfoToPitch => 6,
            GenParam::ModEnvToPitch => 7,
            GenParam::FilterFc => 8,
            GenParam::FilterQ => 9,
            GenParam::ModLfoToFilterFc => 10,
            GenParam::ModEnvToFilterFc => 11,
            GenParam::EndAddrCoarseOfs => 12,
            GenParam::ModLfoToVol => 13,
            GenParam::ChorussEnd => 15,
            GenParam::ReverbsEnd => 16,
            GenParam::Pan => 17,
            GenParam::ModLfoDelay => 21,
            GenParam::ModLfoFreq => 22,
            GenParam::Viblfodelay => 23,
            GenParam::VibLfoFreq => 24,
            GenParam::ModEnvDelay => 25,
            GenParam::ModEnvAttack => 26,
            GenParam::ModEnvHold => 27,
            GenParam::ModEnvDecay => 28,
            GenParam::ModEnvSustain => 29,
            GenParam::ModEnvRelease => 30,
            GenParam::KeyToModEnvHold => 31,
            GenParam::KeyToModEnvDecay => 32,
            GenParam::VolEnvDelay => 33,
            GenParam::VolEnvAttack => 34,
            GenParam::VolEnvHold => 35,
            GenParam::VolEnvDecay => 36,
            GenParam::VolEnvSustain => 37,
            GenParam::VolEnvRelease => 38,
            GenParam::KeyToVolEnvHold => 39,
            GenParam::KeyToVolEnvDecay => 40,
            GenParam::Instrument => 41,
            GenParam::Keyrange => 43,
            GenParam::Velrange => 44,
            GenParam::Startloopaddrcoarseofs => 45,
            GenParam::Keynum => 46,
            GenParam::Velocity => 47,
            GenParam::Attenuation => 48,
            GenParam::EndLoopAddrCoarseOfs => 50,
            GenParam::CoarseTune => 51,
            GenParam::FineTune => 52,
            GenParam::SampleId => 53,
            GenParam::SampleMode => 54,
            GenParam::ScaleTune => 56,
            GenParam::ExclusiveClass => 57,
            GenParam::OverrideRootKey => 58,
            GenParam::Pitch => 59,
        }
    }

    /// The generator with the number `code`, if there is one.
    pub fn from_i32(code: i32) -> (param: Option<Self>)
        ensures
            param == Self::decode(code as int),
            param matches Some(x) ==> x.code() == code,
    {
        match code {
            0 => Some(GenParam::StartAddrOfs),
            1 => Some(GenParam::EndAddrOfs),
            2 => Some(GenParam::StartLoopAddOfs),
            3 => Some(GenParam::EndLoopAddrOfs),
            4 => Some(GenParam::StartAddrCoarseOfs),
            5 => Some(GenParam::ModLfoToPitch),
            6 => Some(GenParam::VibLfoToPitch),
            7 => Some(GenParam::ModEnvToPitch),
            8 => Some(GenParam::FilterFc),
            9 => Some(GenParam::FilterQ),
            10 => Some(GenParam::ModLfoToFilterFc),
            11 => Some(GenParam::ModEnvToFilterFc),
            12 => Some(GenParam::EndAddrCoarseOfs),
            13 => Some(GenParam::ModLfoToVol),
            15 => Some(GenParam::ChorussEnd),
            16 => Some(GenParam::ReverbsEnd),
            17 => Some(GenParam::Pan),
            21 => Some(GenParam::ModLfoDelay),
            22 => Some(GenParam::ModLfoFreq),
            23 => Some(GenParam::Viblfodelay),
            24 => Some(GenParam::VibLfoFreq),
            25 => Some(GenParam::ModEnvDelay),
            26 => Some(GenParam::ModEnvAttack),
            27 => Some(GenParam::ModEnvHold),
            28 => Some(GenParam::ModEnvDecay),
            29 => Some(GenParam::ModEnvSustain),
            30 => Some(GenParam::ModEnvRelease),
            31 => Some(GenParam::KeyToModEnvHold),
            32 => Some(GenParam::KeyToModEnvDecay),
            33 => Some(GenParam::VolEnvDelay),
            34 => Some(GenParam::VolEnvAttack),
            35 => Some(GenParam::VolEnvHold),
            36 => Some(GenParam::VolEnvDecay),
            37 => Some(GenParam::VolEnvSustain),
            38 => Some(GenParam::VolEnvRelease),
            39 => Some(GenParam::KeyToVolEnvHold),
            40 => Some(GenParam::KeyToVolEnvDecay),
            41 => Some(GenParam::Instrument),
            43 => Some(GenParam::Keyrange),
            44 => Some(GenParam::Velrange),
            45 => Some(GenParam::Startloopaddrcoarseofs),
            46 => Some(GenParam::Keynum),
            47 => Some(GenParam::Velocity),
            48 => Some(GenParam::Attenuation),
            50 => Some(GenParam::EndLoopAddrCoarseOfs),
            51 => Some(GenParam::CoarseTune),
            52 => Some(GenParam::FineTune),
            53 => Some(GenParam::SampleId),
            54 => Some(GenParam::SampleMode),
            56 => Some(GenParam::ScaleTune),
            57 => Some(GenParam::ExclusiveClass),
            58 => Some(GenParam::OverrideRootKey),
            59 => Some(GenParam::Pitch),
            _ => None,
        }
    }
}

} // verus!
