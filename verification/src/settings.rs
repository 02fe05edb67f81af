//! Settings objects, the kinds and hints of single settings, and value ranges.
use crate::private::HasHandle;
use std::marker::PhantomData;
use vstd::prelude::*;

verus! {

/// The generic settings object
pub struct Settings {
    handle: usize,
}

impl Settings {
    #[verifier::type_invariant]
    spec fn not_null(self) -> bool {
        self.handle != 0
    }

    /// The address of the settings object.
    pub closed spec fn addr(&self) -> usize {
        self.handle
    }

    /// Takes over the settings object at `handle`.
    pub fn from_ptr(handle: usize) -> (settings: Self)
        requires
            handle != 0,
        ensures
            settings.addr() == handle,
    {
        Self { handle }
    }

    /// Gives the settings object away as its address.
    pub fn into_ptr(self) -> (handle: usize)
        ensures
            handle == self.addr(),
            handle != 0,
    {
        proof {
            use_type_invariant(&self);
        }
        self.handle
    }
}

impl HasHandle for Settings {
    open spec fn handle(&self) -> usize {
        self.addr()
    }

    fn get_handle(&self) -> (handle: usize) {
        proof {
            use_type_invariant(self);
        }
        self.handle
    }
}

/// The settings reference
pub struct SettingsRef<'a> {
    handle: usize,
    phantom: PhantomData<&'a ()>,
}

impl<'a> SettingsRef<'a> {
    #[verifier::type_invariant]
    spec fn not_null(self) -> bool {
        self.handle != 0
    }

    /// The address of the settings object.
    pub closed spec fn addr(&self) -> usize {
        self.handle
    }

    /// Makes a reference out of the address of a settings object.
    pub fn from_ptr(handle: usize) -> (settings: Self)
        requires
            handle != 0,
        ensures
            settings.addr() == handle,
    {
        Self { handle, phantom: PhantomData }
    }
}

impl<'a> HasHandle for SettingsRef<'a> {
    open spec fn handle(&self) -> usize {
        self.addr()
    }

    fn get_handle(&self) -> (handle: usize) {
        proof {
            use_type_invariant(self);
        }
        self.handle
    }
}

/// A kind of setting value, known by the integer under which the settings
/// object reports the kind of a setting.
pub trait IsSetting {
    /// The integer that stands for the kind.
    spec fn type_code() -> i32;

    /// The integer that stands for the kind.
    fn setting_type() -> (code: i32)
        ensures
            code == Self::type_code(),
    ;
}

/// Marker of the settings whose value is a floating-point number.
pub struct Num;

impl IsSetting for Num {
    open spec fn type_code() -> i32 {
        0
    }

    fn setting_type() -> (code: i32) {
        0
    }
}

impl IsSetting for i32 {
    open spec fn type_code() -> i32 {
        1
    }

    fn setting_type() -> (code: i32) {
        1
    }
}

impl IsSetting for str {
    open spec fn type_code() -> i32 {
        2
    }

    fn setting_type() -> (code: i32) {
        2
    }
}

impl IsSetting for () {
    open spec fn type_code() -> i32 {
        3
    }

    fn setting_type() -> (code: i32) {
        3
    }
}

} // verus!

verus! {

/// The single setting of specific type
pub struct Setting<'a, T: ?Sized> {
    handle: usize,
    name: Vec<u8>,
    phantom: PhantomData<(&'a (), &'a T)>,
}

impl<'a, T: IsSetting + ?Sized> Setting<'a, T> {
    /// The address of the settings object that the setting belongs to.
    pub closed spec fn owner(&self) -> usize {
        self.handle
    }

    /// The name of the setting, with its terminating zero byte.
    pub closed spec fn c_name(&self) -> Seq<u8> {
        self.name@
    }

    /// Picks the setting `name` of the settings object at `handle`, given
    /// the kind `found` that the settings object reports for that name.
    /// There is such a setting where the reported kind is the kind `T`.
    pub fn pick(handle: usize, name: Vec<u8>, found: i32) -> (setting: Option<Self>)
        ensures
            setting.is_some() <==> found == T::type_code(),
            setting matches Some(s) ==> s.owner() == handle && s.c_name() == name@,
    {
        if T::setting_type() == found {
            Some(Setting { handle, name, phantom: PhantomData })
        } else {
            None
        }
    }

    /// The address of the settings object that the setting belongs to.
    pub fn get_handle(&self) -> (handle: usize)
        ensures
            handle == self.owner(),
    {
        self.handle
    }

    /// The name of the setting, with its terminating zero byte.
    pub fn name_ptr(&self) -> (name: &[u8])
        ensures
            name@ == self.c_name(),
    {
        self.name.as_slice()
    }
}

} // verus!

verus! {

/// Whether a call on a setting was answered with "yes": the settings object
/// answers a query, and reports that a value was set or found, with a
/// positive number.
pub fn affirmed(ret: i32) -> (yes: bool)
    ensures
        yes == (0 < ret),
{
    0 < ret
}

/// The value of a setting, given the answer `ret` to the call that fetched
/// it and what the call stored: there is a value only where the answer was
/// "yes".
pub fn fetched<V>(ret: i32, value: V) -> (res: Option<V>)
    ensures
        res == (if 0 < ret {
            Some(value)
        } else {
            None
        }),
{
    if affirmed(ret) {
        Some(value)
    } else {
        None
    }
}

/// The setting hints
///
/// A set of hints is a set of bits; the constants name the bit of each hint.
/// The last two name what the first two bits mean for a string setting.
#[derive(Debug, Clone, Copy, PartialEq, Eq, Hash)]
pub struct Hints(i32);

impl Hints {
    /// The lower bound of the setting's range is meaningful.
    pub const BOUNDED_BELOW: i32 = 0x01;

    /// The upper bound of the setting's range is meaningful.
    pub const BOUNDED_ABOVE: i32 = 0x02;

    /// The setting is a Boolean toggle.
    pub const TOGGLED: i32 = 0x04;

    /// The bounds are multiples of the sample rate.
    pub const SAMPLE_RATE: i32 = 0x08;

    /// The setting is best shown on a logarithmic scale.
    pub const LOGARITHMIC: i32 = 0x10;

    /// The setting takes integer values only.
    pub const INTEGER: i32 = 0x20;

    /// The string setting names a file.
    pub const FILENAME: i32 = 0x01;

    /// The string setting is one of a list of options.
    pub const OPTIONLIST: i32 = 0x02;

    /// The bits that stand for a hint.
    pub open spec fn known_bits() -> i32 {
        0x3f
    }

    /// The bits of the hints that are set.
    pub closed spec fn spec_bits(self) -> i32 {
        self.0
    }

    /// Whether every bit of `mask` is set in these hints.
    pub open spec fn spec_contains(self, mask: i32) -> bool {
        self.spec_bits() & mask == mask
    }

    /// The bits of the hints that are set.
    pub fn bits(&self) -> (bits: i32)
        ensures
            bits == self.spec_bits(),
    {
        self.0
    }

    /// The hints that `bits` holds; bits that stand for no hint are dropped.
    /// Dropping them decides no query for known bits: such a query is
    /// answered as it would be on `bits` itself.
    pub fn from_bits_truncate(bits: i32) -> (hints: Hints)
        ensures
            hints.spec_bits() == bits & Self::known_bits(),
            forall|mask: i32|
                mask & Self::known_bits() == mask ==> (#[trigger] hints.spec_contains(mask) <==> bits
                    & mask == mask),
    {
        proof {
            assert forall|mask: i32| mask & Self::known_bits() == mask implies ((bits
                & Self::known_bits()) & mask == mask <==> bits & mask == mask) by {
                Self::truncation_keeps_hints(bits, mask);
            }
        }
        Hints(bits & 0x3f)
    }

    /// Whether every bit of `mask` is set in these hints.
    pub fn contains(&self, mask: i32) -> (res: bool)
        ensures
            res == self.spec_contains(mask),
    {
        self.0 & mask == mask
    }
}

/// The range of setting value
#[derive(Debug, Clone, Copy, PartialEq)]
pub struct Range<T> {
    /// Below limit
    pub min: Option<T>,
    /// Above limit
    pub max: Option<T>,
}

/// An end of a range.
#[derive(Debug, Clone, Copy, PartialEq, Eq, Hash)]
pub enum Bound<T> {
    /// The range reaches up to this value, which belongs to it.
    Included(T),
    /// The range has no limit on this side.
    Unbounded,
}

impl<T> Range<T> {
    pub fn new(min: Option<T>, max: Option<T>) -> (range: Self)
        ensures
            range.min == min,
            range.max == max,
    {
        Self { min, max }
    }

    /// The range that a setting reports as `min` and `max` under `hints`:
    /// a limit counts only where the hints say that the range is bounded on
    /// that side.
    pub fn from_hints(min: T, max: T, hints: Hints) -> (range: Self)
        ensures
            range.min == (if hints.spec_contains(Hints::BOUNDED_BELOW) {
                Some(min)
            } else {
                None
            }),
            range.max == (if hints.spec_contains(Hints::BOUNDED_ABOVE) {
                Some(max)
            } else {
                None
            }),
    {
        Self::new(
            if hints.contains(Hints::BOUNDED_BELOW) {
                Some(min)
            } else {
                None
            },
            if hints.contains(Hints::BOUNDED_ABOVE) {
                Some(max)
            } else {
                None
            },
        )
    }

    /// The lower end of the range.
    pub fn start_bound(&self) -> (bound: Bound<&T>)
        ensures
            bound == (match self.min {
                Some(value) => Bound::Included(&value),
                None => Bound::Unbounded,
            }),
    {
        if let Some(value) = &self.min {
            Bound::Included(value)
        } else {
            Bound::Unbounded
        }
    }

    /// The upper end of the range.
    pub fn end_bound(&self) -> (bound: Bound<&T>)
        ensures
            bound == (match self.max {
                Some(value) => Bound::Included(&value),
                None => Bound::Unbounded,
            }),
    {
        if let Some(value) = &self.max {
            Bound::Included(value)
        } else {
            Bound::Unbounded
        }
    }
}

impl Hints {
    /// Bits that stand for no hint never decide whether a hint is set:
    /// dropping them leaves every query for known bits as it was.
    pub proof fn truncation_keeps_hints(bits: i32, mask: i32)
        requires
            mask & Self::known_bits() == mask,
        ensures
            (bits & Self::known_bits()) & mask == mask <==> bits & mask == mask,
    {
        assert(mask & 0x3fi32 == mask ==> (((bits & 0x3fi32) & mask == mask) <==> (bits & mask
            == mask))) by (bit_vector);
    }
}

impl Range<i32> {
    /// Whether `value` lies between the limits that the range has.
    pub open spec fn spec_contains(self, value: i32) -> bool {
        &&& self.min matches Some(min) ==> min <= value
        &&& self.max matches Some(max) ==> value <= max
    }

    /// Whether `value` lies in the range, both limits included.
    pub fn contains(&self, value: i32) -> (res: bool)
        ensures
            res == self.spec_contains(value),
    {
        let above = match self.min {
            Some(min) => min <= value,
            None => true,
        };
        let below = match self.max {
            Some(max) => value <= max,
            None => true,
        };
        above && below
    }
}

} // verus!
