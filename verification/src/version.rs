//! The version of the synthesizer library.
use vstd::prelude::*;
use vstd::string::StringExecFns;

verus! {

/// The library version info
#[derive(Debug, Clone, Copy, PartialEq, Eq, PartialOrd, Ord, Hash)]
pub struct Version {
    pub major: u32,
    pub minor: u32,
    pub micro: u32,
}

impl Version {
    pub fn new(major: u32, minor: u32, micro: u32) -> (v: Self)
        ensures
            v.major == major,
            v.minor == minor,
            v.micro == micro,
    {
        Self { major, minor, micro }
    }
}

} // verus!

verus! {

/// The character of the decimal digit `d`.
pub open spec fn digit(d: nat) -> char {
    if d == 0 {
        '0'
    } else if d == 1 {
        '1'
    } else if d == 2 {
        '2'
    } else if d == 3 {
        '3'
    } else if d == 4 {
        '4'
    } else if d == 5 {
        '5'
    } else if d == 6 {
        '6'
    } else if d == 7 {
        '7'
    } else if d == 8 {
        '8'
    } else {
        '9'
    }
}

/// The decimal numeral of `n`, without leading zeros.
pub open spec fn decimal(n: nat) -> Seq<char>
    decreases n,
{
    if n < 10 {
        seq![digit(n)]
    } else {
        decimal(n / 10).push(digit(n % 10))
    }
}

/// The text of a version: the three numbers in decimal, with a dot between
/// them.
pub open spec fn version_text(major: nat, minor: nat, micro: nat) -> Seq<char> {
    decimal(major) + seq!['.'] + decimal(minor) + seq!['.'] + decimal(micro)
}

fn digit_str(d: u32) -> (s: &'static str)
    requires
        d < 10,
    ensures
        s@ == seq![digit(d as nat)],
{
    proof {
        reveal_strlit("0");
        reveal_strlit("1");
        reveal_strlit("2");
        reveal_strlit("3");
        reveal_strlit("4");
        reveal_strlit("5");
        reveal_strlit("6");
        reveal_strlit("7");
        reveal_strlit("8");
        reveal_strlit("9");
    }
    let s = match d {
        0 => "0",
        1 => "1",
        2 => "2",
        3 => "3",
        4 => "4",
        5 => "5",
        6 => "6",
        7 => "7",
        8 => "8",
        _ => "9",
    };
    assert(s@ =~= seq![digit(d as nat)]);
    s
}

fn push_decimal(text: &mut String, n: u32)
    ensures
        final(text)@ == old(text)@ + decimal(n as nat),
    decreases n,
{
    if n >= 10 {
        push_decimal(text, n / 10);
    }
    text.append(digit_str(n % 10));
    assert(final(text)@ =~= old(text)@ + decimal(n as nat));
}

impl Version {
    /// The text of this version.
    pub open spec fn text(self) -> Seq<char> {
        version_text(self.major as nat, self.minor as nat, self.micro as nat)
    }

    /// Writes the version as its three numbers with a dot between them.
    pub fn to_string(&self) -> (text: String)
        ensures
            text@ == self.text(),
    {
        proof {
            reveal_strlit(".");
        }
        let mut text = String::new();
        push_decimal(&mut text, self.major);
        text.append(".");
        push_decimal(&mut text, self.minor);
        text.append(".");
        push_decimal(&mut text, self.micro);
        assert(text@ =~= self.text());
        text
    }

    /// The version that the synthesizer reports as three integers.
    pub fn from_raw(major: i32, minor: i32, micro: i32) -> (v: Self)
        ensures
            v.major == major as u32,
            v.minor == minor as u32,
            v.micro == micro as u32,
    {
        Version::new(major as u32, minor as u32, micro as u32)
    }
}

} // verus!
