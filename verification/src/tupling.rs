//! Prime constellations and the integers that stand for them.

use vstd::prelude::*;
use vstd::std_specs::convert::{FromSpec, FromSpecImpl};

verus! {

/// A prime constellation, named by the number of primes that stand close
/// together in it: single primes, twins, triplets, and so on up to sextuplets.
#[derive(Debug, PartialEq, Eq, PartialOrd, Ord, Hash, Clone, Copy, Structural)]
pub enum Tupling {
    One,
    Two,
    Three,
    Four,
    Five,
    Six,
}

impl Tupling {
    /// The number of primes in the constellation, from 1 to 6.
    pub open spec fn number(self) -> int {
        match self {
            Tupling::One => 1,
            Tupling::Two => 2,
            Tupling::Three => 3,
            Tupling::Four => 4,
            Tupling::Five => 5,
            Tupling::Six => 6,
        }
    }

    /// The constellation of `x` primes, if there is one.
    pub open spec fn parse(x: int) -> Option<Tupling> {
        if x == 1 {
            Some(Tupling::One)
        } else if x == 2 {
            Some(Tupling::Two)
        } else if x == 3 {
            Some(Tupling::Three)
        } else if x == 4 {
            Some(Tupling::Four)
        } else if x == 5 {
            Some(Tupling::Five)
        } else if x == 6 {
            Some(Tupling::Six)
        } else {
            None
        }
    }

    fn number_u8(self) -> (n: u8)
        ensures
            n == self.number(),
    {
        match self {
            Tupling::One => 1,
            Tupling::Two => 2,
            Tupling::Three => 3,
            Tupling::Four => 4,
            Tupling::Five => 5,
            Tupling::Six => 6,
        }
    }

    fn from_number(x: i128) -> (t: Option<Tupling>)
        ensures
            t == Tupling::parse(x as int),
    {
        if x == 1 {
            Some(Tupling::One)
        } else if x == 2 {
            Some(Tupling::Two)
        } else if x == 3 {
            Some(Tupling::Three)
        } else if x == 4 {
            Some(Tupling::Four)
        } else if x == 5 {
            Some(Tupling::Five)
        } else if x == 6 {
            Some(Tupling::Six)
        } else {
            None
        }
    }
}

impl Default for Tupling {
    fn default() -> (t: Tupling)
        ensures
            t == Tupling::One,
    {
        Tupling::One
    }
}

/// An integer stands for a constellation exactly when it lies between 1 and 6.
pub proof fn parse_is_some_iff_in_range(x: int)
    ensures
        Tupling::parse(x).is_some() <==> 1 <= x <= 6,
{
}

/// Parsing the number of a constellation gives that constellation back.
pub proof fn parse_inverts_number(k: Tupling)
    ensures
        Tupling::parse(k.number()) == Some(k),
{
}

/// The number of a parsed constellation is the integer that was parsed.
pub proof fn number_inverts_parse(x: int)
    requires
        1 <= x <= 6,
    ensures
        Tupling::parse(x).unwrap().number() == x,
{
}

/// A value that may stand for a constellation.
pub trait ToTupling: Sized {
    /// The constellation that the value stands for, if it stands for one.
    spec fn to_tupling_spec(self) -> Option<Tupling>;

    fn to_tupling(self) -> (t: Option<Tupling>)
        ensures
            t == self.to_tupling_spec(),
    ;
}

impl ToTupling for Tupling {
    open spec fn to_tupling_spec(self) -> Option<Tupling> {
        Some(self)
    }

    fn to_tupling(self) -> (t: Option<Tupling>) {
        Some(self)
    }
}

impl ToTupling for u8 {
    open spec fn to_tupling_spec(self) -> Option<Tupling> {
        Tupling::parse(self as int)
    }

    fn to_tupling(self) -> (t: Option<Tupling>) {
        Tupling::from_number(self as i128)
    }
}

impl ToTupling for i8 {
    open spec fn to_tupling_spec(self) -> Option<Tupling> {
        Tupling::parse(self as int)
    }

    fn to_tupling(self) -> (t: Option<Tupling>) {
        Tupling::from_number(self as i128)
    }
}

impl ToTupling for u16 {
    open spec fn to_tupling_spec(self) -> Option<Tupling> {
        Tupling::parse(self as int)
    }

    fn to_tupling(self) -> (t: Option<Tupling>) {
        Tupling::from_number(self as i128)
    }
}

impl ToTupling for i16 {
    open spec fn to_tupling_spec(self) -> Option<Tupling> {
        Tupling::parse(self as int)
    }

    fn to_tupling(self) -> (t: Option<Tupling>) {
        Tupling::from_number(self as i128)
    }
}

impl ToTupling for u32 {
    open spec fn to_tupling_spec(self) -> Option<Tupling> {
        Tupling::parse(self as int)
    }

    fn to_tupling(self) -> (t: Option<Tupling>) {
        Tupling::from_number(self as i128)
    }
}

impl ToTupling for i32 {
    open spec fn to_tupling_spec(self) -> Option<Tupling> {
        Tupling::parse(self as int)
    }

    fn to_tupling(self) -> (t: Option<Tupling>) {
        Tupling::from_number(self as i128)
    }
}

impl ToTupling for u64 {
    open spec fn to_tupling_spec(self) -> Option<Tupling> {
        Tupling::parse(self as int)
    }

    fn to_tupling(self) -> (t: Option<Tupling>) {
        Tupling::from_number(self as i128)
    }
}

impl ToTupling for i64 {
    open spec fn to_tupling_spec(self) -> Option<Tupling> {
        Tupling::parse(self as int)
    }

    fn to_tupling(self) -> (t: Option<Tupling>) {
        Tupling::from_number(self as i128)
    }
}

impl ToTupling for usize {
    open spec fn to_tupling_spec(self) -> Option<Tupling> {
        Tupling::parse(self as int)
    }

    fn to_tupling(self) -> (t: Option<Tupling>) {
        Tupling::from_number(self as i128)
    }
}

impl ToTupling for isize {
    open spec fn to_tupling_spec(self) -> Option<Tupling> {
        Tupling::parse(self as int)
    }

    fn to_tupling(self) -> (t: Option<Tupling>) {
        Tupling::from_number(self as i128)
    }
}

impl From<Tupling> for u8 {
    fn from(v: Tupling) -> (n: u8) {
        v.number_u8()
    }
}

impl FromSpecImpl<Tupling> for u8 {
    open spec fn obeys_from_spec() -> bool {
        true
    }

    open spec fn from_spec(v: Tupling) -> u8 {
        v.number() as u8
    }
}

impl From<Tupling> for i8 {
    fn from(v: Tupling) -> (n: i8) {
        v.number_u8() as i8
    }
}

impl FromSpecImpl<Tupling> for i8 {
    open spec fn obeys_from_spec() -> bool {
        true
    }

    open spec fn from_spec(v: Tupling) -> i8 {
        v.number() as i8
    }
}

impl From<Tupling> for u16 {
    fn from(v: Tupling) -> (n: u16) {
        v.number_u8() as u16
    }
}

impl FromSpecImpl<Tupling> for u16 {
    open spec fn obeys_from_spec() -> bool {
        true
    }

    open spec fn from_spec(v: Tupling) -> u16 {
        v.number() as u16
    }
}

impl From<Tupling> for i16 {
    fn from(v: Tupling) -> (n: i16) {
        v.number_u8() as i16
    }
}

impl FromSpecImpl<Tupling> for i16 {
    open spec fn obeys_from_spec() -> bool {
        true
    }

    open spec fn from_spec(v: Tupling) -> i16 {
        v.number() as i16
    }
}

impl From<Tupling> for u32 {
    fn from(v: Tupling) -> (n: u32) {
        v.number_u8() as u32
    }
}

impl FromSpecImpl<Tupling> for u32 {
    open spec fn obeys_from_spec() -> bool {
        true
    }

    open spec fn from_spec(v: Tupling) -> u32 {
        v.number() as u32
    }
}

impl From<Tupling> for i32 {
    fn from(v: Tupling) -> (n: i32) {
        v.number_u8() as i32
    }
}

impl FromSpecImpl<Tupling> for i32 {
    open spec fn obeys_from_spec() -> bool {
        true
    }

    open spec fn from_spec(v: Tupling) -> i32 {
        v.number() as i32
    }
}

impl From<Tupling> for u64 {
    fn from(v: Tupling) -> (n: u64) {
        v.number_u8() as u64
    }
}

impl FromSpecImpl<Tupling> for u64 {
    open spec fn obeys_from_spec() -> bool {
        true
    }

    open spec fn from_spec(v: Tupling) -> u64 {
        v.number() as u64
    }
}

impl From<Tupling> for i64 {
    fn from(v: Tupling) -> (n: i64) {
        v.number_u8() as i64
    }
}

impl FromSpecImpl<Tupling> for i64 {
    open spec fn obeys_from_spec() -> bool {
        true
    }

    open spec fn from_spec(v: Tupling) -> i64 {
        v.number() as i64
    }
}

impl From<Tupling> for usize {
    fn from(v: Tupling) -> (n: usize) {
        v.number_u8() as usize
    }
}

impl FromSpecImpl<Tupling> for usize {
    open spec fn obeys_from_spec() -> bool {
        true
    }

    open spec fn from_spec(v: Tupling) -> usize {
        v.number() as usize
    }
}

impl From<Tupling> for isize {
    fn from(v: Tupling) -> (n: isize) {
        v.number_u8() as isize
    }
}

impl FromSpecImpl<Tupling> for isize {
    open spec fn obeys_from_spec() -> bool {
        true
    }

    open spec fn from_spec(v: Tupling) -> isize {
        v.number() as isize
    }
}

/// Whatever the integer type, converting a constellation to its number and
/// reading that number back gives the constellation.
pub proof fn to_tupling_inverts_from(k: Tupling)
    ensures
        <u8 as FromSpec<Tupling>>::from_spec(k).to_tupling_spec() == Some(k),
        <i8 as FromSpec<Tupling>>::from_spec(k).to_tupling_spec() == Some(k),
        <u16 as FromSpec<Tupling>>::from_spec(k).to_tupling_spec() == Some(k),
        <i16 as FromSpec<Tupling>>::from_spec(k).to_tupling_spec() == Some(k),
        <u32 as FromSpec<Tupling>>::from_spec(k).to_tupling_spec() == Some(k),
        <i32 as FromSpec<Tupling>>::from_spec(k).to_tupling_spec() == Some(k),
        <u64 as FromSpec<Tupling>>::from_spec(k).to_tupling_spec() == Some(k),
        <i64 as FromSpec<Tupling>>::from_spec(k).to_tupling_spec() == Some(k),
        <usize as FromSpec<Tupling>>::from_spec(k).to_tupling_spec() == Some(k),
        <isize as FromSpec<Tupling>>::from_spec(k).to_tupling_spec() == Some(k),
{
}

} // verus!
