//! Spans of time as the store writes them: a number and a unit.

use vstd::prelude::*;
use vstd::string::StringExecFns;
use crate::text::{push_signed_decimal, signed_decimal};

verus! {

/// The units in which the store counts time.
#[derive(Clone, Copy, Debug, PartialEq, Eq, Structural)]
pub enum DurationUnit {
    Month,
    Week,
    Day,
    Hour,
    Minute,
    Second,
    Millisecond,
}

impl DurationUnit {
    /// The letters that stand for the unit.
    pub open spec fn suffix(self) -> Seq<char> {
        match self {
            DurationUnit::Month => "M"@,
            DurationUnit::Week => "w"@,
            DurationUnit::Day => "d"@,
            DurationUnit::Hour => "h"@,
            DurationUnit::Minute => "m"@,
            DurationUnit::Second => "s"@,
            DurationUnit::Millisecond => "ms"@,
        }
    }

    /// The letters that stand for the unit.
    pub fn to_string(&self) -> (s: String)
        ensures
            s@ == self.suffix(),
    {
        match self {
            DurationUnit::Month => String::from_str("M"),
            DurationUnit::Week => String::from_str("w"),
            DurationUnit::Day => String::from_str("d"),
            DurationUnit::Hour => String::from_str("h"),
            DurationUnit::Minute => String::from_str("m"),
            DurationUnit::Second => String::from_str("s"),
            DurationUnit::Millisecond => String::from_str("ms"),
        }
    }
}

/// A span of time: so many of a unit.
#[derive(Clone, Copy, Debug, PartialEq, Eq, Structural)]
pub struct Duration {
    pub amt: i64,
    pub unit: DurationUnit,
}

impl Duration {
    /// The span as the store writes it: the number, then the unit.
    pub open spec fn text(self) -> Seq<char> {
        signed_decimal(self.amt as int) + self.unit.suffix()
    }

    /// A span of `amt` times `unit`.
    pub fn new(amt: i64, unit: DurationUnit) -> (d: Duration)
        ensures
            d == (Duration { amt, unit }),
    {
        Duration { amt, unit }
    }

    /// The span as the store writes it: the number, then the unit.
    pub fn to_string(&self) -> (s: String)
        ensures
            s@ == self.text(),
    {
        let mut s = String::new();
        push_signed_decimal(&mut s, self.amt);
        let unit = self.unit.to_string();
        s.append(unit.as_str());
        assert(s@ =~= self.text());
        s
    }
}

} // verus!
