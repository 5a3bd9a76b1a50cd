//! Capture settings as plain values, and the cell that holds the current ones.
//!
//! Durations are whole milliseconds and angles are thousandths of a degree.
use vstd::prelude::*;

verus! {

/// ISO values a camera accepts when the ISO is set by hand.
pub const VALID_ISO: [u32; 5] = [100, 200, 400, 800, 1600];

/// Target period between two capture attempts.
#[derive(Clone, Copy, Debug, PartialEq, Eq, Structural)]
pub enum Frame {
    /// The next attempt starts as soon as the previous one ends.
    Continuous,
    /// Attempts start this many milliseconds apart.
    Period(u64),
}

#[derive(Clone, Copy, Debug, PartialEq, Eq, Structural)]
pub enum Exposure {
    Auto,
    /// Exposure time in milliseconds.
    Manual(u64),
}

#[derive(Clone, Copy, Debug, PartialEq, Eq, Structural)]
pub enum Iso {
    Auto,
    Manual(u32),
}

#[derive(Clone, Copy, Debug, PartialEq, Eq, Structural)]
pub enum Aperture {
    Auto,
    Implicit,
    /// f-number in thousandths.
    Manual(i64),
}

/// The exposure bundle used for one time of day.
#[derive(Clone, Copy, Debug, PartialEq, Eq, Structural)]
pub struct DNTime {
    pub frame: Frame,
    pub exposure: Exposure,
    pub iso: Iso,
    pub aperture: Aperture,
}

#[derive(Clone, Copy, Debug, PartialEq, Eq, Structural)]
pub struct Settings {
    /// Solar altitude, in thousandths of a degree, below which it is night.
    pub horizon: i32,
    pub daytime: DNTime,
    pub nighttime: DNTime,
}

pub open spec fn valid_iso_value(u: u32) -> bool {
    u == 100 || u == 200 || u == 400 || u == 800 || u == 1600
}

impl Frame {
    pub open spec fn valid(self) -> bool {
        match self {
            Frame::Continuous => true,
            Frame::Period(ms) => ms > 0,
        }
    }

    pub fn is_valid(&self) -> (r: bool)
        ensures
            r == self.valid(),
    {
        match self {
            Frame::Continuous => true,
            Frame::Period(ms) => *ms > 0,
        }
    }
}

impl Exposure {
    pub open spec fn valid(self) -> bool {
        match self {
            Exposure::Auto => true,
            Exposure::Manual(ms) => ms > 0,
        }
    }

    pub fn is_valid(&self) -> (r: bool)
        ensures
            r == self.valid(),
    {
        match self {
            Exposure::Auto => true,
            Exposure::Manual(ms) => *ms > 0,
        }
    }
}

impl Iso {
    pub open spec fn valid(self) -> bool {
        match self {
            Iso::Auto => true,
            Iso::Manual(u) => valid_iso_value(u),
        }
    }

    pub fn is_valid(&self) -> (r: bool)
        ensures
            r == self.valid(),
    {
        match self {
            Iso::Auto => true,
            Iso::Manual(u) => {
                let mut i: usize = 0;
                let mut found = false;
                while i < 5
                    invariant
                        i <= 5,
                        found == exists|j: int| 0 <= j < i && VALID_ISO[j] == *u,
                    decreases 5 - i,
                {
                    if VALID_ISO[i] == *u {
                        found = true;
                    }
                    i = i + 1;
                }
                found
            },
        }
    }
}

impl DNTime {
    pub open spec fn valid(self) -> bool {
        self.frame.valid() && self.exposure.valid() && self.iso.valid()
    }

    pub fn is_valid(&self) -> (r: bool)
        ensures
            r == self.valid(),
    {
        self.frame.is_valid() && self.exposure.is_valid() && self.iso.is_valid()
    }
}

impl Settings {
    pub open spec fn valid(self) -> bool {
        -90_000 <= self.horizon <= 90_000 && self.daytime.valid() && self.nighttime.valid()
    }

    pub fn is_valid(&self) -> (r: bool)
        ensures
            r == self.valid(),
    {
        -90_000 <= self.horizon && self.horizon <= 90_000 && self.daytime.is_valid()
            && self.nighttime.is_valid()
    }

    /// The bundle in force at night or by day.
    pub fn for_time(&self, is_night: bool) -> (r: DNTime)
        ensures
            r == (if is_night { self.nighttime } else { self.daytime }),
    {
        if is_night {
            self.nighttime
        } else {
            self.daytime
        }
    }
}

} // verus!
