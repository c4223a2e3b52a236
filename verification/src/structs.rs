//! Readings that the sensors report.

use vstd::prelude::*;

verus! {

/// What the ultrasonic sensor reports: the distance to the nearest obstacle
/// and the altitude, both in metres.
#[derive(Debug, Clone, Copy, PartialEq, Eq, Structural)]
pub struct Ultrasonic {
    pub obstacles_dtc: i32,
    pub altitude: i32,
}

/// A position on the field grid.
#[allow(non_camel_case_types)]
#[derive(Debug, Clone, Copy, PartialEq, Eq, Structural)]
pub struct GPS {
    pub longitude: i32,
    pub latitude: i32,
}

} // verus!
