//! Physical quantities as distinct types over one fixed-point representation.
//!
//! Each quantity holds a raw count of millionths of its unit (see
//! [`crate::fixed`]), and its view is that count as a mathematical integer.
//! Electrical quantities use volts, amperes, ohms and watts. The mechanical
//! and hydraulic quantities that enter the equations of motion use the
//! consistent millimetre, newton, second system, in which pressure comes out
//! in megapascals and mass in tonnes. Fluid density and viscosity, which the
//! models carry but do not compute with, use kilograms per cubic metre and
//! pascal seconds.

use vstd::prelude::*;

verus! {

/// A dimensionless number.
/// A ratio of one is `SCALE` raw units.
#[derive(Clone, Copy, Debug, PartialEq, Eq, Structural)]
pub struct Ratio {
    /// Millionths of the unit.
    pub micro: i64,
}

impl View for Ratio {
    type V = int;

    open spec fn view(&self) -> int {
        self.micro as int
    }
}

impl Ratio {
    /// The quantity that is `micro` millionths of the unit.
    pub fn new(micro: i64) -> (q: Self)
        ensures
            q@ == micro as int,
    {
        Ratio { micro }
    }
}

/// A factor that relates one physical quantity to another.
#[derive(Clone, Copy, Debug, PartialEq, Eq, Structural)]
pub struct Coefficient {
    /// Millionths of the unit.
    pub micro: i64,
}

impl View for Coefficient {
    type V = int;

    open spec fn view(&self) -> int {
        self.micro as int
    }
}

impl Coefficient {
    /// The quantity that is `micro` millionths of the unit.
    pub fn new(micro: i64) -> (q: Self)
        ensures
            q@ == micro as int,
    {
        Coefficient { micro }
    }
}

/// A span of time, in seconds.
#[derive(Clone, Copy, Debug, PartialEq, Eq, Structural)]
pub struct Time {
    /// Millionths of the unit.
    pub micro: i64,
}

impl View for Time {
    type V = int;

    open spec fn view(&self) -> int {
        self.micro as int
    }
}

impl Time {
    /// The quantity that is `micro` millionths of the unit.
    pub fn new(micro: i64) -> (q: Self)
        ensures
            q@ == micro as int,
    {
        Time { micro }
    }
}

/// A frequency, in hertz.
#[derive(Clone, Copy, Debug, PartialEq, Eq, Structural)]
pub struct Frequency {
    /// Millionths of the unit.
    pub micro: i64,
}

impl View for Frequency {
    type V = int;

    open spec fn view(&self) -> int {
        self.micro as int
    }
}

impl Frequency {
    /// The quantity that is `micro` millionths of the unit.
    pub fn new(micro: i64) -> (q: Self)
        ensures
            q@ == micro as int,
    {
        Frequency { micro }
    }
}

/// A rotational speed, in revolutions per minute.
#[derive(Clone, Copy, Debug, PartialEq, Eq, Structural)]
pub struct AngularVelocity {
    /// Millionths of the unit.
    pub micro: i64,
}

impl View for AngularVelocity {
    type V = int;

    open spec fn view(&self) -> int {
        self.micro as int
    }
}

impl AngularVelocity {
    /// The quantity that is `micro` millionths of the unit.
    pub fn new(micro: i64) -> (q: Self)
        ensures
            q@ == micro as int,
    {
        AngularVelocity { micro }
    }
}

/// An electric potential, in volts.
#[derive(Clone, Copy, Debug, PartialEq, Eq, Structural)]
pub struct ElectricPotential {
    /// Millionths of the unit.
    pub micro: i64,
}

impl View for ElectricPotential {
    type V = int;

    open spec fn view(&self) -> int {
        self.micro as int
    }
}

impl ElectricPotential {
    /// The quantity that is `micro` millionths of the unit.
    pub fn new(micro: i64) -> (q: Self)
        ensures
            q@ == micro as int,
    {
        ElectricPotential { micro }
    }
}

/// An electric current, in amperes.
#[derive(Clone, Copy, Debug, PartialEq, Eq, Structural)]
pub struct ElectricCurrent {
    /// Millionths of the unit.
    pub micro: i64,
}

impl View for ElectricCurrent {
    type V = int;

    open spec fn view(&self) -> int {
        self.micro as int
    }
}

impl ElectricCurrent {
    /// The quantity that is `micro` millionths of the unit.
    pub fn new(micro: i64) -> (q: Self)
        ensures
            q@ == micro as int,
    {
        ElectricCurrent { micro }
    }
}

/// An electrical resistance, in ohms.
#[derive(Clone, Copy, Debug, PartialEq, Eq, Structural)]
pub struct ElectricalResistance {
    /// Millionths of the unit.
    pub micro: i64,
}

impl View for ElectricalResistance {
    type V = int;

    open spec fn view(&self) -> int {
        self.micro as int
    }
}

impl ElectricalResistance {
    /// The quantity that is `micro` millionths of the unit.
    pub fn new(micro: i64) -> (q: Self)
        ensures
            q@ == micro as int,
    {
        ElectricalResistance { micro }
    }
}

/// A power, in watts.
#[derive(Clone, Copy, Debug, PartialEq, Eq, Structural)]
pub struct Power {
    /// Millionths of the unit.
    pub micro: i64,
}

impl View for Power {
    type V = int;

    open spec fn view(&self) -> int {
        self.micro as int
    }
}

impl Power {
    /// The quantity that is `micro` millionths of the unit.
    pub fn new(micro: i64) -> (q: Self)
        ensures
            q@ == micro as int,
    {
        Power { micro }
    }
}

/// A length, in millimetres.
#[derive(Clone, Copy, Debug, PartialEq, Eq, Structural)]
pub struct Length {
    /// Millionths of the unit.
    pub micro: i64,
}

impl View for Length {
    type V = int;

    open spec fn view(&self) -> int {
        self.micro as int
    }
}

impl Length {
    /// The quantity that is `micro` millionths of the unit.
    pub fn new(micro: i64) -> (q: Self)
        ensures
            q@ == micro as int,
    {
        Length { micro }
    }
}

/// A volume, in cubic millimetres.
#[derive(Clone, Copy, Debug, PartialEq, Eq, Structural)]
pub struct Volume {
    /// Millionths of the unit.
    pub micro: i64,
}

impl View for Volume {
    type V = int;

    open spec fn view(&self) -> int {
        self.micro as int
    }
}

impl Volume {
    /// The quantity that is `micro` millionths of the unit.
    pub fn new(micro: i64) -> (q: Self)
        ensures
            q@ == micro as int,
    {
        Volume { micro }
    }
}

/// A volumetric flow, in cubic millimetres per second.
#[derive(Clone, Copy, Debug, PartialEq, Eq, Structural)]
pub struct VolumeRate {
    /// Millionths of the unit.
    pub micro: i64,
}

impl View for VolumeRate {
    type V = int;

    open spec fn view(&self) -> int {
        self.micro as int
    }
}

impl VolumeRate {
    /// The quantity that is `micro` millionths of the unit.
    pub fn new(micro: i64) -> (q: Self)
        ensures
            q@ == micro as int,
    {
        VolumeRate { micro }
    }
}

/// A linear speed, in millimetres per second.
#[derive(Clone, Copy, Debug, PartialEq, Eq, Structural)]
pub struct Velocity {
    /// Millionths of the unit.
    pub micro: i64,
}

impl View for Velocity {
    type V = int;

    open spec fn view(&self) -> int {
        self.micro as int
    }
}

impl Velocity {
    /// The quantity that is `micro` millionths of the unit.
    pub fn new(micro: i64) -> (q: Self)
        ensures
            q@ == micro as int,
    {
        Velocity { micro }
    }
}

/// A linear acceleration, in millimetres per second squared.
#[derive(Clone, Copy, Debug, PartialEq, Eq, Structural)]
pub struct Acceleration {
    /// Millionths of the unit.
    pub micro: i64,
}

impl View for Acceleration {
    type V = int;

    open spec fn view(&self) -> int {
        self.micro as int
    }
}

impl Acceleration {
    /// The quantity that is `micro` millionths of the unit.
    pub fn new(micro: i64) -> (q: Self)
        ensures
            q@ == micro as int,
    {
        Acceleration { micro }
    }
}

/// A force, in newtons.
#[derive(Clone, Copy, Debug, PartialEq, Eq, Structural)]
pub struct Force {
    /// Millionths of the unit.
    pub micro: i64,
}

impl View for Force {
    type V = int;

    open spec fn view(&self) -> int {
        self.micro as int
    }
}

impl Force {
    /// The quantity that is `micro` millionths of the unit.
    pub fn new(micro: i64) -> (q: Self)
        ensures
            q@ == micro as int,
    {
        Force { micro }
    }
}

/// A pressure, in megapascals (newtons per square millimetre).
#[derive(Clone, Copy, Debug, PartialEq, Eq, Structural)]
pub struct Pressure {
    /// Millionths of the unit.
    pub micro: i64,
}

impl View for Pressure {
    type V = int;

    open spec fn view(&self) -> int {
        self.micro as int
    }
}

impl Pressure {
    /// The quantity that is `micro` millionths of the unit.
    pub fn new(micro: i64) -> (q: Self)
        ensures
            q@ == micro as int,
    {
        Pressure { micro }
    }
}

/// A density, in kilograms per cubic metre.
#[derive(Clone, Copy, Debug, PartialEq, Eq, Structural)]
pub struct MassDensity {
    /// Millionths of the unit.
    pub micro: i64,
}

impl View for MassDensity {
    type V = int;

    open spec fn view(&self) -> int {
        self.micro as int
    }
}

impl MassDensity {
    /// The quantity that is `micro` millionths of the unit.
    pub fn new(micro: i64) -> (q: Self)
        ensures
            q@ == micro as int,
    {
        MassDensity { micro }
    }
}

/// A dynamic viscosity, in pascal seconds.
#[derive(Clone, Copy, Debug, PartialEq, Eq, Structural)]
pub struct DynamicViscosity {
    /// Millionths of the unit.
    pub micro: i64,
}

impl View for DynamicViscosity {
    type V = int;

    open spec fn view(&self) -> int {
        self.micro as int
    }
}

impl DynamicViscosity {
    /// The quantity that is `micro` millionths of the unit.
    pub fn new(micro: i64) -> (q: Self)
        ensures
            q@ == micro as int,
    {
        DynamicViscosity { micro }
    }
}

} // verus!
