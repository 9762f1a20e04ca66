//! The small closed vocabularies of the protocol and their wire codes.

use crate::error::MountError;
use vstd::prelude::*;

verus! {

/// How the mount follows the sky.
#[derive(Debug, Clone, Copy, PartialEq, Eq, Structural)]
pub enum TrackingMode {
    Off,
    AzEl,
    EQNorth,
    EQSouth,
}

/// The axis a slew moves.
#[derive(Debug, Clone, Copy, PartialEq, Eq, Structural)]
pub enum SlewAxis {
    RAAz,
    DecEl,
}

/// The direction a slew moves in.
#[derive(Debug, Clone, Copy, PartialEq, Eq, Structural)]
pub enum SlewDir {
    Positive,
    Negative,
}

/// The protocol's predefined slew speeds; `Stop` halts the axis.
#[derive(Debug, Clone, Copy, PartialEq, Eq, Structural)]
pub enum SlewRate {
    Stop,
    Rate1,
    Rate2,
    Rate3,
    Rate4,
    Rate5,
    Rate6,
    Rate7,
    Rate8,
    Rate9,
}

/// The hardware models a hand controller can report.
#[derive(Debug, Clone, Copy, PartialEq, Eq, Structural)]
pub enum Model {
    GPSSeries,
    ISeries,
    ISeriesSe,
    Cge,
    AdvancedGT,
    Slt,
    Cpc,
    Gt,
    FourFiveSE,
    SixEightSE,
    Cgem,
    AdvancedVX,
    Evolution,
}

/// The sub-devices reachable through passthrough commands.
#[derive(Debug, Clone, Copy, PartialEq, Eq, Structural)]
pub enum Device {
    AzRaMotor,
    ElDecMotor,
    GpsUnit,
    RtcUnit,
}

/// The sub-devices present on every mount.
#[derive(Debug, Clone, Copy, PartialEq, Eq, Structural)]
pub enum NonGpsDevice {
    AzRaMotor,
    ElDecMotor,
    RtcUnit,
}

pub open spec fn tracking_code(m: TrackingMode) -> u8 {
    match m {
        TrackingMode::Off => 0,
        TrackingMode::AzEl => 1,
        TrackingMode::EQNorth => 2,
        TrackingMode::EQSouth => 3,
    }
}

pub open spec fn tracking_mode_of(b: u8) -> Option<TrackingMode> {
    if b == 0 {
        Some(TrackingMode::Off)
    } else if b == 1 {
        Some(TrackingMode::AzEl)
    } else if b == 2 {
        Some(TrackingMode::EQNorth)
    } else if b == 3 {
        Some(TrackingMode::EQSouth)
    } else {
        None
    }
}

pub open spec fn slew_rate_code(r: SlewRate) -> u8 {
    match r {
        SlewRate::Stop => 0,
        SlewRate::Rate1 => 1,
        SlewRate::Rate2 => 2,
        SlewRate::Rate3 => 3,
        SlewRate::Rate4 => 4,
        SlewRate::Rate5 => 5,
        SlewRate::Rate6 => 6,
        SlewRate::Rate7 => 7,
        SlewRate::Rate8 => 8,
        SlewRate::Rate9 => 9,
    }
}

pub open spec fn model_code(m: Model) -> u8 {
    match m {
        Model::GPSSeries => 1,
        Model::ISeries => 3,
        Model::ISeriesSe => 4,
        Model::Cge => 5,
        Model::AdvancedGT => 6,
        Model::Slt => 7,
        Model::Cpc => 9,
        Model::Gt => 10,
        Model::FourFiveSE => 11,
        Model::SixEightSE => 12,
        Model::Cgem => 14,
        Model::AdvancedVX => 20,
        Model::Evolution => 22,
    }
}

/// The model a hand controller's identifier byte names, if any.
pub open spec fn model_of(b: u8) -> Option<Model> {
    if b == 1 {
        Some(Model::GPSSeries)
    } else if b == 3 {
        Some(Model::ISeries)
    } else if b == 4 {
        Some(Model::ISeriesSe)
    } else if b == 5 {
        Some(Model::Cge)
    } else if b == 6 {
        Some(Model::AdvancedGT)
    } else if b == 7 {
        Some(Model::Slt)
    } else if b == 9 {
        Some(Model::Cpc)
    } else if b == 10 {
        Some(Model::Gt)
    } else if b == 11 {
        Some(Model::FourFiveSE)
    } else if b == 12 {
        Some(Model::SixEightSE)
    } else if b == 14 {
        Some(Model::Cgem)
    } else if b == 20 {
        Some(Model::AdvancedVX)
    } else if b == 22 {
        Some(Model::Evolution)
    } else {
        None
    }
}

pub open spec fn device_code(d: Device) -> u8 {
    match d {
        Device::AzRaMotor => 16,
        Device::ElDecMotor => 17,
        Device::GpsUnit => 176,
        Device::RtcUnit => 178,
    }
}

pub open spec fn non_gps_device(d: NonGpsDevice) -> Device {
    match d {
        NonGpsDevice::AzRaMotor => Device::AzRaMotor,
        NonGpsDevice::ElDecMotor => Device::ElDecMotor,
        NonGpsDevice::RtcUnit => Device::RtcUnit,
    }
}

/// The motor that drives an axis.
pub open spec fn axis_motor(axis: SlewAxis) -> Device {
    match axis {
        SlewAxis::RAAz => Device::AzRaMotor,
        SlewAxis::DecEl => Device::ElDecMotor,
    }
}

/// The identifier table and the model codes are inverse to each other.
pub proof fn lemma_model_code_round_trip(m: Model, b: u8)
    ensures
        model_of(model_code(m)) == Some(m),
        model_of(b) == Some(m) ==> model_code(m) == b,
{
}

/// The tracking-mode codes and their decoding are inverse to each other.
pub proof fn lemma_tracking_code_round_trip(m: TrackingMode, b: u8)
    ensures
        tracking_mode_of(tracking_code(m)) == Some(m),
        tracking_mode_of(b) == Some(m) ==> tracking_code(m) == b,
{
}

impl TrackingMode {
    pub fn code(&self) -> (r: u8)
        ensures
            r == tracking_code(*self),
    {
        match self {
            TrackingMode::Off => 0,
            TrackingMode::AzEl => 1,
            TrackingMode::EQNorth => 2,
            TrackingMode::EQSouth => 3,
        }
    }

    /// The mode a byte from the mount names; unknown bytes are an error.
    pub fn from_code(b: u8) -> (r: Result<TrackingMode, MountError>)
        ensures
            r == (match tracking_mode_of(b) {
                Some(m) => Ok(m),
                None => Err(MountError::UnknownEnumValue),
            }),
    {
        match b {
            0 => Ok(TrackingMode::Off),
            1 => Ok(TrackingMode::AzEl),
            2 => Ok(TrackingMode::EQNorth),
            3 => Ok(TrackingMode::EQSouth),
            _ => Err(MountError::UnknownEnumValue),
        }
    }
}

impl SlewRate {
    pub fn code(&self) -> (r: u8)
        ensures
            r == slew_rate_code(*self),
    {
        match self {
            SlewRate::Stop => 0,
            SlewRate::Rate1 => 1,
            SlewRate::Rate2 => 2,
            SlewRate::Rate3 => 3,
            SlewRate::Rate4 => 4,
            SlewRate::Rate5 => 5,
            SlewRate::Rate6 => 6,
            SlewRate::Rate7 => 7,
            SlewRate::Rate8 => 8,
            SlewRate::Rate9 => 9,
        }
    }
}

impl Model {
    pub fn code(&self) -> (r: u8)
        ensures
            r == model_code(*self),
    {
        match self {
            Model::GPSSeries => 1,
            Model::ISeries => 3,
            Model::ISeriesSe => 4,
            Model::Cge => 5,
            Model::AdvancedGT => 6,
            Model::Slt => 7,
            Model::Cpc => 9,
            Model::Gt => 10,
            Model::FourFiveSE => 11,
            Model::SixEightSE => 12,
            Model::Cgem => 14,
            Model::AdvancedVX => 20,
            Model::Evolution => 22,
        }
    }

    /// The model an identifier byte names; bytes outside the table are an
    /// error, never a default.
    pub fn from_code(b: u8) -> (r: Result<Model, MountError>)
        ensures
            r == (match model_of(b) {
                Some(m) => Ok(m),
                None => Err(MountError::UnknownEnumValue),
            }),
    {
        match b {
            1 => Ok(Model::GPSSeries),
            3 => Ok(Model::ISeries),
            4 => Ok(Model::ISeriesSe),
            5 => Ok(Model::Cge),
            6 => Ok(Model::AdvancedGT),
            7 => Ok(Model::Slt),
            9 => Ok(Model::Cpc),
            10 => Ok(Model::Gt),
            11 => Ok(Model::FourFiveSE),
            12 => Ok(Model::SixEightSE),
            14 => Ok(Model::Cgem),
            20 => Ok(Model::AdvancedVX),
            22 => Ok(Model::Evolution),
            _ => Err(MountError::UnknownEnumValue),
        }
    }

    /// The model's marketing name.
    pub fn name(&self) -> (r: &'static str)
        ensures
            r@ == model_name(*self)@,
    {
        match self {
            Model::GPSSeries => "GPS Series",
            Model::ISeries => "i-Series",
            Model::ISeriesSe => "i-Series SE",
            Model::Cge => "CGE",
            Model::AdvancedGT => "Advanced GT",
            Model::Slt => "SLT",
            Model::Cpc => "CPC",
            Model::Gt => "GT",
            Model::FourFiveSE => "4/5 SE",
            Model::SixEightSE => "6/8 SE",
            Model::Cgem => "CGEM",
            Model::AdvancedVX => "Advanced VX",
            Model::Evolution => "Evolution",
        }
    }
}

pub open spec fn model_name(m: Model) -> &'static str {
    match m {
        Model::GPSSeries => "GPS Series",
        Model::ISeries => "i-Series",
        Model::ISeriesSe => "i-Series SE",
        Model::Cge => "CGE",
        Model::AdvancedGT => "Advanced GT",
        Model::Slt => "SLT",
        Model::Cpc => "CPC",
        Model::Gt => "GT",
        Model::FourFiveSE => "4/5 SE",
        Model::SixEightSE => "6/8 SE",
        Model::Cgem => "CGEM",
        Model::AdvancedVX => "Advanced VX",
        Model::Evolution => "Evolution",
    }
}

impl Device {
    pub fn code(&self) -> (r: u8)
        ensures
            r == device_code(*self),
    {
        match self {
            Device::AzRaMotor => 16,
            Device::ElDecMotor => 17,
            Device::GpsUnit => 176,
            Device::RtcUnit => 178,
        }
    }

    /// A human-readable name of the sub-device.
    pub fn name(&self) -> (r: &'static str)
        ensures
            r@ == device_name(*self)@,
    {
        match self {
            Device::AzRaMotor => "Azimuth/RA Motor",
            Device::ElDecMotor => "Elevation/Dec Motor",
            Device::GpsUnit => "GPS Unit",
            Device::RtcUnit => "RTC Unit",
        }
    }

    /// The motor that drives an axis.
    pub fn motor(axis: SlewAxis) -> (r: Device)
        ensures
            r == axis_motor(axis),
    {
        match axis {
            SlewAxis::RAAz => Device::AzRaMotor,
            SlewAxis::DecEl => Device::ElDecMotor,
        }
    }
}

pub open spec fn device_name(d: Device) -> &'static str {
    match d {
        Device::AzRaMotor => "Azimuth/RA Motor",
        Device::ElDecMotor => "Elevation/Dec Motor",
        Device::GpsUnit => "GPS Unit",
        Device::RtcUnit => "RTC Unit",
    }
}

impl NonGpsDevice {
    pub fn as_device(&self) -> (r: Device)
        ensures
            r == non_gps_device(*self),
    {
        match self {
            NonGpsDevice::AzRaMotor => Device::AzRaMotor,
            NonGpsDevice::ElDecMotor => Device::ElDecMotor,
            NonGpsDevice::RtcUnit => Device::RtcUnit,
        }
    }
}

} // verus!
