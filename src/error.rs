use vstd::prelude::*;

verus! {

/// Everything that can go wrong in one exchange with the mount.
#[derive(Debug, Clone, PartialEq, Eq)]
pub enum MountError {
    /// The serial line failed while writing or reading.
    IoFailure,
    /// No reply arrived before the deadline.
    Timeout,
    /// The reply did not end in the terminator, or a passthrough reply had a
    /// length that fits neither outcome; carries the bytes received.
    MalformedResponse(Vec<u8>),
    /// A hand-controller reply carried a payload of the wrong length.
    UnexpectedResponseLength,
    /// The addressed sub-device is absent or rejected the sub-command.
    DeviceUnavailable,
    /// A byte of the reply names no known mode, model or flag value.
    UnknownEnumValue,
    /// An angle field was not eight ASCII hexadecimal digits.
    MalformedAngle,
    /// A command argument lies outside what the protocol can carry.
    InvalidArgument,
    /// The GPS unit answered but has no satellite link.
    GpsNotLinked,
    /// The mount model has no GPS unit.
    NoGpsDevice,
    /// The date and time fields do not form a valid timestamp.
    InvalidDateTime,
}

/// The mathematical form of an error: the same cases, with the bytes of a
/// malformed reply as a sequence.
pub enum Fault {
    IoFailure,
    Timeout,
    MalformedResponse(Seq<u8>),
    UnexpectedResponseLength,
    DeviceUnavailable,
    UnknownEnumValue,
    MalformedAngle,
    InvalidArgument,
    GpsNotLinked,
    NoGpsDevice,
    InvalidDateTime,
}

impl View for MountError {
    type V = Fault;

    open spec fn view(&self) -> Fault {
        match self {
            MountError::IoFailure => Fault::IoFailure,
            MountError::Timeout => Fault::Timeout,
            MountError::MalformedResponse(raw) => Fault::MalformedResponse(raw@),
            MountError::UnexpectedResponseLength => Fault::UnexpectedResponseLength,
            MountError::DeviceUnavailable => Fault::DeviceUnavailable,
            MountError::UnknownEnumValue => Fault::UnknownEnumValue,
            MountError::MalformedAngle => Fault::MalformedAngle,
            MountError::InvalidArgument => Fault::InvalidArgument,
            MountError::GpsNotLinked => Fault::GpsNotLinked,
            MountError::NoGpsDevice => Fault::NoGpsDevice,
            MountError::InvalidDateTime => Fault::InvalidDateTime,
        }
    }
}

/// A result with its error seen through the view.
pub open spec fn outcome<T>(r: Result<T, MountError>) -> Result<T, Fault> {
    match r {
        Ok(v) => Ok(v),
        Err(e) => Err(e@),
    }
}

/// A result carrying bytes, with both sides seen through their views.
pub open spec fn bytes_outcome(r: Result<Vec<u8>, MountError>) -> Result<Seq<u8>, Fault> {
    match r {
        Ok(v) => Ok(v@),
        Err(e) => Err(e@),
    }
}

} // verus!
