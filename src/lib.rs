//! Driver logic for telescope mounts that speak the NexStar serial protocol:
//! command framing, reply validation, the 32-bit angle codec and the decoding
//! of every query the hand controller answers.
//!
//! Nothing here touches the serial line. Each operation is a frame to write
//! and a decoder for the bytes read back; operations that need several
//! exchanges are state machines in [`session`], and [`transport`] decides how
//! long to wait for a reply.

pub mod angle;
pub mod clock;
pub mod command;
pub mod coordinates;
pub mod device;
pub mod error;
pub mod frame;
pub mod session;
pub mod text;
pub mod transport;

pub use angle::{angle_from_i64, decode_angle, decode_angle_pair, encode_angle, encode_angle_pair};
pub use clock::{mount_time, rtc_time, utc_offset, UtcDateTime};
pub use coordinates::{AzEl, RADec};
pub use device::{Device, Model, NonGpsDevice, SlewAxis, SlewDir, SlewRate, TrackingMode};
pub use error::MountError;
pub use frame::{
    check_terminated, direct_frame, direct_payload, passthrough_payload, passthrough_read_frame,
    passthrough_write_frame, slew_rate,
};
pub use session::{GpsLocation, Next, RtcRead, RtcWrite};
pub use transport::{next_poll, Poll};
