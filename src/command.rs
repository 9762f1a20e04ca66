//! Each single-exchange operation as a frame to send and a decoder for the
//! bytes that come back (terminator included).

use crate::angle::{angle_pair_field, angle_pair_of, encode_angle_pair};
use crate::clock::{mount_time, mount_time_of, UtcDateTime};
use crate::coordinates::{AzEl, RADec};
use crate::device::{
    axis_motor, model_of, slew_rate_code, tracking_code, tracking_mode_of, Device,
    Model, SlewAxis, SlewDir, SlewRate, TrackingMode,
};
use crate::error::{outcome, Fault, MountError};
use crate::frame::{
    check_terminated, direct_frame, direct_payload, direct_payload_of,
    passthrough_payload, passthrough_payload_of, passthrough_read_frame, passthrough_read_of,
    passthrough_write_frame, passthrough_write_of, slew_rate, slew_rate_bytes, terminated,
    MAX_SLEW_RATE,
};
use crate::text::{ascii_chars, version_bytes, version_text};
use vstd::prelude::*;

verus! {

pub const GET_RA_DEC: u8 = 0x65;  // 'e'
pub const GET_AZ_EL: u8 = 0x7A;  // 'z'
pub const GOTO: u8 = 0x72;  // 'r'
pub const SYNC: u8 = 0x73;  // 's'
pub const GET_TRACKING_MODE: u8 = 0x74;  // 't'
pub const SET_TRACKING_MODE: u8 = 0x54;  // 'T'
pub const GET_TIME: u8 = 0x68;  // 'h'
pub const GET_VERSION: u8 = 0x56;  // 'V'
pub const GET_MODEL: u8 = 0x6D;  // 'm'
pub const IS_ALIGNED: u8 = 0x4A;  // 'J'
pub const GOTO_IN_PROGRESS: u8 = 0x4C;  // 'L'
pub const CANCEL_GOTO: u8 = 0x51;  // 'Q'

/// Motor sub-commands: variable-rate slews and fixed-rate slews, each in the
/// positive and the negative direction.
pub const SLEW_VARIABLE_POSITIVE: u8 = 6;
pub const SLEW_VARIABLE_NEGATIVE: u8 = 7;
pub const SLEW_FIXED_POSITIVE: u8 = 36;
pub const SLEW_FIXED_NEGATIVE: u8 = 37;

/// Sub-command every sub-device answers with its firmware version.
pub const DEVICE_VERSION: u8 = 254;

/// GPS sub-command: whether the unit has a satellite link.
pub const GPS_LINKED: u8 = 55;

/// Payload lengths of the hand-controller replies.
pub const POSITION_LEN: usize = 17;
pub const TIME_LEN: usize = 8;
pub const VERSION_LEN: usize = 2;
pub const FLAG_LEN: usize = 1;

pub open spec fn slew_variable_code(dir: SlewDir) -> u8 {
    match dir {
        SlewDir::Positive => SLEW_VARIABLE_POSITIVE,
        SlewDir::Negative => SLEW_VARIABLE_NEGATIVE,
    }
}

pub open spec fn slew_fixed_code(dir: SlewDir) -> u8 {
    match dir {
        SlewDir::Positive => SLEW_FIXED_POSITIVE,
        SlewDir::Negative => SLEW_FIXED_NEGATIVE,
    }
}

/// A command that moves to, or syncs on, a pair of angles.
pub open spec fn coordinate_command_of(opcode: u8, a: u32, b: u32) -> Seq<u8> {
    seq![opcode] + angle_pair_field(a, b)
}

/// The frame of a variable-rate slew.
pub open spec fn slew_variable_of(axis: SlewAxis, dir: SlewDir, rate: u16) -> Seq<u8> {
    passthrough_write_of(
        axis_motor(axis),
        slew_variable_code(dir),
        seq![slew_rate_bytes(rate).0, slew_rate_bytes(rate).1],
    )
}

/// What a position reply decodes to.
pub open spec fn position_reply_of(received: Seq<u8>) -> Result<(u32, u32), Fault> {
    match direct_payload_of(received, POSITION_LEN as nat) {
        Err(e) => Err(e),
        Ok(p) => angle_pair_of(p),
    }
}

/// What a one-byte hand-controller reply carries.
pub open spec fn flag_byte_of(received: Seq<u8>) -> Result<u8, Fault> {
    match direct_payload_of(received, FLAG_LEN as nat) {
        Err(e) => Err(e),
        Ok(p) => Ok(p[0]),
    }
}

pub open spec fn tracking_reply_of(received: Seq<u8>) -> Result<TrackingMode, Fault> {
    match flag_byte_of(received) {
        Err(e) => Err(e),
        Ok(b) => match tracking_mode_of(b) {
            Some(m) => Ok(m),
            None => Err(Fault::UnknownEnumValue),
        },
    }
}

pub open spec fn model_reply_of(received: Seq<u8>) -> Result<Model, Fault> {
    match flag_byte_of(received) {
        Err(e) => Err(e),
        Ok(b) => match model_of(b) {
            Some(m) => Ok(m),
            None => Err(Fault::UnknownEnumValue),
        },
    }
}

/// A flag answered as the byte 0 or 1.
pub open spec fn binary_flag_of(received: Seq<u8>) -> Result<bool, Fault> {
    match flag_byte_of(received) {
        Err(e) => Err(e),
        Ok(b) => if b == 0 {
            Ok(false)
        } else if b == 1 {
            Ok(true)
        } else {
            Err(Fault::UnknownEnumValue)
        },
    }
}

/// A flag answered as the character `0` or `1`.
pub open spec fn digit_flag_of(received: Seq<u8>) -> Result<bool, Fault> {
    match flag_byte_of(received) {
        Err(e) => Err(e),
        Ok(b) => if b == 0x30 {
            Ok(false)
        } else if b == 0x31 {
            Ok(true)
        } else {
            Err(Fault::UnknownEnumValue)
        },
    }
}

pub open spec fn cancel_reply_of(received: Seq<u8>) -> Result<(), Fault> {
    match flag_byte_of(received) {
        Err(e) => Err(e),
        Ok(b) => if b == 0 {
            Ok(())
        } else {
            Err(Fault::UnknownEnumValue)
        },
    }
}

pub open spec fn time_reply_of(received: Seq<u8>) -> Result<UtcDateTime, Fault> {
    match direct_payload_of(received, TIME_LEN as nat) {
        Err(e) => Err(e),
        Ok(p) => mount_time_of(p),
    }
}

/// The version text a two-byte payload stands for.
pub open spec fn version_of(p: Result<Seq<u8>, Fault>) -> Result<Seq<char>, Fault> {
    match p {
        Err(e) => Err(e),
        Ok(p) => Ok(ascii_chars(version_bytes(p[0], p[1]))),
    }
}

/// A result carrying text, seen through its view.
pub open spec fn text_outcome(r: Result<String, MountError>) -> Result<Seq<char>, Fault> {
    match r {
        Ok(s) => Ok(s@),
        Err(e) => Err(e@),
    }
}

fn coordinate_command(opcode: u8, a: u32, b: u32) -> (r: Vec<u8>)
    ensures
        r@ == coordinate_command_of(opcode, a, b),
{
    let pair = encode_angle_pair(a, b);
    direct_frame(opcode, pair.as_slice())
}

/// The one byte of a hand-controller reply that must carry exactly one.
fn flag_byte(received: &[u8]) -> (r: Result<u8, MountError>)
    ensures
        outcome(r) == flag_byte_of(received@),
{
    let p = direct_payload(received, FLAG_LEN)?;
    Ok(p[0])
}

/// Checks the bare acknowledgement that commands without data get back.
pub fn acknowledgement(received: &[u8]) -> (r: Result<(), MountError>)
    ensures
        outcome(r) == terminated(received@),
{
    check_terminated(received)
}

pub fn position_ra_dec_frame() -> (r: Vec<u8>)
    ensures
        r@ == seq![GET_RA_DEC],
{
    direct_frame(GET_RA_DEC, &[])
}

pub fn position_az_el_frame() -> (r: Vec<u8>)
    ensures
        r@ == seq![GET_AZ_EL],
{
    direct_frame(GET_AZ_EL, &[])
}

/// Decodes the reply to a right ascension and declination query.
pub fn position_ra_dec_reply(received: &[u8]) -> (r: Result<RADec, MountError>)
    ensures
        match r {
            Ok(c) => position_reply_of(received@) == Ok::<(u32, u32), Fault>((c.ra, c.dec)),
            Err(e) => position_reply_of(received@) == Err::<(u32, u32), Fault>(e@),
        },
{
    let p = direct_payload(received, POSITION_LEN)?;
    RADec::from_msg(p.as_slice())
}

/// Decodes the reply to an azimuth and elevation query.
pub fn position_az_el_reply(received: &[u8]) -> (r: Result<AzEl, MountError>)
    ensures
        match r {
            Ok(c) => position_reply_of(received@) == Ok::<(u32, u32), Fault>((c.az, c.el)),
            Err(e) => position_reply_of(received@) == Err::<(u32, u32), Fault>(e@),
        },
{
    let p = direct_payload(received, POSITION_LEN)?;
    AzEl::from_msg(p.as_slice())
}

/// Moves to a right ascension and declination: `r`, then the coordinate
/// pair. The reply is a bare acknowledgement.
pub fn goto_ra_dec_frame(coord: &RADec) -> (r: Vec<u8>)
    ensures
        r@ == coordinate_command_of(GOTO, coord.ra, coord.dec),
{
    coordinate_command(GOTO, coord.ra, coord.dec)
}

/// Moves to an azimuth and elevation.
pub fn goto_az_el_frame(coord: &AzEl) -> (r: Vec<u8>)
    ensures
        r@ == coordinate_command_of(GOTO, coord.az, coord.el),
{
    coordinate_command(GOTO, coord.az, coord.el)
}

/// Tells the mount it points at the given right ascension and declination.
pub fn sync_frame(coord: &RADec) -> (r: Vec<u8>)
    ensures
        r@ == coordinate_command_of(SYNC, coord.ra, coord.dec),
{
    coordinate_command(SYNC, coord.ra, coord.dec)
}

pub fn tracking_mode_frame() -> (r: Vec<u8>)
    ensures
        r@ == seq![GET_TRACKING_MODE],
{
    direct_frame(GET_TRACKING_MODE, &[])
}

/// Decodes the tracking mode; an unknown mode byte is an error.
pub fn tracking_mode_reply(received: &[u8]) -> (r: Result<TrackingMode, MountError>)
    ensures
        outcome(r) == tracking_reply_of(received@),
{
    let b = flag_byte(received)?;
    TrackingMode::from_code(b)
}

pub fn set_tracking_mode_frame(mode: TrackingMode) -> (r: Vec<u8>)
    ensures
        r@ == seq![SET_TRACKING_MODE, tracking_code(mode)],
{
    let v = vec![SET_TRACKING_MODE, mode.code()];
    assert(v@ =~= seq![SET_TRACKING_MODE, tracking_code(mode)]);
    v
}

/// Starts a slew of one axis at `rate` arcseconds per second. Rates whose
/// scaled value does not fit two bytes are refused.
pub fn slew_variable_frame(axis: SlewAxis, dir: SlewDir, rate: u16) -> (r: Result<Vec<u8>, MountError>)
    ensures
        rate <= MAX_SLEW_RATE ==> r is Ok && r->Ok_0@ == slew_variable_of(axis, dir, rate),
        rate > MAX_SLEW_RATE ==> r == Err::<Vec<u8>, MountError>(MountError::InvalidArgument),
{
    if rate > MAX_SLEW_RATE {
        return Err(MountError::InvalidArgument);
    }
    let code = match dir {
        SlewDir::Positive => SLEW_VARIABLE_POSITIVE,
        SlewDir::Negative => SLEW_VARIABLE_NEGATIVE,
    };
    let (high, low) = slew_rate(rate);
    let args = [high, low];
    assert(args@ =~= seq![slew_rate_bytes(rate).0, slew_rate_bytes(rate).1]);
    passthrough_write_frame(Device::motor(axis), code, &args)
}

/// Stops an axis: a variable-rate slew at rate zero.
pub fn stop_slew_frame(axis: SlewAxis) -> (r: Vec<u8>)
    ensures
        r@ == slew_variable_of(axis, SlewDir::Positive, 0),
{
    match slew_variable_frame(axis, SlewDir::Positive, 0) {
        Ok(v) => v,
        Err(_) => Vec::new(),
    }
}

/// Starts a slew of one axis at one of the predefined speeds.
pub fn slew_fixed_frame(axis: SlewAxis, dir: SlewDir, rate: SlewRate) -> (r: Vec<u8>)
    ensures
        r@ == passthrough_write_of(axis_motor(axis), slew_fixed_code(dir), seq![slew_rate_code(rate)]),
{
    let code = match dir {
        SlewDir::Positive => SLEW_FIXED_POSITIVE,
        SlewDir::Negative => SLEW_FIXED_NEGATIVE,
    };
    let args = [rate.code()];
    assert(args@ =~= seq![slew_rate_code(rate)]);
    match passthrough_write_frame(Device::motor(axis), code, &args) {
        Ok(v) => v,
        Err(_) => Vec::new(),
    }
}

pub fn time_frame() -> (r: Vec<u8>)
    ensures
        r@ == seq![GET_TIME],
{
    direct_frame(GET_TIME, &[])
}

/// Decodes the hand controller's date and time into an instant in UTC.
pub fn time_reply(received: &[u8]) -> (r: Result<UtcDateTime, MountError>)
    ensures
        outcome(r) == time_reply_of(received@),
{
    let p = direct_payload(received, TIME_LEN)?;
    mount_time(p.as_slice())
}

pub fn version_frame() -> (r: Vec<u8>)
    ensures
        r@ == seq![GET_VERSION],
{
    direct_frame(GET_VERSION, &[])
}

/// Decodes the hand controller's firmware version as `major.minor`.
pub fn version_reply(received: &[u8]) -> (r: Result<String, MountError>)
    ensures
        text_outcome(r) == version_of(direct_payload_of(received@, VERSION_LEN as nat)),
{
    let p = direct_payload(received, VERSION_LEN)?;
    Ok(version_text(p[0], p[1]))
}

/// Asks a sub-device for its firmware version.
pub fn device_version_frame(dev: Device) -> (r: Vec<u8>)
    ensures
        r@ == passthrough_read_of(dev, DEVICE_VERSION, VERSION_LEN as u8),
{
    passthrough_read_frame(dev, DEVICE_VERSION, VERSION_LEN as u8)
}

/// Decodes a sub-device's firmware version as `major.minor`.
pub fn device_version_reply(received: &[u8]) -> (r: Result<String, MountError>)
    ensures
        text_outcome(r) == version_of(passthrough_payload_of(received@, VERSION_LEN as nat)),
{
    let p = passthrough_payload(received, VERSION_LEN as u8)?;
    Ok(version_text(p[0], p[1]))
}

pub fn model_frame() -> (r: Vec<u8>)
    ensures
        r@ == seq![GET_MODEL],
{
    direct_frame(GET_MODEL, &[])
}

/// Decodes the model identifier; identifiers outside the table are an error.
pub fn model_reply(received: &[u8]) -> (r: Result<Model, MountError>)
    ensures
        outcome(r) == model_reply_of(received@),
{
    let b = flag_byte(received)?;
    Model::from_code(b)
}

pub fn aligned_frame() -> (r: Vec<u8>)
    ensures
        r@ == seq![IS_ALIGNED],
{
    direct_frame(IS_ALIGNED, &[])
}

/// Decodes the alignment flag, sent as the byte 0 or 1.
pub fn aligned_reply(received: &[u8]) -> (r: Result<bool, MountError>)
    ensures
        outcome(r) == binary_flag_of(received@),
{
    let b = flag_byte(received)?;
    match b {
        0 => Ok(false),
        1 => Ok(true),
        _ => Err(MountError::UnknownEnumValue),
    }
}

pub fn goto_in_progress_frame() -> (r: Vec<u8>)
    ensures
        r@ == seq![GOTO_IN_PROGRESS],
{
    direct_frame(GOTO_IN_PROGRESS, &[])
}

/// Decodes whether a goto is running, sent as the character `0` or `1`.
pub fn goto_in_progress_reply(received: &[u8]) -> (r: Result<bool, MountError>)
    ensures
        outcome(r) == digit_flag_of(received@),
{
    let b = flag_byte(received)?;
    match b {
        0x30 => Ok(false),
        0x31 => Ok(true),
        _ => Err(MountError::UnknownEnumValue),
    }
}

pub fn cancel_goto_frame() -> (r: Vec<u8>)
    ensures
        r@ == seq![CANCEL_GOTO],
{
    direct_frame(CANCEL_GOTO, &[])
}

/// Checks the reply to a cancelled goto, the byte 0.
pub fn cancel_goto_reply(received: &[u8]) -> (r: Result<(), MountError>)
    ensures
        outcome(r) == cancel_reply_of(received@),
{
    let b = flag_byte(received)?;
    if b == 0 {
        Ok(())
    } else {
        Err(MountError::UnknownEnumValue)
    }
}

/// Only the GPS series carries a GPS unit.
pub fn gps_capability(model: Model) -> (r: Result<(), MountError>)
    ensures
        r is Ok <==> model == Model::GPSSeries,
        r is Err ==> r == Err::<(), MountError>(MountError::NoGpsDevice),
{
    match model {
        Model::GPSSeries => Ok(()),
        _ => Err(MountError::NoGpsDevice),
    }
}

/// Asks the GPS unit whether it has a satellite link.
pub fn gps_link_frame() -> (r: Vec<u8>)
    ensures
        r@ == passthrough_read_of(Device::GpsUnit, GPS_LINKED, 1),
{
    passthrough_read_frame(Device::GpsUnit, GPS_LINKED, 1)
}

/// What a link reply says: any nonzero byte means linked.
pub open spec fn gps_link_of(received: Seq<u8>) -> Result<bool, Fault> {
    match passthrough_payload_of(received, 1) {
        Err(e) => Err(e),
        Ok(p) => Ok(p[0] != 0),
    }
}

/// Decodes the GPS unit's link status.
pub fn gps_link_reply(received: &[u8]) -> (r: Result<bool, MountError>)
    ensures
        outcome(r) == gps_link_of(received@),
{
    let p = passthrough_payload(received, 1)?;
    Ok(p[0] != 0)
}

} // verus!
