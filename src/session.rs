//! Operations that take several exchanges, as state machines: the caller
//! sends the frame it is handed, passes back what it read, and gets either
//! the next frame or the final result. No step is ever retried.

use crate::clock::{rtc_time, rtc_time_of, UtcDateTime};
use crate::command::gps_link_of;
use crate::device::Device;
use crate::error::{outcome, Fault, MountError};
use crate::frame::{
    check_terminated, passthrough_payload, passthrough_payload_of, passthrough_read_frame,
    passthrough_read_of, passthrough_write_frame, passthrough_write_of, terminated,
};
use vstd::arithmetic::div_mod::lemma_mod_multiples_vanish;
use vstd::prelude::*;

verus! {

pub const GPS_LATITUDE: u8 = 1;
pub const GPS_LONGITUDE: u8 = 2;
pub const RTC_GET_DATE: u8 = 3;
pub const RTC_GET_YEAR: u8 = 4;
pub const RTC_GET_TIME: u8 = 51;
pub const RTC_SET_DATE: u8 = 131;
pub const RTC_SET_YEAR: u8 = 132;
pub const RTC_SET_TIME: u8 = 179;

/// What a machine does after a reply.
pub enum Next<M, T> {
    /// Send this frame, then hand its reply to the machine.
    Send(M, Vec<u8>),
    /// The operation is over.
    Done(Result<T, MountError>),
}

/// The mathematical form of [`Next`].
pub enum Step<M, T> {
    Send(M, Seq<u8>),
    Done(Result<T, Fault>),
}

pub open spec fn step_of<M, T>(n: Next<M, T>) -> Step<M, T> {
    match n {
        Next::Send(m, f) => Step::Send(m, f@),
        Next::Done(r) => Step::Done(outcome(r)),
    }
}

/// A big-endian number of three bytes.
pub open spec fn be24(p: Seq<u8>) -> u32 {
    (p[0] * 65536 + p[1] * 256 + p[2]) as u32
}

/// A year as the clock stores it: two bytes, modulo `2^16`.
pub open spec fn year_bytes(year: i32) -> (u8, u8) {
    let y = year % 65536;
    ((y / 256) as u8, (y % 256) as u8)
}

// ---- GPS location ----

/// Reads the GPS position: the link status first, then, only if linked, the
/// latitude and the longitude as 24-bit fractions of a revolution.
pub struct GpsLocation {
    /// How many replies have been taken.
    pub stage: u8,
    /// The latitude, once read.
    pub latitude: u32,
}

pub open spec fn gps_location_step(s: GpsLocation, received: Seq<u8>) -> Step<GpsLocation, (u32, u32)> {
    if s.stage == 0 {
        match gps_link_of(received) {
            Err(e) => Step::Done(Err(e)),
            Ok(linked) => if linked {
                Step::Send(
                    GpsLocation { stage: 1, latitude: 0 },
                    passthrough_read_of(Device::GpsUnit, GPS_LATITUDE, 3),
                )
            } else {
                Step::Done(Err(Fault::GpsNotLinked))
            },
        }
    } else {
        match passthrough_payload_of(received, 3) {
            Err(e) => Step::Done(Err(e)),
            Ok(p) => if s.stage == 1 {
                Step::Send(
                    GpsLocation { stage: 2, latitude: be24(p) },
                    passthrough_read_of(Device::GpsUnit, GPS_LONGITUDE, 3),
                )
            } else {
                Step::Done(Ok((s.latitude, be24(p))))
            },
        }
    }
}

fn be24_of(p: &Vec<u8>) -> (r: u32)
    requires
        p@.len() == 3,
    ensures
        r == be24(p@),
{
    p[0] as u32 * 65536 + p[1] as u32 * 256 + p[2] as u32
}

impl GpsLocation {
    /// The machine and the link query to send first.
    pub fn start() -> (r: (GpsLocation, Vec<u8>))
        ensures
            r.0.stage == 0,
            r.1@ == passthrough_read_of(Device::GpsUnit, crate::command::GPS_LINKED, 1),
    {
        (GpsLocation { stage: 0, latitude: 0 }, crate::command::gps_link_frame())
    }

    pub fn on_reply(self, received: &[u8]) -> (r: Next<GpsLocation, (u32, u32)>)
        ensures
            step_of(r) == gps_location_step(self, received@),
    {
        if self.stage == 0 {
            match crate::command::gps_link_reply(received) {
                Err(e) => Next::Done(Err(e)),
                Ok(true) => Next::Send(
                    GpsLocation { stage: 1, latitude: 0 },
                    passthrough_read_frame(Device::GpsUnit, GPS_LATITUDE, 3),
                ),
                Ok(false) => Next::Done(Err(MountError::GpsNotLinked)),
            }
        } else {
            match passthrough_payload(received, 3) {
                Err(e) => Next::Done(Err(e)),
                Ok(p) => {
                    let v = be24_of(&p);
                    if self.stage == 1 {
                        Next::Send(
                            GpsLocation { stage: 2, latitude: v },
                            passthrough_read_frame(Device::GpsUnit, GPS_LONGITUDE, 3),
                        )
                    } else {
                        Next::Done(Ok((self.latitude, v)))
                    }
                },
            }
        }
    }
}

// ---- Real-time clock ----

/// Reads the real-time clock: month and day, then the year, then the time of
/// day, and builds the instant they describe.
pub struct RtcRead {
    pub stage: u8,
    pub month: u8,
    pub day: u8,
    pub year: u16,
}

pub open spec fn rtc_read_step(s: RtcRead, received: Seq<u8>) -> Step<RtcRead, UtcDateTime> {
    let len: nat = if s.stage >= 2 { 3 } else { 2 };
    match passthrough_payload_of(received, len) {
        Err(e) => Step::Done(Err(e)),
        Ok(p) => if s.stage == 0 {
            Step::Send(
                RtcRead { stage: 1, month: p[0], day: p[1], year: 0 },
                passthrough_read_of(Device::RtcUnit, RTC_GET_YEAR, 2),
            )
        } else if s.stage == 1 {
            Step::Send(
                RtcRead { stage: 2, month: s.month, day: s.day, year: (p[0] * 256 + p[1]) as u16 },
                passthrough_read_of(Device::RtcUnit, RTC_GET_TIME, 3),
            )
        } else {
            Step::Done(rtc_time_of(s.month, s.day, s.year, p))
        },
    }
}

impl RtcRead {
    /// The machine and the date query to send first.
    pub fn start() -> (r: (RtcRead, Vec<u8>))
        ensures
            r.0.stage == 0,
            r.1@ == passthrough_read_of(Device::RtcUnit, RTC_GET_DATE, 2),
    {
        (RtcRead { stage: 0, month: 0, day: 0, year: 0 }, passthrough_read_frame(Device::RtcUnit, RTC_GET_DATE, 2))
    }

    pub fn on_reply(self, received: &[u8]) -> (r: Next<RtcRead, UtcDateTime>)
        ensures
            step_of(r) == rtc_read_step(self, received@),
    {
        let len: u8 = if self.stage >= 2 { 3 } else { 2 };
        let p = match passthrough_payload(received, len) {
            Err(e) => return Next::Done(Err(e)),
            Ok(p) => p,
        };
        if self.stage == 0 {
            Next::Send(
                RtcRead { stage: 1, month: p[0], day: p[1], year: 0 },
                passthrough_read_frame(Device::RtcUnit, RTC_GET_YEAR, 2),
            )
        } else if self.stage == 1 {
            let year = p[0] as u16 * 256 + p[1] as u16;
            Next::Send(
                RtcRead { stage: 2, month: self.month, day: self.day, year },
                passthrough_read_frame(Device::RtcUnit, RTC_GET_TIME, 3),
            )
        } else {
            let r = rtc_time(self.month, self.day, self.year, p[0], p[1], p[2]);
            assert(seq![p[0], p[1], p[2]] =~= p@);
            Next::Done(r)
        }
    }
}

/// Sets the real-time clock in three writes: month and day, the year, then
/// the time of day. A failure stops the sequence and leaves the earlier
/// writes in place.
pub struct RtcWrite {
    pub stage: u8,
    pub time: UtcDateTime,
}

pub open spec fn rtc_date_frame_of(t: UtcDateTime) -> Seq<u8> {
    passthrough_write_of(Device::RtcUnit, RTC_SET_DATE, seq![t.month, t.day])
}

pub open spec fn rtc_year_frame_of(t: UtcDateTime) -> Seq<u8> {
    passthrough_write_of(Device::RtcUnit, RTC_SET_YEAR, seq![year_bytes(t.year).0, year_bytes(t.year).1])
}

pub open spec fn rtc_time_frame_of(t: UtcDateTime) -> Seq<u8> {
    passthrough_write_of(Device::RtcUnit, RTC_SET_TIME, seq![t.hour, t.minute, t.second])
}

pub open spec fn rtc_write_step(s: RtcWrite, received: Seq<u8>) -> Step<RtcWrite, ()> {
    match terminated(received) {
        Err(e) => Step::Done(Err(e)),
        Ok(()) => if s.stage == 0 {
            Step::Send(RtcWrite { stage: 1, time: s.time }, rtc_year_frame_of(s.time))
        } else if s.stage == 1 {
            Step::Send(RtcWrite { stage: 2, time: s.time }, rtc_time_frame_of(s.time))
        } else {
            Step::Done(Ok(()))
        },
    }
}

fn write_frame(cmd: u8, args: &[u8]) -> (r: Vec<u8>)
    requires
        args@.len() <= 3,
    ensures
        r@ == passthrough_write_of(Device::RtcUnit, cmd, args@),
{
    match passthrough_write_frame(Device::RtcUnit, cmd, args) {
        Ok(v) => v,
        Err(_) => Vec::new(),
    }
}

fn year_frame(year: i32) -> (r: Vec<u8>)
    ensures
        r@ == passthrough_write_of(Device::RtcUnit, RTC_SET_YEAR, seq![year_bytes(year).0, year_bytes(year).1]),
{
    let shifted: u64 = (year as i64 + 0x1_0000_0000) as u64;
    let y: u64 = shifted % 65536;
    proof {
        lemma_mod_multiples_vanish(65536, year as int, 65536);
    }
    let args = [(y / 256) as u8, (y % 256) as u8];
    assert(args@ =~= seq![year_bytes(year).0, year_bytes(year).1]);
    write_frame(RTC_SET_YEAR, &args)
}

impl RtcWrite {
    /// The machine and the month-and-day write to send first.
    pub fn start(time: UtcDateTime) -> (r: (RtcWrite, Vec<u8>))
        ensures
            r.0 == (RtcWrite { stage: 0, time }),
            r.1@ == rtc_date_frame_of(time),
    {
        let args = [time.month, time.day];
        assert(args@ =~= seq![time.month, time.day]);
        (RtcWrite { stage: 0, time }, write_frame(RTC_SET_DATE, &args))
    }

    pub fn on_reply(self, received: &[u8]) -> (r: Next<RtcWrite, ()>)
        ensures
            step_of(r) == rtc_write_step(self, received@),
    {
        if let Err(e) = check_terminated(received) {
            return Next::Done(Err(e));
        }
        if self.stage == 0 {
            Next::Send(RtcWrite { stage: 1, time: self.time }, year_frame(self.time.year))
        } else if self.stage == 1 {
            let t = self.time;
            let args = [t.hour, t.minute, t.second];
            assert(args@ =~= seq![t.hour, t.minute, t.second]);
            Next::Send(RtcWrite { stage: 2, time: t }, write_frame(RTC_SET_TIME, &args))
        } else {
            Next::Done(Ok(()))
        }
    }
}

} // verus!
