//! Positions in the two coordinate systems the mount knows, held in the
//! mount's own angle units (a full revolution is `2^32`).

use crate::angle::{angle_pair_of, decode_angle_pair, wrapped};
use crate::error::{Fault, MountError};
use vstd::prelude::*;

verus! {

/// Right ascension and declination.
#[derive(Debug, Clone, Copy, PartialEq, Eq, Structural)]
pub struct RADec {
    pub ra: u32,
    pub dec: u32,
}

/// Azimuth and elevation.
#[derive(Debug, Clone, Copy, PartialEq, Eq, Structural)]
pub struct AzEl {
    pub az: u32,
    pub el: u32,
}

impl RADec {
    /// Builds a position from integer angles of any size; each is reduced to
    /// one revolution.
    pub fn new(ra: i64, dec: i64) -> (r: RADec)
        ensures
            r.ra == wrapped(ra as int),
            r.dec == wrapped(dec as int),
    {
        RADec { ra: crate::angle::angle_from_i64(ra), dec: crate::angle::angle_from_i64(dec) }
    }

    /// Reads a position from a coordinate-pair message.
    pub fn from_msg(msg: &[u8]) -> (r: Result<RADec, MountError>)
        ensures
            match r {
                Ok(p) => angle_pair_of(msg@) == Ok::<(u32, u32), Fault>((p.ra, p.dec)),
                Err(e) => angle_pair_of(msg@) == Err::<(u32, u32), Fault>(e@),
            },
    {
        let (ra, dec) = decode_angle_pair(msg)?;
        Ok(RADec { ra, dec })
    }

    pub fn ra_as_i64(&self) -> (r: i64)
        ensures
            r == self.ra,
    {
        self.ra as i64
    }

    pub fn dec_as_i64(&self) -> (r: i64)
        ensures
            r == self.dec,
    {
        self.dec as i64
    }
}

impl AzEl {
    /// Builds a position from integer angles of any size; each is reduced to
    /// one revolution.
    pub fn new(az: i64, el: i64) -> (r: AzEl)
        ensures
            r.az == wrapped(az as int),
            r.el == wrapped(el as int),
    {
        AzEl { az: crate::angle::angle_from_i64(az), el: crate::angle::angle_from_i64(el) }
    }

    /// Reads a position from a coordinate-pair message.
    pub fn from_msg(msg: &[u8]) -> (r: Result<AzEl, MountError>)
        ensures
            match r {
                Ok(p) => angle_pair_of(msg@) == Ok::<(u32, u32), Fault>((p.az, p.el)),
                Err(e) => angle_pair_of(msg@) == Err::<(u32, u32), Fault>(e@),
            },
    {
        let (az, el) = decode_angle_pair(msg)?;
        Ok(AzEl { az, el })
    }

    pub fn az_as_i64(&self) -> (r: i64)
        ensures
            r == self.az,
    {
        self.az as i64
    }

    pub fn el_as_i64(&self) -> (r: i64)
        ensures
            r == self.el,
    {
        self.el as i64
    }
}

} // verus!
