use nexlib::{angle_from_i64, decode_angle, decode_angle_pair, encode_angle, encode_angle_pair};
use nexlib::{AzEl, MountError, RADec};

#[test]
fn basic_build_az_el() {
    let az_el = AzEl::new(0, 0);
    assert_eq!(az_el.az, 0);
    assert_eq!(az_el.el, 0);
}

#[test]
fn basic_build_ra_dec() {
    let ra_dec = RADec::new(0, 0);
    assert_eq!(ra_dec.ra, 0);
    assert_eq!(ra_dec.dec, 0);
}

#[test]
fn angles_wrap_to_one_revolution() {
    assert_eq!(angle_from_i64(-1), 0xFFFF_FFFF);
    assert_eq!(angle_from_i64(0x1_0000_0005), 5);
    assert_eq!(angle_from_i64(i64::MIN), 0);
    assert_eq!(angle_from_i64(-0x1_0000_0001), 0xFFFF_FFFF);
    let p = RADec::new(-0x8000_0000, 0x1_8000_0000);
    assert_eq!(p.ra_as_i64(), 0x8000_0000);
    assert_eq!(p.dec_as_i64(), 0x8000_0000);
}

#[test]
fn angle_field_is_eight_upper_case_digits() {
    assert_eq!(encode_angle(0xABC), b"00000ABC".to_vec());
    assert_eq!(encode_angle(0xFFFF_FFFF), b"FFFFFFFF".to_vec());
    assert_eq!(encode_angle(0), b"00000000".to_vec());
}

#[test]
fn angle_field_decodes_either_case() {
    assert_eq!(decode_angle(b"62A66800"), Ok(0x62A6_6800));
    assert_eq!(decode_angle(b"62a66800"), Ok(0x62A6_6800));
    assert_eq!(decode_angle(b"FFFFFFFF"), Ok(0xFFFF_FFFF));
}

#[test]
fn malformed_angle_fields_are_refused() {
    assert_eq!(decode_angle(b"62A6680G"), Err(MountError::MalformedAngle));
    assert_eq!(decode_angle(b"+2A66800"), Err(MountError::MalformedAngle));
    assert_eq!(decode_angle(b"62A6680"), Err(MountError::MalformedAngle));
    assert_eq!(decode_angle(b"62A668000"), Err(MountError::MalformedAngle));
    assert_eq!(decode_angle(b""), Err(MountError::MalformedAngle));
}

#[test]
fn angle_round_trip_on_samples() {
    for a in [0u32, 1, 0x1234_5678, 0x8000_0000, 0xDEAD_BEEF, u32::MAX] {
        assert_eq!(decode_angle(&encode_angle(a)), Ok(a));
        assert_eq!(decode_angle_pair(&encode_angle_pair(a, !a)), Ok((a, !a)));
    }
}

#[test]
fn pair_separator_is_not_inspected() {
    assert_eq!(decode_angle_pair(b"00000010;00000020"), Ok((0x10, 0x20)));
    assert_eq!(decode_angle_pair(b"0000001000000020"), Err(MountError::MalformedAngle));
}

#[test]
fn positions_read_from_messages() {
    let p = RADec::from_msg(b"62A66800,3FB41D00#").unwrap();
    assert_eq!((p.ra, p.dec), (0x62A6_6800, 0x3FB4_1D00));
    let q = AzEl::from_msg(b"00000001,FFFFFFFF").unwrap();
    assert_eq!((q.az_as_i64(), q.el_as_i64()), (1, 0xFFFF_FFFF));
    assert_eq!(AzEl::from_msg(b"0000000X,00000000").err(), Some(MountError::MalformedAngle));
}
