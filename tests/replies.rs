use nexlib::command::{
    acknowledgement, aligned_reply, cancel_goto_reply, device_version_frame, device_version_reply,
    gps_capability, gps_link_reply, goto_in_progress_reply, model_reply, position_az_el_reply,
    position_ra_dec_reply, time_reply, tracking_mode_reply, version_reply,
};
use nexlib::{mount_time, rtc_time, utc_offset};
use nexlib::{Device, Model, MountError, TrackingMode, UtcDateTime};

fn utc(year: i32, month: u8, day: u8, hour: u8, minute: u8, second: u8) -> UtcDateTime {
    UtcDateTime { year, month, day, hour, minute, second }
}

#[test]
fn model_identifiers() {
    assert_eq!(model_reply(&[20, b'#']), Ok(Model::AdvancedVX));
    assert_eq!(Model::AdvancedVX.name(), "Advanced VX");
    assert_eq!(model_reply(&[1, b'#']), Ok(Model::GPSSeries));
    assert_eq!(model_reply(&[99, b'#']), Err(MountError::UnknownEnumValue));
    assert_eq!(model_reply(&[2, b'#']), Err(MountError::UnknownEnumValue));
    assert_eq!(model_reply(&[20, 1, b'#']), Err(MountError::UnexpectedResponseLength));
}

#[test]
fn model_codes_round_trip() {
    for b in 0u8..=255 {
        if let Ok(m) = Model::from_code(b) {
            assert_eq!(m.code(), b);
        }
    }
    assert_eq!(Model::Evolution.code(), 22);
}

#[test]
fn gps_only_on_gps_series() {
    assert_eq!(gps_capability(Model::GPSSeries), Ok(()));
    assert_eq!(gps_capability(Model::AdvancedVX), Err(MountError::NoGpsDevice));
}

#[test]
fn mount_time_with_standard_offset() {
    // UTC-5 with the daylight byte 0 gives an offset of -4 hours
    let t = mount_time(&[10, 30, 0, 6, 15, 24, 0xFB, 0]);
    assert_eq!(t, Ok(utc(2024, 6, 15, 14, 30, 0)));
}

#[test]
fn offset_bytes_to_hhmm() {
    assert_eq!(utc_offset(0xFB, 0), -400);
    assert_eq!(utc_offset(0xFB, 1), -500);
    assert_eq!(utc_offset(2, 0), 300);
    assert_eq!(utc_offset(0, 7), 100);
    assert_eq!(utc_offset(0x80, 1), -12800);
}

#[test]
fn mount_time_with_daylight_byte() {
    let t = mount_time(&[10, 30, 0, 6, 15, 24, 0xFB, 1]);
    assert_eq!(t, Ok(utc(2024, 6, 15, 15, 30, 0)));
    let u = mount_time(&[23, 30, 0, 12, 31, 24, 0, 1]);
    assert_eq!(u, Ok(utc(2024, 12, 31, 23, 30, 0)));
    let v = mount_time(&[0, 15, 0, 1, 1, 25, 1, 1]);
    assert_eq!(v, Ok(utc(2024, 12, 31, 23, 15, 0)));
}

#[test]
fn mount_time_invalid_fields() {
    assert_eq!(mount_time(&[10, 30, 0, 13, 15, 24, 0, 0]), Err(MountError::InvalidDateTime));
    assert_eq!(mount_time(&[10, 30, 0, 2, 30, 24, 0, 0]), Err(MountError::InvalidDateTime));
    assert_eq!(mount_time(&[10, 30, 0, 6, 15, 24, 127, 0]), Err(MountError::InvalidDateTime));
    assert_eq!(mount_time(&[10, 30, 0, 6, 15, 24]), Err(MountError::UnexpectedResponseLength));
}

#[test]
fn time_reply_decodes_payload() {
    let t = time_reply(&[10, 30, 0, 6, 15, 24, 0, 1, b'#']);
    assert_eq!(t, Ok(utc(2024, 6, 15, 10, 30, 0)));
    assert_eq!(time_reply(&[10, 30, 0, b'#']), Err(MountError::UnexpectedResponseLength));
}

#[test]
fn rtc_fields_are_validated() {
    assert_eq!(rtc_time(2, 29, 2024, 12, 0, 0), Ok(utc(2024, 2, 29, 12, 0, 0)));
    assert_eq!(rtc_time(2, 29, 2023, 12, 0, 0), Err(MountError::InvalidDateTime));
    assert_eq!(rtc_time(1, 1, 2024, 24, 0, 0), Err(MountError::InvalidDateTime));
    assert_eq!(rtc_time(0, 1, 2024, 0, 0, 0), Err(MountError::InvalidDateTime));
}

#[test]
fn versions_as_text() {
    assert_eq!(version_reply(&[4, 41, b'#']), Ok("4.41".to_string()));
    assert_eq!(version_reply(&[255, 0, b'#']), Ok("255.0".to_string()));
    assert_eq!(version_reply(&[4, b'#']), Err(MountError::UnexpectedResponseLength));
    assert_eq!(device_version_frame(Device::AzRaMotor), vec![b'P', 1, 16, 254, 0, 0, 0, 2]);
    assert_eq!(device_version_reply(&[7, 11, b'#']), Ok("7.11".to_string()));
    assert_eq!(device_version_reply(&[7, 11, 0, b'#']), Err(MountError::DeviceUnavailable));
}

#[test]
fn tracking_modes() {
    assert_eq!(tracking_mode_reply(&[0, b'#']), Ok(TrackingMode::Off));
    assert_eq!(tracking_mode_reply(&[3, b'#']), Ok(TrackingMode::EQSouth));
    assert_eq!(tracking_mode_reply(&[4, b'#']), Err(MountError::UnknownEnumValue));
    assert_eq!(TrackingMode::AzEl.code(), 1);
}

#[test]
fn flags() {
    assert_eq!(aligned_reply(&[1, b'#']), Ok(true));
    assert_eq!(aligned_reply(&[0, b'#']), Ok(false));
    assert_eq!(aligned_reply(&[2, b'#']), Err(MountError::UnknownEnumValue));
    assert_eq!(goto_in_progress_reply(&[b'1', b'#']), Ok(true));
    assert_eq!(goto_in_progress_reply(&[b'0', b'#']), Ok(false));
    assert_eq!(goto_in_progress_reply(&[1, b'#']), Err(MountError::UnknownEnumValue));
    assert_eq!(cancel_goto_reply(&[0, b'#']), Ok(()));
    assert_eq!(cancel_goto_reply(&[5, b'#']), Err(MountError::UnknownEnumValue));
    assert_eq!(gps_link_reply(&[0, b'#']), Ok(false));
    assert_eq!(gps_link_reply(&[3, b'#']), Ok(true));
    assert_eq!(gps_link_reply(&[0, 0, b'#']), Err(MountError::DeviceUnavailable));
    assert_eq!(acknowledgement(&[b'#']), Ok(()));
}

#[test]
fn positions() {
    let p = position_ra_dec_reply(b"62A66800,3FB41D00#").unwrap();
    assert_eq!((p.ra, p.dec), (0x62A6_6800, 0x3FB4_1D00));
    let q = position_az_el_reply(b"80000000,00000000#").unwrap();
    assert_eq!((q.az, q.el), (0x8000_0000, 0));
    assert_eq!(position_ra_dec_reply(b"62A66800#").err(), Some(MountError::UnexpectedResponseLength));
    assert_eq!(position_ra_dec_reply(b"62A66800,3FB41D0Z#").err(), Some(MountError::MalformedAngle));
}
