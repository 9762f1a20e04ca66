use nexlib::command::{
    goto_az_el_frame, goto_ra_dec_frame, position_ra_dec_frame, set_tracking_mode_frame,
    slew_fixed_frame, slew_variable_frame, stop_slew_frame, sync_frame,
};
use nexlib::{
    check_terminated, direct_frame, direct_payload, passthrough_payload, passthrough_read_frame,
    passthrough_write_frame, slew_rate,
};
use nexlib::{AzEl, Device, MountError, NonGpsDevice, RADec, SlewAxis, SlewDir, SlewRate, TrackingMode};

#[test]
fn slew_rate_splits_scaled_rate() {
    assert_eq!(slew_rate(1800), (28, 32));
    assert_eq!(slew_rate(0), (0, 0));
    assert_eq!(slew_rate(16383), (255, 252));
}

#[test]
fn variable_slew_frame() {
    let f = slew_variable_frame(SlewAxis::DecEl, SlewDir::Positive, 1800).unwrap();
    assert_eq!(f, vec![b'P', 3, 17, 6, 28, 32, 0, 0]);
    let g = slew_variable_frame(SlewAxis::RAAz, SlewDir::Negative, 1).unwrap();
    assert_eq!(g, vec![b'P', 3, 16, 7, 0, 4, 0, 0]);
}

#[test]
fn variable_slew_rate_too_large() {
    assert_eq!(
        slew_variable_frame(SlewAxis::RAAz, SlewDir::Positive, 16384),
        Err(MountError::InvalidArgument)
    );
}

#[test]
fn stop_is_a_zero_rate_slew() {
    assert_eq!(stop_slew_frame(SlewAxis::RAAz), vec![b'P', 3, 16, 6, 0, 0, 0, 0]);
    assert_eq!(
        stop_slew_frame(SlewAxis::DecEl),
        slew_variable_frame(SlewAxis::DecEl, SlewDir::Positive, 0).unwrap()
    );
}

#[test]
fn fixed_slew_frame() {
    assert_eq!(
        slew_fixed_frame(SlewAxis::RAAz, SlewDir::Positive, SlewRate::Rate9),
        vec![b'P', 2, 16, 36, 9, 0, 0, 0]
    );
    assert_eq!(
        slew_fixed_frame(SlewAxis::DecEl, SlewDir::Negative, SlewRate::Stop),
        vec![b'P', 2, 17, 37, 0, 0, 0, 0]
    );
}

#[test]
fn goto_ra_dec_wire_bytes() {
    // 138.7265968322754 and 89.58314180374146 degrees, as the mount's integer angles
    let coord = RADec::new(1655072768, 1068768512);
    assert_eq!(goto_ra_dec_frame(&coord), b"r62A66800,3FB41D00".to_vec());
}

#[test]
fn goto_pads_small_angles() {
    let coord = AzEl::new(0x10, 0xABCDE);
    assert_eq!(goto_az_el_frame(&coord), b"r00000010,000ABCDE".to_vec());
    assert_eq!(sync_frame(&RADec::new(1, 2)), b"s00000001,00000002".to_vec());
}

#[test]
fn direct_frames() {
    assert_eq!(position_ra_dec_frame(), b"e".to_vec());
    assert_eq!(direct_frame(b'V', &[]), b"V".to_vec());
    assert_eq!(set_tracking_mode_frame(TrackingMode::EQSouth), vec![b'T', 3]);
    assert_eq!(set_tracking_mode_frame(TrackingMode::EQNorth), vec![b'T', 2]);
}

#[test]
fn passthrough_frames() {
    assert_eq!(
        passthrough_read_frame(NonGpsDevice::RtcUnit.as_device(), 3, 2),
        vec![b'P', 1, 178, 3, 0, 0, 0, 2]
    );
    assert_eq!(
        passthrough_write_frame(Device::GpsUnit, 9, &[1, 2, 3]),
        Ok(vec![b'P', 4, 176, 9, 1, 2, 3, 0])
    );
    assert_eq!(passthrough_write_frame(Device::AzRaMotor, 9, &[]), Ok(vec![b'P', 1, 16, 9, 0, 0, 0, 0]));
    assert_eq!(
        passthrough_write_frame(Device::AzRaMotor, 9, &[1, 2, 3, 4]),
        Err(MountError::InvalidArgument)
    );
}

#[test]
fn passthrough_reply_classification() {
    assert_eq!(passthrough_payload(&[7, 9, b'#'], 2), Ok(vec![7, 9]));
    assert_eq!(passthrough_payload(&[7, 9, 1, b'#'], 2), Err(MountError::DeviceUnavailable));
    assert_eq!(passthrough_payload(&[7, b'#'], 2), Err(MountError::MalformedResponse(vec![7, b'#'])));
    assert_eq!(
        passthrough_payload(&[7, 9, 1, 2, b'#'], 2),
        Err(MountError::MalformedResponse(vec![7, 9, 1, 2, b'#']))
    );
    assert_eq!(passthrough_payload(&[7, 9, 1], 2), Err(MountError::MalformedResponse(vec![7, 9, 1])));
    assert_eq!(passthrough_payload(&[b'#'], 0), Ok(vec![]));
}

#[test]
fn reply_must_end_in_terminator() {
    assert_eq!(check_terminated(&[]), Err(MountError::Timeout));
    assert_eq!(check_terminated(&[1, 2]), Err(MountError::MalformedResponse(vec![1, 2])));
    assert_eq!(check_terminated(&[b'#']), Ok(()));
}

#[test]
fn direct_reply_length_is_checked() {
    assert_eq!(direct_payload(&[1, 2, b'#'], 2), Ok(vec![1, 2]));
    assert_eq!(direct_payload(&[1, b'#'], 2), Err(MountError::UnexpectedResponseLength));
    assert_eq!(direct_payload(&[], 2), Err(MountError::Timeout));
}
