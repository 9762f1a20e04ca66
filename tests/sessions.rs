use nexlib::{next_poll, GpsLocation, MountError, Next, Poll, RtcRead, RtcWrite, UtcDateTime};

fn sent<M, T>(n: Next<M, T>) -> (M, Vec<u8>) {
    match n {
        Next::Send(m, f) => (m, f),
        Next::Done(_) => panic!("expected another exchange"),
    }
}

fn done<M, T>(n: Next<M, T>) -> Result<T, MountError> {
    match n {
        Next::Send(..) => panic!("expected the end of the operation"),
        Next::Done(r) => r,
    }
}

#[test]
fn gps_location_needs_link() {
    let (q, f) = GpsLocation::start();
    assert_eq!(f, vec![b'P', 1, 176, 55, 0, 0, 0, 1]);
    assert_eq!(done(q.on_reply(&[0, b'#'])), Err(MountError::GpsNotLinked));
}

#[test]
fn gps_location_reads_both_axes() {
    let (q, _) = GpsLocation::start();
    let (q, f) = sent(q.on_reply(&[1, b'#']));
    assert_eq!(f, vec![b'P', 1, 176, 1, 0, 0, 0, 3]);
    let (q, f) = sent(q.on_reply(&[0x12, 0x34, 0x56, b'#']));
    assert_eq!(f, vec![b'P', 1, 176, 2, 0, 0, 0, 3]);
    assert_eq!(done(q.on_reply(&[0xAB, 0xCD, 0xEF, b'#'])), Ok((0x12_3456, 0xAB_CDEF)));
}

#[test]
fn gps_absent_unit() {
    let (q, _) = GpsLocation::start();
    assert_eq!(done(q.on_reply(&[0, 0, b'#'])), Err(MountError::DeviceUnavailable));
}

#[test]
fn rtc_read_sequence() {
    let (q, f) = RtcRead::start();
    assert_eq!(f, vec![b'P', 1, 178, 3, 0, 0, 0, 2]);
    let (q, f) = sent(q.on_reply(&[6, 15, b'#']));
    assert_eq!(f, vec![b'P', 1, 178, 4, 0, 0, 0, 2]);
    let (q, f) = sent(q.on_reply(&[0x07, 0xE8, b'#']));
    assert_eq!(f, vec![b'P', 1, 178, 51, 0, 0, 0, 3]);
    let t = done(q.on_reply(&[10, 30, 5, b'#']));
    assert_eq!(t, Ok(UtcDateTime { year: 2024, month: 6, day: 15, hour: 10, minute: 30, second: 5 }));
}

#[test]
fn rtc_read_invalid_date() {
    let (q, _) = RtcRead::start();
    let (q, _) = sent(q.on_reply(&[2, 30, b'#']));
    let (q, _) = sent(q.on_reply(&[0x07, 0xE8, b'#']));
    assert_eq!(done(q.on_reply(&[10, 30, 5, b'#'])), Err(MountError::InvalidDateTime));
}

#[test]
fn rtc_read_stops_on_error() {
    let (q, _) = RtcRead::start();
    let (q, _) = sent(q.on_reply(&[6, 15, b'#']));
    assert_eq!(done(q.on_reply(&[0x07, b'#'])), Err(MountError::MalformedResponse(vec![0x07, b'#'])));
}

#[test]
fn rtc_write_sequence() {
    let t = UtcDateTime { year: 2024, month: 6, day: 15, hour: 10, minute: 30, second: 5 };
    let (q, f) = RtcWrite::start(t);
    assert_eq!(f, vec![b'P', 3, 178, 131, 6, 15, 0, 0]);
    let (q, f) = sent(q.on_reply(&[b'#']));
    assert_eq!(f, vec![b'P', 3, 178, 132, 0x07, 0xE8, 0, 0]);
    let (q, f) = sent(q.on_reply(&[b'#']));
    assert_eq!(f, vec![b'P', 4, 178, 179, 10, 30, 5, 0]);
    assert_eq!(done(q.on_reply(&[b'#'])), Ok(()));
}

#[test]
fn rtc_write_stops_on_error() {
    let t = UtcDateTime { year: -1, month: 1, day: 1, hour: 0, minute: 0, second: 0 };
    let (q, _) = RtcWrite::start(t);
    let (q, f) = sent(q.on_reply(&[b'#']));
    assert_eq!(f, vec![b'P', 3, 178, 132, 0xFF, 0xFF, 0, 0]);
    assert_eq!(done(q.on_reply(&[])), Err(MountError::Timeout));
}

#[test]
fn polling_deadline() {
    assert_eq!(next_poll(3, 0), Poll::Read);
    assert_eq!(next_poll(0, 0), Poll::Wait(10));
    assert_eq!(next_poll(0, 3495), Poll::Wait(5));
    assert_eq!(next_poll(0, 3500), Poll::GiveUp);
    let mut waited = 0u64;
    let mut polls = 0;
    while let Poll::Wait(d) = next_poll(0, waited) {
        waited += d;
        polls += 1;
    }
    assert_eq!((waited, polls), (3500, 350));
}
