use ftdi_session::context::Context;
use ftdi_session::error::FtdiError;
use ftdi_session::operation::DriverReply;
use ftdi_session::transfer::{pending, ReadReply};

fn live() -> Context {
    Context::new(DriverReply { code: 0, message: "" }).unwrap()
}

fn got(data: &[u8]) -> ReadReply {
    ReadReply { code: data.len() as i32, message: "", data: data.to_vec() }
}

fn failed(code: i32, message: &'static str) -> ReadReply {
    ReadReply { code, message, data: Vec::new() }
}

#[test]
fn read_exact_joins_short_reads() {
    let mut s = live();
    let mut buf = vec![0u8; 10];
    let replies = vec![got(&[1, 2, 3]), got(&[4, 5, 6, 7, 8]), got(&[9, 10])];
    assert_eq!(s.read_exact(&mut buf, 0, &replies), Ok(10));
    assert_eq!(buf, vec![1, 2, 3, 4, 5, 6, 7, 8, 9, 10]);
}

#[test]
fn read_exact_takes_empty_reads_in_its_stride() {
    let mut s = live();
    let mut buf = vec![0xEEu8; 4];
    let replies = vec![got(&[]), got(&[7]), got(&[]), got(&[]), got(&[8, 9, 10])];
    assert_eq!(s.read_exact(&mut buf, 0, &replies), Ok(4));
    assert_eq!(buf, vec![7, 8, 9, 10]);
}

#[test]
fn read_exact_stops_at_first_failure() {
    let mut s = live();
    let mut buf = vec![0u8; 10];
    let replies = vec![
        got(&[1, 2, 3]),
        failed(-5, "usb bulk read failed"),
        failed(-666, "USB device unavailable"),
        got(&[4, 5, 6, 7, 8, 9, 10]),
    ];
    assert_eq!(
        s.read_exact(&mut buf, 0, &replies),
        Err(FtdiError::Other(-5, "usb bulk read failed"))
    );
    assert_eq!(buf, vec![1, 2, 3, 0, 0, 0, 0, 0, 0, 0]);
}

#[test]
fn read_exact_reports_device_gone() {
    let mut s = live();
    let mut buf = vec![0u8; 3];
    let replies = vec![failed(-666, "USB device unavailable"), got(&[1, 2, 3])];
    assert_eq!(s.read_exact(&mut buf, 0, &replies), Err(FtdiError::UsbDeviceUnavailable));
    assert_eq!(buf, vec![0, 0, 0]);
}

#[test]
fn read_exact_makes_no_read_into_a_full_buffer() {
    let mut s = live();
    let mut empty: Vec<u8> = Vec::new();
    let replies = vec![failed(-1, "never asked")];
    assert_eq!(s.read_exact(&mut empty, 0, &replies), Ok(0));
    let mut buf = vec![5u8, 6];
    assert_eq!(s.read_exact(&mut buf, 2, &replies), Ok(2));
    assert_eq!(buf, vec![5, 6]);
}

#[test]
fn read_exact_ignores_replies_behind_the_last_needed() {
    let mut s = live();
    let mut buf = vec![0u8; 2];
    let replies = vec![got(&[1, 2]), failed(-666, "gone")];
    assert_eq!(s.read_exact(&mut buf, 0, &replies), Ok(2));
    assert_eq!(buf, vec![1, 2]);
}

#[test]
fn read_exact_can_be_fed_one_reply_at_a_time() {
    let mut s = live();
    let mut buf = vec![0u8; 10];
    let mut pos = 0;
    let chunks: [&[u8]; 3] = [&[1, 2, 3], &[4, 5, 6, 7, 8], &[9, 10]];
    let mut reads = 0;
    while let Some(room) = pending(buf.len(), pos) {
        let reply = got(chunks[reads]);
        assert!(reply.within(room));
        pos = s.read_exact(&mut buf, pos, &vec![reply]).unwrap();
        reads += 1;
    }
    assert_eq!(reads, 3);
    assert_eq!(pos, 10);
    assert_eq!(buf, vec![1, 2, 3, 4, 5, 6, 7, 8, 9, 10]);
}

#[test]
fn read_exact_without_replies_leaves_the_position() {
    let mut s = live();
    let mut buf = vec![1u8, 2, 3];
    assert_eq!(s.read_exact(&mut buf, 1, &Vec::new()), Ok(1));
    assert_eq!(buf, vec![1, 2, 3]);
}

#[test]
fn read_data_places_a_short_read() {
    let mut s = live();
    let mut buf = vec![0u8; 6];
    assert_eq!(s.read_data(&mut buf, 2, &got(&[7, 8, 9])), Ok(3));
    assert_eq!(buf, vec![0, 0, 7, 8, 9, 0]);
    assert_eq!(s.read_data(&mut buf, 0, &got(&[])), Ok(0));
    assert_eq!(buf, vec![0, 0, 7, 8, 9, 0]);
}

#[test]
fn read_data_maps_its_sentinel() {
    let mut s = live();
    let mut buf = vec![1u8, 2, 3];
    assert_eq!(
        s.read_data(&mut buf, 0, &failed(-666, "USB device unavailable")),
        Err(FtdiError::UsbDeviceUnavailable)
    );
    assert_eq!(s.read_data(&mut buf, 0, &failed(-2, "x")), Err(FtdiError::Other(-2, "x")));
    assert_eq!(s.read_data(&mut buf, 0, &failed(-5, "y")), Err(FtdiError::Other(-5, "y")));
    assert_eq!(buf, vec![1, 2, 3]);
}

#[test]
fn within_tests_count_and_room() {
    assert!(got(&[1, 2, 3]).within(3));
    assert!(got(&[1, 2, 3]).within(4));
    assert!(!got(&[1, 2, 3]).within(2));
    assert!(failed(-666, "gone").within(0));
    let liar = ReadReply { code: 2, message: "", data: vec![1, 2, 3] };
    assert!(!liar.within(10));
    assert!(got(&[]).within(0));
}

#[test]
fn pending_gives_the_room_left() {
    assert_eq!(pending(10, 0), Some(10));
    assert_eq!(pending(10, 3), Some(7));
    assert_eq!(pending(10, 10), None);
    assert_eq!(pending(0, 0), None);
    assert_eq!(pending(4, 9), None);
}

#[test]
fn admits_follows_the_positions() {
    let replies = vec![got(&[1, 2, 3]), got(&[4, 5, 6, 7, 8]), got(&[9, 10])];
    assert!(ftdi_session::transfer::admits(10, 0, &replies));
    assert!(ftdi_session::transfer::admits(12, 2, &replies));
    assert!(!ftdi_session::transfer::admits(9, 0, &replies));
    assert!(!ftdi_session::transfer::admits(10, 1, &replies));
    assert!(ftdi_session::transfer::admits(3, 0, &replies));
    assert!(ftdi_session::transfer::admits(0, 0, &replies));
    let stops = vec![got(&[1]), failed(-1, "x"), got(&[1, 2, 3, 4, 5, 6, 7, 8, 9])];
    assert!(ftdi_session::transfer::admits(4, 0, &stops));
    let liar = vec![ReadReply { code: 1, message: "", data: vec![1, 2] }];
    assert!(!ftdi_session::transfer::admits(4, 0, &liar));
}
