use ftdi_session::context::Context;
use ftdi_session::error::FtdiError;
use ftdi_session::operation::{interpret, DriverReply, Operation};

fn reply(code: i32) -> DriverReply {
    DriverReply { code, message: "driver says no" }
}

fn all_operations() -> Vec<(Operation, Option<i32>)> {
    vec![
        (Operation::Init, None),
        (Operation::SetInterface, None),
        (Operation::UsbOpen, None),
        (Operation::UsbReset, Some(-2)),
        (Operation::UsbPurgeRxBuffer, Some(-2)),
        (Operation::UsbPurgeTxBuffer, Some(-2)),
        (Operation::UsbPurgeBuffers, Some(-3)),
        (Operation::UsbClose, None),
        (Operation::ReadChipId, Some(-2)),
        (Operation::GetLatencyTimer, Some(-2)),
        (Operation::SetLatencyTimer, Some(-3)),
        (Operation::SetBitMode, Some(-2)),
        (Operation::DisableBitBang, Some(-2)),
        (Operation::ReadPins, Some(-2)),
        (Operation::PollModemStatus, Some(-2)),
        (Operation::SetDtrRts, Some(-2)),
        (Operation::SetDtr, Some(-2)),
        (Operation::SetRts, Some(-2)),
        (Operation::SetFlowControl, Some(-2)),
        (Operation::SetEventChar, Some(-2)),
        (Operation::SetErrorChar, Some(-2)),
        (Operation::WriteData, Some(-666)),
        (Operation::ReadData, Some(-666)),
    ]
}

fn session() -> Context {
    Context::new(DriverReply { code: 0, message: "" }).unwrap()
}

#[test]
fn sentinel_table_is_per_operation() {
    for (op, expected) in all_operations() {
        assert_eq!(op.sentinel(), expected, "{:?}", op);
    }
}

#[test]
fn sentinel_reply_means_device_unavailable() {
    for (op, sentinel) in all_operations() {
        if let Some(code) = sentinel {
            assert_eq!(interpret(op, reply(code)), Err(FtdiError::UsbDeviceUnavailable), "{:?}", op);
        }
    }
}

#[test]
fn other_negative_reply_keeps_code_and_message() {
    for (op, sentinel) in all_operations() {
        for code in [-1, -2, -3, -4, -5, -12, -665, -666, -667, i32::MIN] {
            if sentinel == Some(code) {
                continue;
            }
            assert_eq!(
                interpret(op, reply(code)),
                Err(FtdiError::Other(code, "driver says no")),
                "{:?} {}",
                op,
                code
            );
        }
    }
}

#[test]
fn non_negative_reply_is_success() {
    for (op, _) in all_operations() {
        for code in [0, 1, 7, 4096, i32::MAX] {
            assert_eq!(interpret(op, reply(code)), Ok(code), "{:?} {}", op, code);
        }
    }
}

#[test]
fn new_fails_with_code_and_message() {
    let failed = Context::new(DriverReply { code: -3, message: "libusb_init() failed" });
    assert_eq!(failed.unwrap_err(), FtdiError::Other(-3, "libusb_init() failed"));
    let also = Context::new(DriverReply { code: -2, message: "x" });
    assert_eq!(also.unwrap_err(), FtdiError::Other(-2, "x"));
    assert!(Context::new(DriverReply { code: 0, message: "" }).unwrap().live());
}

#[test]
fn set_interface_and_open_have_no_sentinel() {
    let mut s = session();
    assert_eq!(s.set_interface(reply(0)), Ok(()));
    assert_eq!(s.set_interface(reply(-2)), Err(FtdiError::Other(-2, "driver says no")));
    assert_eq!(s.set_interface(reply(-3)), Err(FtdiError::Other(-3, "driver says no")));
    assert_eq!(s.usb_open(reply(0)), Ok(()));
    assert_eq!(s.usb_open(reply(-3)), Err(FtdiError::Other(-3, "driver says no")));
    assert_eq!(s.usb_open(reply(-666)), Err(FtdiError::Other(-666, "driver says no")));
    assert_eq!(s.usb_close(reply(-3)), Err(FtdiError::Other(-3, "driver says no")));
    assert_eq!(s.usb_close(reply(0)), Ok(()));
}

#[test]
fn reset_and_purges_use_their_own_sentinels() {
    let mut s = session();
    assert_eq!(s.usb_reset(reply(-2)), Err(FtdiError::UsbDeviceUnavailable));
    assert_eq!(s.usb_reset(reply(-3)), Err(FtdiError::Other(-3, "driver says no")));
    assert_eq!(s.usb_reset(reply(0)), Ok(()));
    assert_eq!(s.usb_purge_rx_buffer(reply(-2)), Err(FtdiError::UsbDeviceUnavailable));
    assert_eq!(s.usb_purge_rx_buffer(reply(-1)), Err(FtdiError::Other(-1, "driver says no")));
    assert_eq!(s.usb_purge_tx_buffer(reply(-2)), Err(FtdiError::UsbDeviceUnavailable));
    assert_eq!(s.usb_purge_tx_buffer(reply(-1)), Err(FtdiError::Other(-1, "driver says no")));
    assert_eq!(s.usb_purge_buffers(reply(-3)), Err(FtdiError::UsbDeviceUnavailable));
    assert_eq!(s.usb_purge_buffers(reply(-2)), Err(FtdiError::Other(-2, "driver says no")));
    assert_eq!(s.usb_purge_buffers(reply(0)), Ok(()));
}

#[test]
fn configuration_before_open_follows_the_driver() {
    let mut s = session();
    assert_eq!(s.set_latency_timer(reply(-3)), Err(FtdiError::UsbDeviceUnavailable));
    assert_eq!(s.set_latency_timer(reply(-2)), Err(FtdiError::Other(-2, "driver says no")));
    assert_eq!(s.get_latency_timer(reply(-2), 0), Err(FtdiError::UsbDeviceUnavailable));
    assert_eq!(s.get_latency_timer(reply(-3), 0), Err(FtdiError::Other(-3, "driver says no")));
    assert_eq!(s.set_bit_mode(reply(-2)), Err(FtdiError::UsbDeviceUnavailable));
    assert_eq!(s.disable_bit_bang(reply(-2)), Err(FtdiError::UsbDeviceUnavailable));
    assert_eq!(s.read_pins(reply(-2), 0), Err(FtdiError::UsbDeviceUnavailable));
    assert_eq!(s.read_chip_id(reply(-2), 0), Err(FtdiError::UsbDeviceUnavailable));
    assert_eq!(s.set_dtr(reply(-2)), Err(FtdiError::UsbDeviceUnavailable));
    assert_eq!(s.set_rts(reply(-2)), Err(FtdiError::UsbDeviceUnavailable));
    assert_eq!(s.set_dtr_rts(reply(-2)), Err(FtdiError::UsbDeviceUnavailable));
    assert_eq!(s.set_flow_control(reply(-2)), Err(FtdiError::UsbDeviceUnavailable));
    assert_eq!(s.set_event_char(reply(-2)), Err(FtdiError::UsbDeviceUnavailable));
    assert_eq!(s.set_error_char(reply(-2)), Err(FtdiError::UsbDeviceUnavailable));
    assert_eq!(s.set_error_char(reply(-1)), Err(FtdiError::Other(-1, "driver says no")));
    assert!(s.live());
}

#[test]
fn values_come_back_on_success_only() {
    let mut s = session();
    assert_eq!(s.read_chip_id(reply(0), 0xDEAD_BEEF), Ok(0xDEAD_BEEF));
    assert_eq!(s.read_chip_id(reply(-1), 0xDEAD_BEEF), Err(FtdiError::Other(-1, "driver says no")));
    assert_eq!(s.get_latency_timer(reply(0), 16), Ok(16));
    assert_eq!(s.get_latency_timer(reply(0), 255), Ok(255));
    assert_eq!(s.read_pins(reply(0), 0xA5), Ok(0xA5));
    assert_eq!(s.read_pins(reply(-7), 0xA5), Err(FtdiError::Other(-7, "driver says no")));
}

#[test]
fn write_data_maps_its_sentinel() {
    let mut s = session();
    assert_eq!(
        s.write_data(DriverReply { code: -666, message: "USB device unavailable" }),
        Err(FtdiError::UsbDeviceUnavailable)
    );
    assert_eq!(
        s.write_data(DriverReply { code: -5, message: "usb bulk write failed" }),
        Err(FtdiError::Other(-5, "usb bulk write failed"))
    );
    assert_eq!(s.write_data(DriverReply { code: -2, message: "m" }), Err(FtdiError::Other(-2, "m")));
    assert_eq!(s.write_data(reply(0)), Ok(()));
    assert_eq!(s.write_data(reply(3)), Ok(()));
}

#[test]
fn absent_message_is_empty() {
    let mut s = session();
    assert_eq!(s.usb_reset(DriverReply { code: -1, message: "" }), Err(FtdiError::Other(-1, "")));
}

#[test]
fn release_asks_once() {
    let mut s = session();
    assert!(s.live());
    assert!(s.release());
    assert!(!s.live());
    assert!(!s.release());
    assert!(!s.release());
}

#[test]
fn release_after_failures_still_asks_once() {
    let mut s = session();
    assert!(s.usb_open(reply(-3)).is_err());
    assert!(s.usb_reset(reply(-2)).is_err());
    assert!(s.usb_close(reply(-1)).is_err());
    assert!(s.release());
    assert!(!s.release());
}

#[test]
fn error_code_and_kind() {
    assert_eq!(FtdiError::UsbDeviceUnavailable.code(), None);
    assert_eq!(FtdiError::Other(-5, "x").code(), Some(-5));
    assert!(FtdiError::UsbDeviceUnavailable.is_unavailable());
    assert!(!FtdiError::Other(-2, "x").is_unavailable());
}

#[test]
fn describe_unavailable() {
    assert_eq!(FtdiError::UsbDeviceUnavailable.describe(), "USB device unavailable");
}

#[test]
fn describe_other_has_code_and_message() {
    assert_eq!(
        FtdiError::Other(-5, "usb bulk write failed").describe(),
        "libftdi1 error code -5: usb bulk write failed"
    );
    assert_eq!(FtdiError::Other(0, "").describe(), "libftdi1 error code 0: ");
    assert_eq!(FtdiError::Other(-666, "gone").describe(), "libftdi1 error code -666: gone");
    assert_eq!(FtdiError::Other(1200, "m").describe(), "libftdi1 error code 1200: m");
    assert_eq!(
        FtdiError::Other(i32::MIN, "min").describe(),
        "libftdi1 error code -2147483648: min"
    );
    assert_eq!(
        FtdiError::Other(i32::MAX, "max").describe(),
        "libftdi1 error code 2147483647: max"
    );
}

#[test]
fn reply_without_message_has_an_empty_one() {
    assert_eq!(DriverReply::new(-4, None), DriverReply { code: -4, message: "" });
    assert_eq!(DriverReply::new(-4, Some("usb_open() failed")).message, "usb_open() failed");
    assert_eq!(DriverReply::new(7, Some("x")).code, 7);
    let mut s = session();
    assert_eq!(s.usb_open(DriverReply::new(-4, None)), Err(FtdiError::Other(-4, "")));
}
