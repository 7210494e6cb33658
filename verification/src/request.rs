use crate::modes::{BitMode, FlowControl, Interface};
use crate::operation::Operation;
use vstd::prelude::*;

verus! {

/// A driver call with the arguments that are handed to it, as the driver
/// takes them: numbers only.
#[derive(Copy, Clone, Debug, Eq, PartialEq)]
pub enum Request {
    Init,
    SetInterface { interface: u32 },
    UsbOpen { vendor: i32, product: i32 },
    UsbReset,
    UsbPurgeRxBuffer,
    UsbPurgeTxBuffer,
    UsbPurgeBuffers,
    UsbClose,
    ReadChipId,
    GetLatencyTimer,
    SetLatencyTimer { millis: u8 },
    SetBitMode { mask: u8, mode: u8 },
    DisableBitBang,
    ReadPins,
    PollModemStatus,
    SetDtrRts { dtr: i32, rts: i32 },
    SetDtr { dtr: i32 },
    SetRts { rts: i32 },
    SetFlowControl { flow: i32 },
    SetEventChar { ch: u8, enable: u8 },
    SetErrorChar { ch: u8, enable: u8 },
    WriteData { size: i32 },
    ReadData { size: i32 },
}

/// A line state as the driver takes it: 1 for set, 0 for clear.
pub open spec fn level(on: bool) -> i32 {
    if on {
        1
    } else {
        0
    }
}

/// An enable flag as the driver takes it: 1 for enabled, 0 for disabled.
pub open spec fn enabled(on: bool) -> u8 {
    if on {
        1
    } else {
        0
    }
}

/// A buffer length as the driver takes it: its low 32 bits, read as a signed
/// number.
pub open spec fn size_of(len: usize) -> i32 {
    len as i32
}

fn level_of(on: bool) -> (r: i32)
    ensures
        r == level(on),
{
    if on {
        1
    } else {
        0
    }
}

fn enabled_of(on: bool) -> (r: u8)
    ensures
        r == enabled(on),
{
    if on {
        1
    } else {
        0
    }
}

impl Request {
    /// The operation that this request asks for: the one by whose rule the
    /// reply is read.
    pub open spec fn operation_spec(self) -> Operation {
        match self {
            Request::Init => Operation::Init,
            Request::SetInterface { .. } => Operation::SetInterface,
            Request::UsbOpen { .. } => Operation::UsbOpen,
            Request::UsbReset => Operation::UsbReset,
            Request::UsbPurgeRxBuffer => Operation::UsbPurgeRxBuffer,
            Request::UsbPurgeTxBuffer => Operation::UsbPurgeTxBuffer,
            Request::UsbPurgeBuffers => Operation::UsbPurgeBuffers,
            Request::UsbClose => Operation::UsbClose,
            Request::ReadChipId => Operation::ReadChipId,
            Request::GetLatencyTimer => Operation::GetLatencyTimer,
            Request::SetLatencyTimer { .. } => Operation::SetLatencyTimer,
            Request::SetBitMode { .. } => Operation::SetBitMode,
            Request::DisableBitBang => Operation::DisableBitBang,
            Request::ReadPins => Operation::ReadPins,
            Request::PollModemStatus => Operation::PollModemStatus,
            Request::SetDtrRts { .. } => Operation::SetDtrRts,
            Request::SetDtr { .. } => Operation::SetDtr,
            Request::SetRts { .. } => Operation::SetRts,
            Request::SetFlowControl { .. } => Operation::SetFlowControl,
            Request::SetEventChar { .. } => Operation::SetEventChar,
            Request::SetErrorChar { .. } => Operation::SetErrorChar,
            Request::WriteData { .. } => Operation::WriteData,
            Request::ReadData { .. } => Operation::ReadData,
        }
    }

    /// The operation that this request asks for.
    pub fn operation(&self) -> (r: Operation)
        ensures
            r == self.operation_spec(),
    {
        match self {
            Request::Init => Operation::Init,
            Request::SetInterface { .. } => Operation::SetInterface,
            Request::UsbOpen { .. } => Operation::UsbOpen,
            Request::UsbReset => Operation::UsbReset,
            Request::UsbPurgeRxBuffer => Operation::UsbPurgeRxBuffer,
            Request::UsbPurgeTxBuffer => Operation::UsbPurgeTxBuffer,
            Request::UsbPurgeBuffers => Operation::UsbPurgeBuffers,
            Request::UsbClose => Operation::UsbClose,
            Request::ReadChipId => Operation::ReadChipId,
            Request::GetLatencyTimer => Operation::GetLatencyTimer,
            Request::SetLatencyTimer { .. } => Operation::SetLatencyTimer,
            Request::SetBitMode { .. } => Operation::SetBitMode,
            Request::DisableBitBang => Operation::DisableBitBang,
            Request::ReadPins => Operation::ReadPins,
            Request::PollModemStatus => Operation::PollModemStatus,
            Request::SetDtrRts { .. } => Operation::SetDtrRts,
            Request::SetDtr { .. } => Operation::SetDtr,
            Request::SetRts { .. } => Operation::SetRts,
            Request::SetFlowControl { .. } => Operation::SetFlowControl,
            Request::SetEventChar { .. } => Operation::SetEventChar,
            Request::SetErrorChar { .. } => Operation::SetErrorChar,
            Request::WriteData { .. } => Operation::WriteData,
            Request::ReadData { .. } => Operation::ReadData,
        }
    }

    /// Selecting a chip interface: the driver gets the interface's selector.
    pub fn set_interface(interface: Interface) -> (r: Request)
        ensures
            r == (Request::SetInterface { interface: interface.selector() }),
    {
        Request::SetInterface { interface: interface.raw() }
    }

    /// Opening the first device with the given ids: the driver gets both ids
    /// unchanged, as signed numbers.
    pub fn usb_open(vendor: u16, product: u16) -> (r: Request)
        ensures
            r == (Request::UsbOpen { vendor: vendor as i32, product: product as i32 }),
    {
        Request::UsbOpen { vendor: vendor as i32, product: product as i32 }
    }

    /// Setting the latency timer, in milliseconds.
    pub fn set_latency_timer(millis: u8) -> (r: Request)
        ensures
            r == (Request::SetLatencyTimer { millis }),
    {
        Request::SetLatencyTimer { millis }
    }

    /// Setting the pin mode: the driver gets the pin-direction mask as it is
    /// and the mode's selector.
    pub fn set_bit_mode(mask: u8, bit_mode: BitMode) -> (r: Request)
        ensures
            r == (Request::SetBitMode { mask, mode: bit_mode.selector() }),
    {
        Request::SetBitMode { mask, mode: bit_mode.raw() }
    }

    /// Setting both the DTR and the RTS line.
    pub fn set_dtr_rts(dtr: bool, rts: bool) -> (r: Request)
        ensures
            r == (Request::SetDtrRts { dtr: level(dtr), rts: level(rts) }),
    {
        Request::SetDtrRts { dtr: level_of(dtr), rts: level_of(rts) }
    }

    /// Setting the DTR line.
    pub fn set_dtr(dtr: bool) -> (r: Request)
        ensures
            r == (Request::SetDtr { dtr: level(dtr) }),
    {
        Request::SetDtr { dtr: level_of(dtr) }
    }

    /// Setting the RTS line.
    pub fn set_rts(rts: bool) -> (r: Request)
        ensures
            r == (Request::SetRts { rts: level(rts) }),
    {
        Request::SetRts { rts: level_of(rts) }
    }

    /// Setting the flow control policy: the driver gets the policy's selector.
    pub fn set_flow_control(flow_control: FlowControl) -> (r: Request)
        ensures
            r == (Request::SetFlowControl { flow: flow_control.selector() }),
    {
        Request::SetFlowControl { flow: flow_control.raw() }
    }

    /// Setting the event character and switching it on or off.
    pub fn set_event_char(ch: u8, enable: bool) -> (r: Request)
        ensures
            r == (Request::SetEventChar { ch, enable: enabled(enable) }),
    {
        Request::SetEventChar { ch, enable: enabled_of(enable) }
    }

    /// Setting the error character and switching it on or off.
    pub fn set_error_char(ch: u8, enable: bool) -> (r: Request)
        ensures
            r == (Request::SetErrorChar { ch, enable: enabled(enable) }),
    {
        Request::SetErrorChar { ch, enable: enabled_of(enable) }
    }

    /// Writing a buffer of `len` bytes.
    pub fn write_data(len: usize) -> (r: Request)
        ensures
            r == (Request::WriteData { size: size_of(len) }),
    {
        Request::WriteData { size: #[verifier::truncate] (len as i32) }
    }

    /// Reading into a buffer with room for `len` bytes.
    pub fn read_data(len: usize) -> (r: Request)
        ensures
            r == (Request::ReadData { size: size_of(len) }),
    {
        Request::ReadData { size: #[verifier::truncate] (len as i32) }
    }
}

} // verus!
