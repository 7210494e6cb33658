use crate::error::FtdiError;
use vstd::prelude::*;

verus! {

/// The driver calls whose status this crate interprets.
#[derive(Copy, Clone, Debug, Eq, PartialEq)]
pub enum Operation {
    Init,
    SetInterface,
    UsbOpen,
    UsbReset,
    UsbPurgeRxBuffer,
    UsbPurgeTxBuffer,
    UsbPurgeBuffers,
    UsbClose,
    ReadChipId,
    GetLatencyTimer,
    SetLatencyTimer,
    SetBitMode,
    DisableBitBang,
    ReadPins,
    PollModemStatus,
    SetDtrRts,
    SetDtr,
    SetRts,
    SetFlowControl,
    SetEventChar,
    SetErrorChar,
    WriteData,
    ReadData,
}

/// What the driver answered: the status of the call and, for a failure, the
/// driver's message (empty where the driver gave none).
#[derive(Copy, Clone, Debug, Eq, PartialEq)]
pub struct DriverReply {
    pub code: i32,
    pub message: &'static str,
}

impl DriverReply {
    /// The reply with the given status and the driver's message, where an
    /// absent message counts as an empty one.
    pub fn new(code: i32, message: Option<&'static str>) -> (r: DriverReply)
        ensures
            r.code == code,
            r.message@ == match message {
                Some(text) => text@,
                None => Seq::<char>::empty(),
            },
    {
        match message {
            Some(text) => DriverReply { code, message: text },
            None => {
                proof {
                    reveal_strlit("");
                    assert(""@ =~= Seq::<char>::empty());
                }
                DriverReply { code, message: "" }
            },
        }
    }
}

impl Operation {
    /// The status by which this call reports that the device is gone. The
    /// driver uses a different value in different calls, and none at all
    /// before a device is attached or when it is detached.
    pub open spec fn sentinel_spec(self) -> Option<i32> {
        match self {
            Operation::Init
            | Operation::SetInterface
            | Operation::UsbOpen
            | Operation::UsbClose => None,
            Operation::UsbPurgeBuffers | Operation::SetLatencyTimer => Some(-3i32),
            Operation::WriteData | Operation::ReadData => Some(-666i32),
            _ => Some(-2i32),
        }
    }

    /// The status by which this call reports that the device is gone.
    pub fn sentinel(self) -> (r: Option<i32>)
        ensures
            r == self.sentinel_spec(),
    {
        match self {
            Operation::Init
            | Operation::SetInterface
            | Operation::UsbOpen
            | Operation::UsbClose => None,
            Operation::UsbPurgeBuffers | Operation::SetLatencyTimer => Some(-3),
            Operation::WriteData | Operation::ReadData => Some(-666),
            _ => Some(-2),
        }
    }
}

/// What a reply means for the operation that got it: the device is gone, the
/// call failed for another reason, or it succeeded with a non-negative status.
pub open spec fn outcome(op: Operation, reply: DriverReply) -> Result<i32, FtdiError> {
    if op.sentinel_spec() == Some(reply.code) {
        Err(FtdiError::UsbDeviceUnavailable)
    } else if reply.code < 0 {
        Err(FtdiError::Other(reply.code, reply.message))
    } else {
        Ok(reply.code)
    }
}

/// Whether a reply reports success.
pub open spec fn succeeded(reply: DriverReply) -> bool {
    reply.code >= 0
}

/// Turns the driver's reply to `op` into a result.
pub fn interpret(op: Operation, reply: DriverReply) -> (r: Result<i32, FtdiError>)
    ensures
        r == outcome(op, reply),
{
    match op.sentinel() {
        Some(gone) => {
            if reply.code == gone {
                return Err(FtdiError::UsbDeviceUnavailable);
            }
        },
        None => {},
    }
    if reply.code < 0 {
        Err(FtdiError::Other(reply.code, reply.message))
    } else {
        Ok(reply.code)
    }
}

/// Every reply falls in exactly one of three classes.
///
/// A reply with the operation's own sentinel means that the device is
/// unavailable. Any other negative status is reported with the code and the
/// message as the driver gave them. A status that is not negative is success.
pub proof fn lemma_outcome_classes(op: Operation, reply: DriverReply)
    ensures
        op.sentinel_spec() == Some(reply.code) ==> outcome(op, reply) == Err::<i32, FtdiError>(
            FtdiError::UsbDeviceUnavailable,
        ),
        reply.code < 0 && op.sentinel_spec() != Some(reply.code) ==> outcome(op, reply)
            == Err::<i32, FtdiError>(FtdiError::Other(reply.code, reply.message)),
        reply.code >= 0 <==> outcome(op, reply) == Ok::<i32, FtdiError>(reply.code),
        outcome(op, reply).is_ok() <==> succeeded(reply),
{
}

} // verus!
