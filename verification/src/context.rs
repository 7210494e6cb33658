use crate::error::FtdiError;
use crate::modem::ModemStatus;
use crate::operation::{interpret, outcome, DriverReply, Operation};
use vstd::prelude::*;

verus! {

/// One device session: the owner of one driver context.
///
/// A session is live from the moment the driver has initialized its context
/// until the context is released. Each method below stands for one driver
/// call: it takes what the driver answered and gives the result that the
/// caller of the session sees. Nothing of the device's configuration is kept
/// here, since the driver alone knows the device's state.
#[derive(Debug)]
pub struct Context {
    live: bool,
}

impl Context {
    /// Whether the session still holds its driver context.
    pub closed spec fn is_live(self) -> bool {
        self.live
    }

    /// Whether the session still holds its driver context.
    pub fn live(&self) -> (r: bool)
        ensures
            r == self.is_live(),
    {
        self.live
    }

    /// Creates the session from the driver's answer to initialization.
    ///
    /// A negative status fails with the code and the message; there is no
    /// device yet that could be gone. Where initialization fails half way,
    /// the driver may keep what it had allocated: that cannot be seen from
    /// here, nor mended.
    pub fn new(reply: DriverReply) -> (r: Result<Context, FtdiError>)
        ensures
            r.is_ok() <==> reply.code >= 0,
            r.is_ok() ==> r.unwrap().is_live(),
            reply.code < 0 ==> r == Err::<Context, FtdiError>(
                FtdiError::Other(reply.code, reply.message),
            ),
    {
        match interpret(Operation::Init, reply) {
            Ok(_) => Ok(Context { live: true }),
            Err(e) => Err(e),
        }
    }

    /// Ends the session. The result says whether the driver context has to be
    /// released now: it has to at the first call, and never again.
    pub fn release(&mut self) -> (r: bool)
        ensures
            r == old(self).is_live(),
            !final(self).is_live(),
            forall|n: nat| releases(old(self).is_live(), n + 1) == (if r { 1nat } else { 0nat })
                + #[trigger] releases(final(self).is_live(), n),
    {
        let was = self.live;
        self.live = false;
        was
    }

    /// The result of a call that returns nothing but its status.
    fn settle(&self, op: Operation, reply: DriverReply) -> (r: Result<(), FtdiError>)
        ensures
            r == done(op, reply),
    {
        match interpret(op, reply) {
            Ok(_) => Ok(()),
            Err(e) => Err(e),
        }
    }

    /// The result of a call that fills in a value.
    fn settle_with<T>(&self, op: Operation, reply: DriverReply, value: T) -> (r: Result<
        T,
        FtdiError,
    >)
        ensures
            r == fetched(op, reply, value),
    {
        match interpret(op, reply) {
            Ok(_) => Ok(value),
            Err(e) => Err(e),
        }
    }

    /// Selecting the chip interface. No device is attached yet, so every
    /// failure carries its code.
    pub fn set_interface(&mut self, reply: DriverReply) -> (r: Result<(), FtdiError>)
        requires
            old(self).is_live(),
        ensures
            *final(self) == *old(self),
            r == done(Operation::SetInterface, reply),
    {
        self.settle(Operation::SetInterface, reply)
    }

    /// Attaching to the first device with the given vendor and product id.
    pub fn usb_open(&mut self, reply: DriverReply) -> (r: Result<(), FtdiError>)
        requires
            old(self).is_live(),
        ensures
            *final(self) == *old(self),
            r == done(Operation::UsbOpen, reply),
    {
        self.settle(Operation::UsbOpen, reply)
    }

    /// Resetting the device.
    pub fn usb_reset(&mut self, reply: DriverReply) -> (r: Result<(), FtdiError>)
        requires
            old(self).is_live(),
        ensures
            *final(self) == *old(self),
            r == done(Operation::UsbReset, reply),
    {
        self.settle(Operation::UsbReset, reply)
    }

    /// Clearing the read buffer on the chip and in the driver.
    pub fn usb_purge_rx_buffer(&mut self, reply: DriverReply) -> (r: Result<(), FtdiError>)
        requires
            old(self).is_live(),
        ensures
            *final(self) == *old(self),
            r == done(Operation::UsbPurgeRxBuffer, reply),
    {
        self.settle(Operation::UsbPurgeRxBuffer, reply)
    }

    /// Clearing the write buffer on the chip.
    pub fn usb_purge_tx_buffer(&mut self, reply: DriverReply) -> (r: Result<(), FtdiError>)
        requires
            old(self).is_live(),
        ensures
            *final(self) == *old(self),
            r == done(Operation::UsbPurgeTxBuffer, reply),
    {
        self.settle(Operation::UsbPurgeTxBuffer, reply)
    }

    /// Clearing both buffers.
    pub fn usb_purge_buffers(&mut self, reply: DriverReply) -> (r: Result<(), FtdiError>)
        requires
            old(self).is_live(),
        ensures
            *final(self) == *old(self),
            r == done(Operation::UsbPurgeBuffers, reply),
    {
        self.settle(Operation::UsbPurgeBuffers, reply)
    }

    /// Detaching from the device. The session stays live: its context is
    /// released only by `release`.
    pub fn usb_close(&mut self, reply: DriverReply) -> (r: Result<(), FtdiError>)
        requires
            old(self).is_live(),
        ensures
            *final(self) == *old(self),
            r == done(Operation::UsbClose, reply),
    {
        self.settle(Operation::UsbClose, reply)
    }

    /// Reading the chip identifier; `id` is what the driver filled in.
    pub fn read_chip_id(&mut self, reply: DriverReply, id: u32) -> (r: Result<u32, FtdiError>)
        requires
            old(self).is_live(),
        ensures
            *final(self) == *old(self),
            r == fetched(Operation::ReadChipId, reply, id),
    {
        self.settle_with(Operation::ReadChipId, reply, id)
    }

    /// Reading the latency timer; `millis` is what the driver filled in.
    pub fn get_latency_timer(&mut self, reply: DriverReply, millis: u8) -> (r: Result<
        u8,
        FtdiError,
    >)
        requires
            old(self).is_live(),
        ensures
            *final(self) == *old(self),
            r == fetched(Operation::GetLatencyTimer, reply, millis),
    {
        self.settle_with(Operation::GetLatencyTimer, reply, millis)
    }

    /// Setting the latency timer.
    pub fn set_latency_timer(&mut self, reply: DriverReply) -> (r: Result<(), FtdiError>)
        requires
            old(self).is_live(),
        ensures
            *final(self) == *old(self),
            r == done(Operation::SetLatencyTimer, reply),
    {
        self.settle(Operation::SetLatencyTimer, reply)
    }

    /// Setting the mode of the data pins.
    pub fn set_bit_mode(&mut self, reply: DriverReply) -> (r: Result<(), FtdiError>)
        requires
            old(self).is_live(),
        ensures
            *final(self) == *old(self),
            r == done(Operation::SetBitMode, reply),
    {
        self.settle(Operation::SetBitMode, reply)
    }

    /// Leaving bit-bang mode.
    pub fn disable_bit_bang(&mut self, reply: DriverReply) -> (r: Result<(), FtdiError>)
        requires
            old(self).is_live(),
        ensures
            *final(self) == *old(self),
            r == done(Operation::DisableBitBang, reply),
    {
        self.settle(Operation::DisableBitBang, reply)
    }

    /// Reading the pins directly; `pins` is what the driver filled in.
    pub fn read_pins(&mut self, reply: DriverReply, pins: u8) -> (r: Result<u8, FtdiError>)
        requires
            old(self).is_live(),
        ensures
            *final(self) == *old(self),
            r == fetched(Operation::ReadPins, reply, pins),
    {
        self.settle_with(Operation::ReadPins, reply, pins)
    }

    /// Polling the modem status; `raw` is the status word that the driver
    /// filled in. On success the result is what `raw` decodes to: exactly the
    /// flags whose bits are set in it.
    pub fn poll_modem_status(&mut self, reply: DriverReply, raw: u16) -> (r: Result<
        ModemStatus,
        FtdiError,
    >)
        requires
            old(self).is_live(),
        ensures
            *final(self) == *old(self),
            r == fetched(Operation::PollModemStatus, reply, ModemStatus::decoded(raw)),
    {
        self.settle_with(
            Operation::PollModemStatus,
            reply,
            ModemStatus::from_bits_truncate(raw),
        )
    }

    /// Setting both the DTR and the RTS line.
    pub fn set_dtr_rts(&mut self, reply: DriverReply) -> (r: Result<(), FtdiError>)
        requires
            old(self).is_live(),
        ensures
            *final(self) == *old(self),
            r == done(Operation::SetDtrRts, reply),
    {
        self.settle(Operation::SetDtrRts, reply)
    }

    /// Setting the DTR line.
    pub fn set_dtr(&mut self, reply: DriverReply) -> (r: Result<(), FtdiError>)
        requires
            old(self).is_live(),
        ensures
            *final(self) == *old(self),
            r == done(Operation::SetDtr, reply),
    {
        self.settle(Operation::SetDtr, reply)
    }

    /// Setting the RTS line.
    pub fn set_rts(&mut self, reply: DriverReply) -> (r: Result<(), FtdiError>)
        requires
            old(self).is_live(),
        ensures
            *final(self) == *old(self),
            r == done(Operation::SetRts, reply),
    {
        self.settle(Operation::SetRts, reply)
    }

    /// Setting the flow control policy.
    pub fn set_flow_control(&mut self, reply: DriverReply) -> (r: Result<(), FtdiError>)
        requires
            old(self).is_live(),
        ensures
            *final(self) == *old(self),
            r == done(Operation::SetFlowControl, reply),
    {
        self.settle(Operation::SetFlowControl, reply)
    }

    /// Setting the event character.
    pub fn set_event_char(&mut self, reply: DriverReply) -> (r: Result<(), FtdiError>)
        requires
            old(self).is_live(),
        ensures
            *final(self) == *old(self),
            r == done(Operation::SetEventChar, reply),
    {
        self.settle(Operation::SetEventChar, reply)
    }

    /// Setting the error character.
    pub fn set_error_char(&mut self, reply: DriverReply) -> (r: Result<(), FtdiError>)
        requires
            old(self).is_live(),
        ensures
            *final(self) == *old(self),
            r == done(Operation::SetErrorChar, reply),
    {
        self.settle(Operation::SetErrorChar, reply)
    }

    /// Writing a buffer. Any status that is not negative counts as the whole
    /// buffer written: the driver's count is not handed on.
    pub fn write_data(&mut self, reply: DriverReply) -> (r: Result<(), FtdiError>)
        requires
            old(self).is_live(),
        ensures
            *final(self) == *old(self),
            r == done(Operation::WriteData, reply),
    {
        self.settle(Operation::WriteData, reply)
    }
}

/// The result of a call that returns nothing but its status.
pub open spec fn done(op: Operation, reply: DriverReply) -> Result<(), FtdiError> {
    match outcome(op, reply) {
        Ok(_) => Ok(()),
        Err(e) => Err(e),
    }
}

/// The result of a call that fills in a value on success.
pub open spec fn fetched<T>(op: Operation, reply: DriverReply, value: T) -> Result<T, FtdiError> {
    match outcome(op, reply) {
        Ok(_) => Ok(value),
        Err(e) => Err(e),
    }
}

/// How many of `n` successive calls of `release` ask for the driver context
/// to be released, on a session that is live or not.
pub open spec fn releases(live: bool, n: nat) -> nat
    decreases n,
{
    if n == 0 {
        0
    } else {
        (if live { 1nat } else { 0nat }) + releases(false, (n - 1) as nat)
    }
}

/// A session is released exactly once.
///
/// However often `release` is called on a live session, and at least once,
/// exactly one of the calls asks for the driver context to be released. On a
/// session that is not live none does.
pub proof fn lemma_released_once(n: nat)
    ensures
        n >= 1 ==> releases(true, n) == 1,
        releases(false, n) == 0,
    decreases n,
{
    if n > 0 {
        lemma_released_once((n - 1) as nat);
    }
}

} // verus!
