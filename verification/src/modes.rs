use vstd::prelude::*;

verus! {

/// The physical channel of a multi-interface chip.
#[derive(Copy, Clone, Debug, Eq, PartialEq)]
pub enum Interface {
    A,
    B,
    C,
    D,
}

impl Interface {
    /// The driver's number for this channel.
    pub open spec fn selector(self) -> u32 {
        match self {
            Interface::A => 1,
            Interface::B => 2,
            Interface::C => 3,
            Interface::D => 4,
        }
    }

    /// The number that selects this channel in the driver.
    pub fn raw(self) -> (r: u32)
        ensures
            r == self.selector(),
    {
        match self {
            Interface::A => 1,
            Interface::B => 2,
            Interface::C => 3,
            Interface::D => 4,
        }
    }
}

/// The operating mode of the chip's data pins.
#[derive(Copy, Clone, Debug, Eq, PartialEq)]
pub enum BitMode {
    /// Back to plain serial operation.
    Reset,
    BitBang,
    Mpsse,
    SyncBitBang,
    Mcu,
    Opto,
    Cbus,
    SyncFf,
    Ft1284,
}

impl BitMode {
    /// The driver's number for this mode.
    pub open spec fn selector(self) -> u8 {
        match self {
            BitMode::Reset => 0x00,
            BitMode::BitBang => 0x01,
            BitMode::Mpsse => 0x02,
            BitMode::SyncBitBang => 0x04,
            BitMode::Mcu => 0x08,
            BitMode::Opto => 0x10,
            BitMode::Cbus => 0x20,
            BitMode::SyncFf => 0x40,
            BitMode::Ft1284 => 0x80,
        }
    }

    /// The number that selects this mode in the driver.
    pub fn raw(self) -> (r: u8)
        ensures
            r == self.selector(),
    {
        match self {
            BitMode::Reset => 0x00,
            BitMode::BitBang => 0x01,
            BitMode::Mpsse => 0x02,
            BitMode::SyncBitBang => 0x04,
            BitMode::Mcu => 0x08,
            BitMode::Opto => 0x10,
            BitMode::Cbus => 0x20,
            BitMode::SyncFf => 0x40,
            BitMode::Ft1284 => 0x80,
        }
    }
}

/// How the driver throttles transfers. One policy is active at a time.
#[derive(Copy, Clone, Debug, Eq, PartialEq)]
pub enum FlowControl {
    /// No throttling.
    Disabled,
    RtsCts,
    DtsDsr,
    XonXoff,
}

impl FlowControl {
    /// The driver's number for this policy.
    pub open spec fn selector(self) -> i32 {
        match self {
            FlowControl::Disabled => 0x000,
            FlowControl::RtsCts => 0x100,
            FlowControl::DtsDsr => 0x200,
            FlowControl::XonXoff => 0x400,
        }
    }

    /// The number that selects this policy in the driver.
    pub fn raw(self) -> (r: i32)
        ensures
            r == self.selector(),
    {
        match self {
            FlowControl::Disabled => 0x000,
            FlowControl::RtsCts => 0x100,
            FlowControl::DtsDsr => 0x200,
            FlowControl::XonXoff => 0x400,
        }
    }
}

/// Selectors tell the values of a type apart: two channels, two modes or two
/// policies with the same number are the same.
pub proof fn lemma_selectors_injective(
    a: Interface,
    b: Interface,
    m: BitMode,
    n: BitMode,
    f: FlowControl,
    g: FlowControl,
)
    ensures
        a.selector() == b.selector() ==> a == b,
        m.selector() == n.selector() ==> m == n,
        f.selector() == g.selector() ==> f == g,
{
}

} // verus!
