use vstd::prelude::*;

verus! {

/// One line or error condition in the chip's modem status.
#[derive(Copy, Clone, Debug, Eq, PartialEq)]
pub enum ModemFlag {
    /// Error in receiver FIFO
    RcvrErr,
    /// Transmitter empty
    Temt,
    /// Transmitter holding register empty
    Thre,
    /// Break interrupt
    Bi,
    /// Framing error
    Fe,
    /// Parity error
    Pe,
    /// Overrun error
    Oe,
    /// Data ready
    Dr,
    /// Data Carrier Detect
    Dcd,
    /// Ring Indicator
    Ri,
    /// Data Set Ready
    Dsr,
    /// Clear To Send
    Cts,
}

impl ModemFlag {
    /// The bit of the status word that carries this flag.
    pub open spec fn mask_spec(self) -> u16 {
        match self {
            ModemFlag::RcvrErr => 0x8000,
            ModemFlag::Temt => 0x4000,
            ModemFlag::Thre => 0x2000,
            ModemFlag::Bi => 0x1000,
            ModemFlag::Fe => 0x0800,
            ModemFlag::Pe => 0x0400,
            ModemFlag::Oe => 0x0200,
            ModemFlag::Dr => 0x0100,
            ModemFlag::Dcd => 0x0080,
            ModemFlag::Ri => 0x0040,
            ModemFlag::Dsr => 0x0020,
            ModemFlag::Cts => 0x0010,
        }
    }

    /// The bit of the status word that carries this flag.
    pub fn mask(self) -> (r: u16)
        ensures
            r == self.mask_spec(),
    {
        match self {
            ModemFlag::RcvrErr => 0x8000,
            ModemFlag::Temt => 0x4000,
            ModemFlag::Thre => 0x2000,
            ModemFlag::Bi => 0x1000,
            ModemFlag::Fe => 0x0800,
            ModemFlag::Pe => 0x0400,
            ModemFlag::Oe => 0x0200,
            ModemFlag::Dr => 0x0100,
            ModemFlag::Dcd => 0x0080,
            ModemFlag::Ri => 0x0040,
            ModemFlag::Dsr => 0x0020,
            ModemFlag::Cts => 0x0010,
        }
    }
}

/// The bits of a status word that carry a flag.
pub const KNOWN_BITS: u16 = 0xFFF0;

/// The flags that a raw status word holds.
pub open spec fn flags_of(raw: u16) -> Set<ModemFlag> {
    Set::new(|f: ModemFlag| raw & f.mask_spec() != 0)
}

/// A snapshot of the modem status: a set of flags.
#[derive(Copy, Clone, Debug, Eq, PartialEq)]
pub struct ModemStatus {
    bits: u16,
}

impl View for ModemStatus {
    type V = Set<ModemFlag>;

    closed spec fn view(&self) -> Set<ModemFlag> {
        flags_of(self.bits)
    }
}

impl ModemStatus {
    /// The status as a word. It holds no bit that carries no flag.
    pub closed spec fn bits_spec(self) -> u16 {
        self.bits
    }

    /// Holds of every status that this type hands out.
    pub closed spec fn wf(self) -> bool {
        self.bits & KNOWN_BITS == self.bits
    }

    /// The status that a raw status word decodes to: its known bits.
    pub closed spec fn decoded(raw: u16) -> ModemStatus {
        ModemStatus { bits: raw & KNOWN_BITS }
    }

    /// The status with no flag set.
    pub fn empty() -> (r: ModemStatus)
        ensures
            r.wf(),
            r.bits_spec() == 0,
            r@ == Set::<ModemFlag>::empty(),
    {
        let r = ModemStatus { bits: 0 };
        proof {
            assert(0u16 & 0xFFF0u16 == 0u16) by (bit_vector);
            assert forall|f: ModemFlag| !flags_of(0u16).contains(f) by {
                let m = f.mask_spec();
                assert(0u16 & m == 0) by (bit_vector);
            }
            assert(r@ =~= Set::<ModemFlag>::empty());
        }
        r
    }

    /// Decodes a raw status word. Bits that carry no flag are dropped.
    pub fn from_bits_truncate(raw: u16) -> (r: ModemStatus)
        ensures
            r == ModemStatus::decoded(raw),
            r.wf(),
            r.bits_spec() == raw & KNOWN_BITS,
            r@ == flags_of(raw),
    {
        proof {
            lemma_decoded(raw);
        }
        ModemStatus { bits: raw & KNOWN_BITS }
    }

    /// The status as a word.
    pub fn bits(&self) -> (r: u16)
        ensures
            r == self.bits_spec(),
    {
        self.bits
    }

    /// Whether a flag is set.
    pub fn contains(&self, flag: ModemFlag) -> (r: bool)
        ensures
            r == self@.contains(flag),
    {
        self.bits & flag.mask() != 0
    }

    /// Whether no flag is set.
    pub fn is_empty(&self) -> (r: bool)
        ensures
            r == (self@ == Set::<ModemFlag>::empty()),
            self.wf() ==> r == (self.bits_spec() == 0),
    {
        let kept: u16 = self.bits & KNOWN_BITS;
        proof {
            lemma_known_bits_hold_the_flags(self.bits);
            if kept == 0 {
                assert forall|f: ModemFlag| !flags_of(kept).contains(f) by {
                    let m = f.mask_spec();
                    assert(0u16 & m == 0) by (bit_vector);
                }
                assert(self@ =~= Set::<ModemFlag>::empty());
            } else {
                lemma_some_flag(kept);
                let f = choose|f: ModemFlag| flags_of(kept).contains(f);
                assert(self@.contains(f));
            }
        }
        kept == 0
    }
}

/// What a raw status word decodes to holds exactly the flags whose bits are
/// set in the word, and nothing of the bits that carry no flag.
pub proof fn lemma_decoded(raw: u16)
    ensures
        ModemStatus::decoded(raw).wf(),
        ModemStatus::decoded(raw).bits_spec() == raw & KNOWN_BITS,
        ModemStatus::decoded(raw)@ == flags_of(raw),
        forall|f: ModemFlag| #[trigger]
            ModemStatus::decoded(raw)@.contains(f) <==> raw & f.mask_spec() != 0,
{
    lemma_known_bits_hold_the_flags(raw);
    assert(ModemStatus::decoded(raw)@ =~= flags_of(raw));
}

/// Dropping the bits that carry no flag drops no flag, and dropping them
/// twice is dropping them once.
proof fn lemma_known_bits_hold_the_flags(raw: u16)
    ensures
        (raw & KNOWN_BITS) & KNOWN_BITS == raw & KNOWN_BITS,
        flags_of(raw & KNOWN_BITS) == flags_of(raw),
{
    let kept = raw & 0xFFF0u16;
    assert(kept & 0xFFF0u16 == kept) by (bit_vector)
        requires
            kept == raw & 0xFFF0u16,
    ;
    assert forall|f: ModemFlag| flags_of(kept).contains(f) == flags_of(raw).contains(f) by {
        let m = f.mask_spec();
        lemma_mask_known(f);
        assert((kept & m != 0) == (raw & m != 0)) by (bit_vector)
            requires
                kept == raw & 0xFFF0u16,
                m & 0xFFF0u16 == m,
        ;
    }
    assert(flags_of(kept) =~= flags_of(raw));
}

/// Every flag lies within the known bits.
proof fn lemma_mask_known(f: ModemFlag)
    ensures
        f.mask_spec() & KNOWN_BITS == f.mask_spec(),
{
    let m = f.mask_spec();
    assert(m & 0xFFF0u16 == m) by (bit_vector)
        requires
            m == 0x8000 || m == 0x4000 || m == 0x2000 || m == 0x1000 || m == 0x0800 || m == 0x0400
                || m == 0x0200 || m == 0x0100 || m == 0x0080 || m == 0x0040 || m == 0x0020 || m
                == 0x0010,
    ;
}

/// A word within the known bits that is not zero holds a flag.
proof fn lemma_some_flag(b: u16)
    requires
        b & KNOWN_BITS == b,
        b != 0,
    ensures
        exists|f: ModemFlag| flags_of(b).contains(f),
{
    assert(b & 0x8000 != 0 || b & 0x4000 != 0 || b & 0x2000 != 0 || b & 0x1000 != 0 || b & 0x0800
        != 0 || b & 0x0400 != 0 || b & 0x0200 != 0 || b & 0x0100 != 0 || b & 0x0080 != 0 || b
        & 0x0040 != 0 || b & 0x0020 != 0 || b & 0x0010 != 0) by (bit_vector)
        requires
            b & 0xFFF0u16 == b,
            b != 0,
    ;
    if b & 0x8000 != 0 {
        assert(flags_of(b).contains(ModemFlag::RcvrErr));
    } else if b & 0x4000 != 0 {
        assert(flags_of(b).contains(ModemFlag::Temt));
    } else if b & 0x2000 != 0 {
        assert(flags_of(b).contains(ModemFlag::Thre));
    } else if b & 0x1000 != 0 {
        assert(flags_of(b).contains(ModemFlag::Bi));
    } else if b & 0x0800 != 0 {
        assert(flags_of(b).contains(ModemFlag::Fe));
    } else if b & 0x0400 != 0 {
        assert(flags_of(b).contains(ModemFlag::Pe));
    } else if b & 0x0200 != 0 {
        assert(flags_of(b).contains(ModemFlag::Oe));
    } else if b & 0x0100 != 0 {
        assert(flags_of(b).contains(ModemFlag::Dr));
    } else if b & 0x0080 != 0 {
        assert(flags_of(b).contains(ModemFlag::Dcd));
    } else if b & 0x0040 != 0 {
        assert(flags_of(b).contains(ModemFlag::Ri));
    } else if b & 0x0020 != 0 {
        assert(flags_of(b).contains(ModemFlag::Dsr));
    } else {
        assert(flags_of(b).contains(ModemFlag::Cts));
    }
}

} // verus!
