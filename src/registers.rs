//! Layout and bit fields of the PL011 UART register block.
use vstd::prelude::*;

verus! {

/// Byte offset of the Data Register.
pub const DR_OFFSET: usize = 0x00;
/// Byte offset of the Flag Register.
pub const FR_OFFSET: usize = 0x18;
/// Byte offset of the Integer Baud rate Divisor.
pub const IBRD_OFFSET: usize = 0x24;
/// Byte offset of the Fractional Baud rate Divisor.
pub const FBRD_OFFSET: usize = 0x28;
/// Byte offset of the Line Control register.
pub const LCRH_OFFSET: usize = 0x2c;
/// Byte offset of the Control Register.
pub const CR_OFFSET: usize = 0x30;
/// Byte offset of the Interrupt Clear Register.
pub const ICR_OFFSET: usize = 0x44;
/// Size in bytes of the whole register block.
pub const REGISTER_BLOCK_SIZE: usize = 0x48;

/// Flag Register: transmit FIFO empty (bit 7).
pub const FR_TXFE: u32 = 0x80;
/// Flag Register: transmit FIFO full (bit 5).
pub const FR_TXFF: u32 = 0x20;
/// Flag Register: receive FIFO empty (bit 4).
pub const FR_RXFE: u32 = 0x10;

/// Integer Baud rate Divisor: 16-bit field at bit 0.
pub const IBRD_MASK: u32 = 0xffff;
/// Fractional Baud rate Divisor: 6-bit field at bit 0.
pub const FBRD_MASK: u32 = 0x3f;

/// Line Control: word length field, bits 5 and 6.
pub const LCRH_WLEN_MASK: u32 = 0x60;
/// Line Control: word length of eight bits (0b11 in the word length field).
pub const LCRH_WLEN_EIGHT_BIT: u32 = 0x60;
/// Line Control: FIFOs enabled (bit 4).
pub const LCRH_FEN: u32 = 0x10;

/// Control Register: receive enable (bit 9).
pub const CR_RXE: u32 = 0x200;
/// Control Register: transmit enable (bit 8).
pub const CR_TXE: u32 = 0x100;
/// Control Register: UART enable (bit 0).
pub const CR_UARTEN: u32 = 0x1;

/// Interrupt Clear Register: all eleven interrupt-clear bits (bits 0 to 10).
pub const ICR_ALL: u32 = 0x7ff;

/// Integer baud-rate divisor programmed by the initialization sequence.
pub const BAUD_INTEGER_DIVISOR: u32 = 13;
/// Fractional baud-rate divisor programmed by the initialization sequence.
pub const BAUD_FRACTIONAL_DIVISOR: u32 = 2;

/// The registers of the block that software accesses.
#[derive(Clone, Copy, Debug, PartialEq, Eq, Structural)]
pub enum Register {
    Dr,
    Fr,
    Ibrd,
    Fbrd,
    Lcrh,
    Cr,
    Icr,
}

pub open spec fn register_offset(r: Register) -> usize {
    match r {
        Register::Dr => DR_OFFSET,
        Register::Fr => FR_OFFSET,
        Register::Ibrd => IBRD_OFFSET,
        Register::Fbrd => FBRD_OFFSET,
        Register::Lcrh => LCRH_OFFSET,
        Register::Cr => CR_OFFSET,
        Register::Icr => ICR_OFFSET,
    }
}

/// Every register is a 32-bit word inside the block, on a 4-byte boundary.
pub open spec fn register_in_block(r: Register) -> bool {
    register_offset(r) % 4 == 0 && register_offset(r) + 4 <= REGISTER_BLOCK_SIZE
}

impl Register {
    /// Byte offset of the register from the base of the block.
    pub fn offset(&self) -> (r: usize)
        ensures
            r == register_offset(*self),
            register_in_block(*self),
    {
        match self {
            Register::Dr => DR_OFFSET,
            Register::Fr => FR_OFFSET,
            Register::Ibrd => IBRD_OFFSET,
            Register::Fbrd => FBRD_OFFSET,
            Register::Lcrh => LCRH_OFFSET,
            Register::Cr => CR_OFFSET,
            Register::Icr => ICR_OFFSET,
        }
    }

    /// Whether software may write the register (the Flag Register is read-only).
    pub fn is_writable(&self) -> (r: bool)
        ensures
            r == !(*self is Fr),
    {
        !matches!(self, Register::Fr)
    }

    /// Whether software may read the register (only the Data and Flag Registers).
    pub fn is_readable(&self) -> (r: bool)
        ensures
            r == (*self is Dr || *self is Fr),
    {
        matches!(self, Register::Dr | Register::Fr)
    }
}

/// One store of a value into a writable register.
#[derive(Clone, Copy, Debug, PartialEq, Eq, Structural)]
pub struct RegisterWrite {
    pub reg: Register,
    pub value: u32,
}

pub open spec fn tx_fifo_full_spec(fr: u32) -> bool {
    fr & FR_TXFF != 0
}

pub open spec fn tx_fifo_empty_spec(fr: u32) -> bool {
    fr & FR_TXFE != 0
}

pub open spec fn rx_fifo_empty_spec(fr: u32) -> bool {
    fr & FR_RXFE != 0
}

/// Whether a Flag Register value has the transmit-FIFO-full bit set.
pub fn tx_fifo_full(fr: u32) -> (r: bool)
    ensures
        r == tx_fifo_full_spec(fr),
{
    fr & FR_TXFF != 0
}

/// Whether a Flag Register value has the transmit-FIFO-empty bit set.
pub fn tx_fifo_empty(fr: u32) -> (r: bool)
    ensures
        r == tx_fifo_empty_spec(fr),
{
    fr & FR_TXFE != 0
}

/// Whether a Flag Register value has the receive-FIFO-empty bit set.
pub fn rx_fifo_empty(fr: u32) -> (r: bool)
    ensures
        r == rx_fifo_empty_spec(fr),
{
    fr & FR_RXFE != 0
}

/// The store sequence that brings the device up, in the order it must be issued:
/// disable, clear pending interrupts, program both divisors, set the line format
/// (eight-bit words, FIFOs on), then enable receive, transmit and the device in
/// one store.
pub open spec fn init_sequence_spec() -> Seq<RegisterWrite> {
    seq![
        RegisterWrite { reg: Register::Cr, value: 0 },
        RegisterWrite { reg: Register::Icr, value: ICR_ALL },
        RegisterWrite { reg: Register::Ibrd, value: BAUD_INTEGER_DIVISOR },
        RegisterWrite { reg: Register::Fbrd, value: BAUD_FRACTIONAL_DIVISOR },
        RegisterWrite { reg: Register::Lcrh, value: LCRH_WLEN_EIGHT_BIT | LCRH_FEN },
        RegisterWrite { reg: Register::Cr, value: CR_UARTEN | CR_TXE | CR_RXE },
    ]
}

/// Builds the initialization store sequence.
pub fn init_sequence() -> (r: Vec<RegisterWrite>)
    ensures
        r@ == init_sequence_spec(),
{
    let r = vec![
        RegisterWrite { reg: Register::Cr, value: 0 },
        RegisterWrite { reg: Register::Icr, value: ICR_ALL },
        RegisterWrite { reg: Register::Ibrd, value: BAUD_INTEGER_DIVISOR },
        RegisterWrite { reg: Register::Fbrd, value: BAUD_FRACTIONAL_DIVISOR },
        RegisterWrite { reg: Register::Lcrh, value: LCRH_WLEN_EIGHT_BIT | LCRH_FEN },
        RegisterWrite { reg: Register::Cr, value: CR_UARTEN | CR_TXE | CR_RXE },
    ];
    assert(r@ =~= init_sequence_spec());
    r
}

/// The values held by the registers of one device, as software sees them:
/// what the Data and Flag Registers last read, and what was last stored to
/// each write-only register.
#[derive(Clone, Copy, Debug, PartialEq, Eq, Structural)]
pub struct RegisterBlock {
    pub dr: u32,
    pub fr: u32,
    pub ibrd: u32,
    pub fbrd: u32,
    pub lcrh: u32,
    pub cr: u32,
    pub icr: u32,
}

pub open spec fn apply_spec(b: RegisterBlock, w: RegisterWrite) -> RegisterBlock {
    match w.reg {
        Register::Dr => RegisterBlock { dr: w.value, ..b },
        Register::Fr => b,
        Register::Ibrd => RegisterBlock { ibrd: w.value, ..b },
        Register::Fbrd => RegisterBlock { fbrd: w.value, ..b },
        Register::Lcrh => RegisterBlock { lcrh: w.value, ..b },
        Register::Cr => RegisterBlock { cr: w.value, ..b },
        Register::Icr => RegisterBlock { icr: w.value, ..b },
    }
}

pub open spec fn apply_all_spec(b: RegisterBlock, ws: Seq<RegisterWrite>) -> RegisterBlock
    decreases ws.len(),
{
    if ws.len() == 0 {
        b
    } else {
        apply_spec(apply_all_spec(b, ws.drop_last()), ws.last())
    }
}

/// The device is configured for the fixed baud rate, eight-bit words with FIFOs,
/// and has receive, transmit and the device itself enabled.
pub open spec fn is_configured(b: RegisterBlock) -> bool {
    &&& b.ibrd & IBRD_MASK == BAUD_INTEGER_DIVISOR
    &&& b.fbrd & FBRD_MASK == BAUD_FRACTIONAL_DIVISOR
    &&& b.lcrh & LCRH_WLEN_MASK == LCRH_WLEN_EIGHT_BIT
    &&& b.lcrh & LCRH_FEN != 0
    &&& b.cr & CR_UARTEN != 0
    &&& b.cr & CR_TXE != 0
    &&& b.cr & CR_RXE != 0
}

/// The block that the initialization sequence leaves behind, starting from `b`.
pub open spec fn initialized_block(b: RegisterBlock) -> RegisterBlock {
    RegisterBlock {
        dr: b.dr,
        fr: b.fr,
        ibrd: BAUD_INTEGER_DIVISOR,
        fbrd: BAUD_FRACTIONAL_DIVISOR,
        lcrh: LCRH_WLEN_EIGHT_BIT | LCRH_FEN,
        cr: CR_UARTEN | CR_TXE | CR_RXE,
        icr: ICR_ALL,
    }
}

impl RegisterBlock {
    /// A block with every register reading zero.
    pub fn zeroed() -> (r: RegisterBlock)
        ensures
            r == (RegisterBlock { dr: 0, fr: 0, ibrd: 0, fbrd: 0, lcrh: 0, cr: 0, icr: 0 }),
    {
        RegisterBlock { dr: 0, fr: 0, ibrd: 0, fbrd: 0, lcrh: 0, cr: 0, icr: 0 }
    }

    /// Performs one store. A store to the read-only Flag Register changes nothing.
    pub fn apply(&mut self, w: RegisterWrite)
        ensures
            *final(self) == apply_spec(*old(self), w),
    {
        match w.reg {
            Register::Dr => self.dr = w.value,
            Register::Fr => {},
            Register::Ibrd => self.ibrd = w.value,
            Register::Fbrd => self.fbrd = w.value,
            Register::Lcrh => self.lcrh = w.value,
            Register::Cr => self.cr = w.value,
            Register::Icr => self.icr = w.value,
        }
    }

    /// Performs the stores in order.
    pub fn apply_all(&mut self, ws: &Vec<RegisterWrite>)
        ensures
            *final(self) == apply_all_spec(*old(self), ws@),
    {
        let ghost start = *self;
        let mut i: usize = 0;
        while i < ws.len()
            invariant
                i <= ws.len(),
                *self == apply_all_spec(start, ws@.subrange(0, i as int)),
            decreases ws.len() - i,
        {
            let ghost prev = ws@.subrange(0, i as int);
            self.apply(ws[i]);
            proof {
                let next = ws@.subrange(0, i + 1);
                assert(next.drop_last() =~= prev);
            }
            i = i + 1;
        }
        assert(ws@.subrange(0, ws.len() as int) =~= ws@);
    }
}

/// Running the initialization sequence yields the same block whatever the block
/// held before, apart from the two registers it never stores to.
pub proof fn lemma_init_sequence_result(b: RegisterBlock)
    ensures
        apply_all_spec(b, init_sequence_spec()) == initialized_block(b),
        is_configured(initialized_block(b)),
{
    let s = init_sequence_spec();
    reveal_with_fuel(apply_all_spec, 7);
    assert(s.drop_last() =~= s.subrange(0, 5));
    assert(s.subrange(0, 5).drop_last() =~= s.subrange(0, 4));
    assert(s.subrange(0, 4).drop_last() =~= s.subrange(0, 3));
    assert(s.subrange(0, 3).drop_last() =~= s.subrange(0, 2));
    assert(s.subrange(0, 2).drop_last() =~= s.subrange(0, 1));
    assert(s.subrange(0, 1).drop_last() =~= Seq::<RegisterWrite>::empty());
    assert((13u32 & 0xffffu32) == 13u32) by (bit_vector);
    assert((2u32 & 0x3fu32) == 2u32) by (bit_vector);
    assert(((0x60u32 | 0x10u32) & 0x60u32) == 0x60u32) by (bit_vector);
    assert(((0x60u32 | 0x10u32) & 0x10u32) != 0) by (bit_vector);
    assert(((0x1u32 | 0x100u32 | 0x200u32) & 0x1u32) != 0) by (bit_vector);
    assert(((0x1u32 | 0x100u32 | 0x200u32) & 0x100u32) != 0) by (bit_vector);
    assert(((0x1u32 | 0x100u32 | 0x200u32) & 0x200u32) != 0) by (bit_vector);
}

/// Running the initialization sequence twice leaves the same configuration as
/// running it once: the result depends on the sequence's constants alone.
pub proof fn lemma_init_sequence_idempotent(b: RegisterBlock)
    ensures
        apply_all_spec(apply_all_spec(b, init_sequence_spec()), init_sequence_spec())
            == apply_all_spec(b, init_sequence_spec()),
        is_configured(apply_all_spec(b, init_sequence_spec())),
{
    lemma_init_sequence_result(b);
    lemma_init_sequence_result(initialized_block(b));
}

} // verus!
