//! Driver for the PL011 UART of the BCM SoCs.
//!
//! The driver decides; the caller touches the device. Each polling loop of the
//! device protocol is split into a step: the caller reads the Flag Register,
//! hands its value to the step, and either polls again or performs the store or
//! load that the step asks for.
use vstd::prelude::*;
use crate::registers::{
    init_sequence, init_sequence_spec, rx_fifo_empty, rx_fifo_empty_spec, tx_fifo_full,
    tx_fifo_full_spec, Register, RegisterWrite,
};
use crate::synchronization::NullLock;
use crate::console;
use crate::driver;

verus! {

/// What a transmit step asks of the caller.
#[derive(Clone, Copy, Debug, PartialEq, Eq, Structural)]
pub enum TxStep {
    /// The transmit FIFO is full: wait a cycle and read the Flag Register again.
    Poll,
    /// Space is available: perform this store to the Data Register.
    Store(RegisterWrite),
}

/// What a receive step asks of the caller.
#[derive(Clone, Copy, Debug, PartialEq, Eq, Structural)]
pub enum RxStep {
    /// The receive FIFO is empty: wait a cycle and read the Flag Register again.
    Poll,
    /// A character is waiting: load the Data Register and hand it to `complete_read`.
    Load(Register),
}

/// The character that a Data Register value carries: its low byte, with a
/// carriage return reported as a newline.
pub open spec fn received_char_spec(dr: u32) -> char {
    if (dr & 0xff) == 13 {
        '\n'
    } else {
        ((dr & 0xff) as u8) as char
    }
}

/// State of one PL011 UART: where its registers are, whether the
/// initialization sequence has been issued, and how many characters went
/// through it in each direction.
pub struct PL011UartInner {
    base_addr: usize,
    chars_written: usize,
    chars_read: usize,
    ready: bool,
}

impl PL011UartInner {
    pub closed spec fn spec_base_addr(&self) -> usize {
        self.base_addr
    }

    pub closed spec fn spec_chars_written(&self) -> nat {
        self.chars_written as nat
    }

    pub closed spec fn spec_chars_read(&self) -> nat {
        self.chars_read as nat
    }

    pub closed spec fn spec_ready(&self) -> bool {
        self.ready
    }

    /// Whether the counters can still count one more character.
    pub open spec fn can_write(&self) -> bool {
        self.spec_chars_written() < usize::MAX
    }

    pub open spec fn can_read(&self) -> bool {
        self.spec_chars_read() < usize::MAX
    }

    /// Same device, same counters, same readiness.
    pub open spec fn same_state(&self, o: &PL011UartInner) -> bool {
        &&& self.spec_base_addr() == o.spec_base_addr()
        &&& self.spec_chars_written() == o.spec_chars_written()
        &&& self.spec_chars_read() == o.spec_chars_read()
        &&& self.spec_ready() == o.spec_ready()
    }

    /// A driver for the register block at `base_addr`, not yet initialized,
    /// with both counters at zero.
    pub fn new(base_addr: usize) -> (r: PL011UartInner)
        ensures
            r.spec_base_addr() == base_addr,
            r.spec_chars_written() == 0,
            r.spec_chars_read() == 0,
            !r.spec_ready(),
    {
        PL011UartInner { base_addr, chars_written: 0, chars_read: 0, ready: false }
    }

    /// Marks the device ready and returns the stores that bring it up, in the
    /// order they must be issued. The stores do not depend on the state.
    pub fn init(&mut self) -> (r: Vec<RegisterWrite>)
        ensures
            r@ == init_sequence_spec(),
            final(self).spec_ready(),
            final(self).spec_base_addr() == old(self).spec_base_addr(),
            final(self).spec_chars_written() == old(self).spec_chars_written(),
            final(self).spec_chars_read() == old(self).spec_chars_read(),
    {
        self.ready = true;
        init_sequence()
    }

    /// Base address of the register block.
    pub fn base_addr(&self) -> (r: usize)
        ensures
            r == self.spec_base_addr(),
    {
        self.base_addr
    }

    /// Whether the initialization sequence has been issued.
    pub fn is_ready(&self) -> (r: bool)
        ensures
            r == self.spec_ready(),
    {
        self.ready
    }

    /// Characters written so far.
    pub fn chars_written(&self) -> (r: usize)
        ensures
            r == self.spec_chars_written(),
    {
        self.chars_written
    }

    /// Characters read so far.
    pub fn chars_read(&self) -> (r: usize)
        ensures
            r == self.spec_chars_read(),
    {
        self.chars_read
    }

    /// One step of writing `c`, given the Flag Register value just read.
    /// While the transmit FIFO is full nothing changes and the caller polls
    /// again; once it is not, the character's code point goes to the Data
    /// Register and the write is counted.
    pub fn write_char_step(&mut self, c: char, fr: u32) -> (r: TxStep)
        requires
            old(self).can_write(),
        ensures
            tx_fifo_full_spec(fr) ==> r == TxStep::Poll && final(self).same_state(old(self)),
            !tx_fifo_full_spec(fr) ==> r == TxStep::Store(
                RegisterWrite { reg: Register::Dr, value: c as u32 },
            ),
            !tx_fifo_full_spec(fr) ==> final(self).spec_chars_written()
                == old(self).spec_chars_written() + 1,
            !tx_fifo_full_spec(fr) ==> final(self).spec_chars_read()
                == old(self).spec_chars_read(),
            final(self).spec_base_addr() == old(self).spec_base_addr(),
            final(self).spec_ready() == old(self).spec_ready(),
    {
        if tx_fifo_full(fr) {
            TxStep::Poll
        } else {
            self.chars_written = self.chars_written + 1;
            TxStep::Store(RegisterWrite { reg: Register::Dr, value: c as u32 })
        }
    }

    /// One step of reading, given the Flag Register value just read: poll while
    /// the receive FIFO is empty, else load the Data Register.
    pub fn read_char_step(&self, fr: u32) -> (r: RxStep)
        ensures
            rx_fifo_empty_spec(fr) ==> r == RxStep::Poll,
            !rx_fifo_empty_spec(fr) ==> r == RxStep::Load(Register::Dr),
    {
        if rx_fifo_empty(fr) {
            RxStep::Poll
        } else {
            RxStep::Load(Register::Dr)
        }
    }

    /// Ends a read with the Data Register value that was loaded: counts the
    /// character and returns it, a carriage return turned into a newline.
    pub fn complete_read(&mut self, dr: u32) -> (r: char)
        requires
            old(self).can_read(),
        ensures
            r == received_char_spec(dr),
            final(self).spec_chars_read() == old(self).spec_chars_read() + 1,
            final(self).spec_chars_written() == old(self).spec_chars_written(),
            final(self).spec_base_addr() == old(self).spec_base_addr(),
            final(self).spec_ready() == old(self).spec_ready(),
    {
        let low = dr & 0xff;
        assert(dr & 0xff <= 0xff) by (bit_vector);
        let b = low as u8;
        let ret = if b == 13u8 {
            '\n'
        } else {
            b as char
        };
        self.chars_read = self.chars_read + 1;
        ret
    }
}

/// The Data Register values that writing `cs` stores, when successive Flag
/// Register reads return `frs`: each reading with the transmit FIFO full is a
/// poll; each other reading lets the next character through. The run stops when
/// the characters or the readings run out.
pub open spec fn tx_run(cs: Seq<char>, frs: Seq<u32>) -> Seq<u32>
    decreases frs.len(),
{
    if cs.len() == 0 || frs.len() == 0 {
        Seq::empty()
    } else if tx_fifo_full_spec(frs[0]) {
        tx_run(cs, frs.drop_first())
    } else {
        seq![cs[0] as u32] + tx_run(cs.drop_first(), frs.drop_first())
    }
}

/// How many readings the run over `cs` and `frs` consumes.
pub open spec fn tx_run_reads(cs: Seq<char>, frs: Seq<u32>) -> nat
    decreases frs.len(),
{
    if cs.len() == 0 || frs.len() == 0 {
        0
    } else if tx_fifo_full_spec(frs[0]) {
        1 + tx_run_reads(cs, frs.drop_first())
    } else {
        1 + tx_run_reads(cs.drop_first(), frs.drop_first())
    }
}

/// What a run of transmit steps did.
pub struct TxRun {
    /// Data Register values stored, in order.
    pub stores: Vec<u32>,
    /// Flag Register readings consumed.
    pub reads: usize,
}

proof fn lemma_tx_run_len(cs: Seq<char>, frs: Seq<u32>)
    ensures
        tx_run(cs, frs).len() <= cs.len(),
        tx_run_reads(cs, frs) <= frs.len(),
    decreases frs.len(),
{
    if cs.len() == 0 || frs.len() == 0 {
    } else if tx_fifo_full_spec(frs[0]) {
        lemma_tx_run_len(cs, frs.drop_first());
    } else {
        lemma_tx_run_len(cs.drop_first(), frs.drop_first());
    }
}

impl PL011UartInner {
    /// Writes the characters of `cs` in order, taking the Flag Register
    /// readings from `frs` one per step, and returns the stores made.
    /// A character is stored only after a reading that shows the transmit FIFO
    /// not full, and each stored character is counted once.
    pub fn write_chars(&mut self, cs: &Vec<char>, frs: &Vec<u32>) -> (r: TxRun)
        requires
            old(self).spec_chars_written() + cs.len() <= usize::MAX,
        ensures
            r.stores@ == tx_run(cs@, frs@),
            r.reads == tx_run_reads(cs@, frs@),
            final(self).spec_chars_written() == old(self).spec_chars_written()
                + r.stores@.len(),
            tx_ready_count(frs@) >= cs.len() ==> r.stores@ == cs@.map_values(|c: char| c as u32)
                && final(self).spec_chars_written() == old(self).spec_chars_written() + cs.len(),
            final(self).spec_chars_read() == old(self).spec_chars_read(),
            final(self).spec_base_addr() == old(self).spec_base_addr(),
            final(self).spec_ready() == old(self).spec_ready(),
    {
        let mut stores: Vec<u32> = Vec::new();
        let mut i: usize = 0;
        let mut j: usize = 0;
        proof {
            lemma_tx_run_len(cs@, frs@);
            assert(cs@.subrange(0, cs@.len() as int) =~= cs@);
            assert(frs@.subrange(0, frs@.len() as int) =~= frs@);
            assert(stores@ + tx_run(cs@, frs@) =~= tx_run(cs@, frs@));
        }
        while i < cs.len() && j < frs.len()
            invariant
                i <= cs.len(),
                j <= frs.len(),
                stores@ + tx_run(cs@.subrange(i as int, cs@.len() as int), frs@.subrange(j as int, frs@.len() as int))
                    == tx_run(cs@, frs@),
                j + tx_run_reads(cs@.subrange(i as int, cs@.len() as int), frs@.subrange(j as int, frs@.len() as int))
                    == tx_run_reads(cs@, frs@),
                stores@.len() == i,
                self.spec_chars_written() == old(self).spec_chars_written() + i,
                old(self).spec_chars_written() + cs.len() <= usize::MAX,
                self.spec_chars_read() == old(self).spec_chars_read(),
                self.spec_base_addr() == old(self).spec_base_addr(),
                self.spec_ready() == old(self).spec_ready(),
            decreases frs.len() - j,
        {
            let ghost rest_c = cs@.subrange(i as int, cs@.len() as int);
            let ghost rest_f = frs@.subrange(j as int, frs@.len() as int);
            assert(rest_f.drop_first() =~= frs@.subrange(j + 1, frs@.len() as int));
            assert(rest_c.drop_first() =~= cs@.subrange(i + 1, cs@.len() as int));
            match self.write_char_step(cs[i], frs[j]) {
                TxStep::Poll => {},
                TxStep::Store(w) => {
                    stores.push(w.value);
                    i = i + 1;
                },
            }
            j = j + 1;
        }
        proof {
            let rest_c = cs@.subrange(i as int, cs@.len() as int);
            let rest_f = frs@.subrange(j as int, frs@.len() as int);
            assert(rest_c.len() == 0 || rest_f.len() == 0);
            assert(stores@ + tx_run(rest_c, rest_f) =~= stores@);
        }
        proof {
            if tx_ready_count(frs@) >= cs.len() {
                lemma_tx_run_complete(cs@, frs@);
            }
        }
        TxRun { stores, reads: j }
    }
}

/// The characters that reading returns when successive Flag Register reads
/// return `frs` and successive Data Register loads return `drs`: each reading
/// with the receive FIFO empty is a poll; each other reading loads the next
/// Data Register value. The run stops when the readings or the values run out.
pub open spec fn rx_run(frs: Seq<u32>, drs: Seq<u32>) -> Seq<char>
    decreases frs.len(),
{
    if frs.len() == 0 || drs.len() == 0 {
        Seq::empty()
    } else if rx_fifo_empty_spec(frs[0]) {
        rx_run(frs.drop_first(), drs)
    } else {
        seq![received_char_spec(drs[0])] + rx_run(frs.drop_first(), drs.drop_first())
    }
}

/// How many readings the run over `frs` and `drs` consumes.
pub open spec fn rx_run_reads(frs: Seq<u32>, drs: Seq<u32>) -> nat
    decreases frs.len(),
{
    if frs.len() == 0 || drs.len() == 0 {
        0
    } else if rx_fifo_empty_spec(frs[0]) {
        1 + rx_run_reads(frs.drop_first(), drs)
    } else {
        1 + rx_run_reads(frs.drop_first(), drs.drop_first())
    }
}

/// Number of Flag Register readings in `frs` that show the transmit FIFO not full.
pub open spec fn tx_ready_count(frs: Seq<u32>) -> nat
    decreases frs.len(),
{
    if frs.len() == 0 {
        0
    } else {
        (if tx_fifo_full_spec(frs[0]) { 0nat } else { 1nat }) + tx_ready_count(frs.drop_first())
    }
}

/// Number of Flag Register readings in `frs` that show the receive FIFO not empty.
pub open spec fn rx_ready_count(frs: Seq<u32>) -> nat
    decreases frs.len(),
{
    if frs.len() == 0 {
        0
    } else {
        (if rx_fifo_empty_spec(frs[0]) { 0nat } else { 1nat }) + rx_ready_count(frs.drop_first())
    }
}

proof fn lemma_rx_run_len(frs: Seq<u32>, drs: Seq<u32>)
    ensures
        rx_run(frs, drs).len() <= drs.len(),
    decreases frs.len(),
{
    if frs.len() == 0 || drs.len() == 0 {
    } else if rx_fifo_empty_spec(frs[0]) {
        lemma_rx_run_len(frs.drop_first(), drs);
    } else {
        lemma_rx_run_len(frs.drop_first(), drs.drop_first());
    }
}

/// Writing N characters stores all N, in order and by code point, once the
/// Flag Register has shown the transmit FIFO not full at least N times; a
/// write run therefore counts exactly N characters.
pub proof fn lemma_tx_run_complete(cs: Seq<char>, frs: Seq<u32>)
    requires
        tx_ready_count(frs) >= cs.len(),
    ensures
        tx_run(cs, frs) == cs.map_values(|c: char| c as u32),
    decreases frs.len(),
{
    if cs.len() == 0 {
        assert(cs.map_values(|c: char| c as u32) =~= Seq::<u32>::empty());
    } else {
        assert(frs.len() > 0);
        if tx_fifo_full_spec(frs[0]) {
            lemma_tx_run_complete(cs, frs.drop_first());
        } else {
            lemma_tx_run_complete(cs.drop_first(), frs.drop_first());
            assert(seq![cs[0] as u32] + cs.drop_first().map_values(|c: char| c as u32)
                =~= cs.map_values(|c: char| c as u32));
        }
    }
}

/// Reading N characters, once the Flag Register has shown the receive FIFO
/// not empty at least N times, loads all N Data Register values in order and
/// returns each as its character, with a carriage return reported as a newline.
pub proof fn lemma_rx_run_complete(frs: Seq<u32>, drs: Seq<u32>)
    requires
        rx_ready_count(frs) >= drs.len(),
    ensures
        rx_run(frs, drs) == drs.map_values(|d: u32| received_char_spec(d)),
        forall|k: int| 0 <= k < drs.len() && (drs[k] & 0xff) == 13 ==> rx_run(frs, drs)[k] == '\n',
    decreases frs.len(),
{
    if drs.len() == 0 {
        assert(drs.map_values(|d: u32| received_char_spec(d)) =~= Seq::<char>::empty());
    } else {
        assert(frs.len() > 0);
        if rx_fifo_empty_spec(frs[0]) {
            lemma_rx_run_complete(frs.drop_first(), drs);
        } else {
            lemma_rx_run_complete(frs.drop_first(), drs.drop_first());
            assert(seq![received_char_spec(drs[0])] + drs.drop_first().map_values(
                |d: u32| received_char_spec(d),
            ) =~= drs.map_values(|d: u32| received_char_spec(d)));
        }
    }
}

/// What a run of receive steps did.
pub struct RxRun {
    /// Characters returned, in order.
    pub chars: Vec<char>,
    /// Flag Register readings consumed.
    pub reads: usize,
}

impl PL011UartInner {
    /// Reads characters, taking the Flag Register readings from `frs` one per
    /// step and the Data Register values from `drs` one per load. A Data
    /// Register value is loaded only after a reading that shows the receive
    /// FIFO not empty, and each character returned is counted once.
    pub fn read_chars(&mut self, frs: &Vec<u32>, drs: &Vec<u32>) -> (r: RxRun)
        requires
            old(self).spec_chars_read() + drs.len() <= usize::MAX,
        ensures
            r.chars@ == rx_run(frs@, drs@),
            r.reads == rx_run_reads(frs@, drs@),
            final(self).spec_chars_read() == old(self).spec_chars_read() + r.chars@.len(),
            rx_ready_count(frs@) >= drs.len() ==> r.chars@ == drs@.map_values(
                |d: u32| received_char_spec(d),
            ) && final(self).spec_chars_read() == old(self).spec_chars_read() + drs.len(),
            final(self).spec_chars_written() == old(self).spec_chars_written(),
            final(self).spec_base_addr() == old(self).spec_base_addr(),
            final(self).spec_ready() == old(self).spec_ready(),
    {
        let mut chars: Vec<char> = Vec::new();
        let mut i: usize = 0;
        let mut j: usize = 0;
        proof {
            lemma_rx_run_len(frs@, drs@);
            assert(drs@.subrange(0, drs@.len() as int) =~= drs@);
            assert(frs@.subrange(0, frs@.len() as int) =~= frs@);
            assert(chars@ + rx_run(frs@, drs@) =~= rx_run(frs@, drs@));
        }
        while i < drs.len() && j < frs.len()
            invariant
                i <= drs.len(),
                j <= frs.len(),
                chars@ + rx_run(frs@.subrange(j as int, frs@.len() as int), drs@.subrange(i as int, drs@.len() as int))
                    == rx_run(frs@, drs@),
                j + rx_run_reads(frs@.subrange(j as int, frs@.len() as int), drs@.subrange(i as int, drs@.len() as int))
                    == rx_run_reads(frs@, drs@),
                chars@.len() == i,
                self.spec_chars_read() == old(self).spec_chars_read() + i,
                old(self).spec_chars_read() + drs.len() <= usize::MAX,
                self.spec_chars_written() == old(self).spec_chars_written(),
                self.spec_base_addr() == old(self).spec_base_addr(),
                self.spec_ready() == old(self).spec_ready(),
            decreases frs.len() - j,
        {
            let ghost rest_d = drs@.subrange(i as int, drs@.len() as int);
            let ghost rest_f = frs@.subrange(j as int, frs@.len() as int);
            assert(rest_f.drop_first() =~= frs@.subrange(j + 1, frs@.len() as int));
            assert(rest_d.drop_first() =~= drs@.subrange(i + 1, drs@.len() as int));
            match self.read_char_step(frs[j]) {
                RxStep::Poll => {},
                RxStep::Load(_) => {
                    let c = self.complete_read(drs[i]);
                    chars.push(c);
                    i = i + 1;
                },
            }
            j = j + 1;
        }
        proof {
            let rest_d = drs@.subrange(i as int, drs@.len() as int);
            let rest_f = frs@.subrange(j as int, frs@.len() as int);
            assert(chars@ + rx_run(rest_f, rest_d) =~= chars@);
        }
        proof {
            if rx_ready_count(frs@) >= drs.len() {
                lemma_rx_run_complete(frs@, drs@);
            }
        }
        RxRun { chars, reads: j }
    }
}

/// The driver state used on its own, outside any lock: reserved for the
/// terminal panic path, which must not wait for a lock that the failing code
/// may hold, and after which no other code runs.
pub type PanicUart = PL011UartInner;

/// The PL011 UART as a device driver and console: its state behind the
/// exclusive-access primitive.
pub struct PL011Uart {
    inner: NullLock<PL011UartInner>,
}

impl PL011Uart {
    /// The state the lock protects.
    pub closed spec fn spec_inner(&self) -> PL011UartInner {
        self.inner.view()
    }

    /// A driver for the register block at `base_addr`, not yet initialized.
    pub fn new(base_addr: usize) -> (r: PL011Uart)
        ensures
            r.spec_inner().spec_base_addr() == base_addr,
            r.spec_inner().spec_chars_written() == 0,
            r.spec_inner().spec_chars_read() == 0,
            !r.spec_inner().spec_ready(),
    {
        PL011Uart { inner: NullLock::new(PL011UartInner::new(base_addr)) }
    }

    /// Exclusive access to the driver state, for the step functions.
    pub fn lock(&mut self) -> (r: &mut PL011UartInner)
        ensures
            *r == old(self).spec_inner(),
            final(self).spec_inner() == *final(r),
    {
        self.inner.lock()
    }

    /// Read-only view of the driver state.
    pub fn inner(&self) -> (r: &PL011UartInner)
        ensures
            *r == self.spec_inner(),
    {
        self.inner.get()
    }
}

impl driver::DeviceDriver for PL011Uart {
    fn compatible(&self) -> (r: &'static str)
        ensures
            r@ == "BCM PL011 UART"@,
    {
        proof {
            reveal_strlit("BCM PL011 UART");
        }
        "BCM PL011 UART"
    }

    /// Marks the device ready and hands out the stores that bring it up.
    fn init(&mut self) -> (r: Result<Vec<RegisterWrite>, ()>)
        ensures
            r is Ok,
            r->Ok_0@ == init_sequence_spec(),
            final(self).spec_inner().spec_ready(),
            final(self).spec_inner().spec_base_addr() == old(self).spec_inner().spec_base_addr(),
            final(self).spec_inner().spec_chars_written()
                == old(self).spec_inner().spec_chars_written(),
            final(self).spec_inner().spec_chars_read() == old(self).spec_inner().spec_chars_read(),
    {
        let inner = self.inner.lock();
        Ok(inner.init())
    }
}

impl console::Statistics for PL011Uart {
    fn chars_written(&self) -> (r: usize)
        ensures
            r == self.spec_inner().spec_chars_written(),
    {
        self.inner.get().chars_written()
    }

    fn chars_read(&self) -> (r: usize)
        ensures
            r == self.spec_inner().spec_chars_read(),
    {
        self.inner.get().chars_read()
    }
}

} // verus!
