use quantum::registers::{
    init_sequence, rx_fifo_empty, tx_fifo_empty, tx_fifo_full, Register, RegisterBlock,
    RegisterWrite, CR_OFFSET, DR_OFFSET, FBRD_OFFSET, FR_OFFSET, IBRD_OFFSET, ICR_OFFSET,
    LCRH_OFFSET, REGISTER_BLOCK_SIZE,
};
use quantum::uart::{PL011Uart, PL011UartInner, RxStep, TxStep};
use quantum::console::Statistics;
use quantum::driver::DeviceDriver;

#[test]
fn register_offsets_match_datasheet() {
    assert_eq!(Register::Dr.offset(), 0x00);
    assert_eq!(Register::Fr.offset(), 0x18);
    assert_eq!(Register::Ibrd.offset(), 0x24);
    assert_eq!(Register::Fbrd.offset(), 0x28);
    assert_eq!(Register::Lcrh.offset(), 0x2c);
    assert_eq!(Register::Cr.offset(), 0x30);
    assert_eq!(Register::Icr.offset(), 0x44);
    assert_eq!(
        [DR_OFFSET, FR_OFFSET, IBRD_OFFSET, FBRD_OFFSET, LCRH_OFFSET, CR_OFFSET, ICR_OFFSET],
        [0x00, 0x18, 0x24, 0x28, 0x2c, 0x30, 0x44]
    );
    assert_eq!(REGISTER_BLOCK_SIZE, 0x48);
    assert!(!Register::Fr.is_writable());
    assert!(Register::Cr.is_writable());
    assert!(Register::Dr.is_readable());
    assert!(!Register::Icr.is_readable());
}

#[test]
fn flag_bits() {
    assert!(tx_fifo_full(0x20));
    assert!(!tx_fifo_full(0xdf));
    assert!(tx_fifo_empty(0x80));
    assert!(!tx_fifo_empty(0x7f));
    assert!(rx_fifo_empty(0x10));
    assert!(!rx_fifo_empty(0xef));
}

#[test]
fn init_sequence_order_and_values() {
    let s = init_sequence();
    let expected = vec![
        RegisterWrite { reg: Register::Cr, value: 0 },
        RegisterWrite { reg: Register::Icr, value: 0x7ff },
        RegisterWrite { reg: Register::Ibrd, value: 13 },
        RegisterWrite { reg: Register::Fbrd, value: 2 },
        RegisterWrite { reg: Register::Lcrh, value: 0x70 },
        RegisterWrite { reg: Register::Cr, value: 0x301 },
    ];
    assert_eq!(s, expected);
}

#[test]
fn init_twice_gives_same_configuration() {
    let mut b = RegisterBlock { dr: 7, fr: 0x90, ibrd: 99, fbrd: 63, lcrh: 0x0f, cr: 0x0c, icr: 5 };
    b.apply_all(&init_sequence());
    let once = b;
    b.apply_all(&init_sequence());
    assert_eq!(b, once);
    assert_eq!(once.ibrd, 13);
    assert_eq!(once.fbrd, 2);
    assert_eq!(once.lcrh & 0x60, 0x60);
    assert_ne!(once.lcrh & 0x10, 0);
    assert_eq!(once.cr & 0x301, 0x301);
    assert_eq!((once.dr, once.fr), (7, 0x90));
    let mut z = RegisterBlock::zeroed();
    z.apply_all(&init_sequence());
    assert_eq!(z.cr, once.cr);
    assert_eq!(z.lcrh, once.lcrh);
}

#[test]
fn store_to_flag_register_changes_nothing() {
    let mut b = RegisterBlock::zeroed();
    b.apply(RegisterWrite { reg: Register::Fr, value: 0xff });
    assert_eq!(b, RegisterBlock::zeroed());
    b.apply(RegisterWrite { reg: Register::Dr, value: 0x41 });
    assert_eq!(b.dr, 0x41);
}

#[test]
fn inner_init_marks_ready() {
    let mut u = PL011UartInner::new(0x3f20_1000);
    assert!(!u.is_ready());
    let s = u.init();
    assert!(u.is_ready());
    assert_eq!(s, init_sequence());
    assert_eq!(u.base_addr(), 0x3f20_1000);
    assert_eq!(u.chars_written(), 0);
}

#[test]
fn write_polls_while_fifo_full() {
    let mut u = PL011UartInner::new(0);
    let readings = [0x20u32, 0x00];
    let mut polls = 0;
    let mut stored = None;
    for fr in readings {
        match u.write_char_step('A', fr) {
            TxStep::Poll => polls += 1,
            TxStep::Store(w) => {
                stored = Some(w);
                break;
            }
        }
    }
    assert!(polls >= 1);
    assert_eq!(stored, Some(RegisterWrite { reg: Register::Dr, value: 0x41 }));
    assert_eq!(u.chars_written(), 1);
}

#[test]
fn write_run_with_full_fifo_first() {
    let mut u = PL011UartInner::new(0);
    let run = u.write_chars(&vec!['A'], &vec![0x20, 0x00]);
    assert_eq!(run.stores, vec![0x41]);
    assert_eq!(run.reads, 2);
    assert_eq!(u.chars_written(), 1);
}

#[test]
fn write_run_counts_every_character() {
    let mut u = PL011UartInner::new(0);
    let cs: Vec<char> = "hello".chars().collect();
    let run = u.write_chars(&cs, &vec![0x20, 0, 0x20, 0x20, 0, 0, 0, 0]);
    assert_eq!(run.stores, vec![0x68, 0x65, 0x6c, 0x6c, 0x6f]);
    assert_eq!(run.reads, 8);
    assert_eq!(u.chars_written(), 5);
    assert_eq!(u.chars_read(), 0);
}

#[test]
fn write_run_stops_without_space() {
    let mut u = PL011UartInner::new(0);
    let run = u.write_chars(&vec!['a', 'b'], &vec![0x20, 0x20, 0x20]);
    assert!(run.stores.is_empty());
    assert_eq!(run.reads, 3);
    assert_eq!(u.chars_written(), 0);
    let empty = u.write_chars(&vec![], &vec![0]);
    assert!(empty.stores.is_empty());
    assert_eq!(empty.reads, 0);
}

#[test]
fn read_translates_carriage_return() {
    let mut u = PL011UartInner::new(0);
    assert_eq!(u.read_char_step(0x10), RxStep::Poll);
    assert_eq!(u.read_char_step(0x00), RxStep::Load(Register::Dr));
    assert_eq!(u.complete_read(0x0d), '\n');
    assert_eq!(u.complete_read(0x141), 'A');
    assert_eq!(u.complete_read(0x0a), '\n');
    assert_eq!(u.chars_read(), 3);
    assert_eq!(u.chars_written(), 0);
}

#[test]
fn read_run_counts_every_character() {
    let mut u = PL011UartInner::new(0);
    let run = u.read_chars(&vec![0x10, 0, 0x10, 0, 0, 0], &vec![0x68, 0x0d, 0x69]);
    assert_eq!(run.chars, vec!['h', '\n', 'i']);
    assert_eq!(run.reads, 5);
    assert_eq!(u.chars_read(), 3);
}

#[test]
fn uart_driver_and_statistics() {
    let mut uart = PL011Uart::new(0x3f20_1000);
    assert_eq!(uart.compatible(), "BCM PL011 UART");
    assert_eq!(uart.init(), Ok(init_sequence()));
    assert!(uart.inner().is_ready());
    let inner = uart.lock();
    assert_eq!(inner.write_char_step('x', 0), TxStep::Store(RegisterWrite { reg: Register::Dr, value: 0x78 }));
    assert_eq!(inner.complete_read(0x79), 'y');
    assert_eq!(uart.chars_written(), 1);
    assert_eq!(uart.chars_read(), 1);
}
