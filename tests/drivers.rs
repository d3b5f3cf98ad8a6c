use quantum::bsp::{board_name, driver_manager, GPIO, GPIO_BASE, PL011_UART_BASE};
use quantum::console::{Read, Statistics};
use quantum::driver::{init_drivers, DeviceDriver, DeviceStores, DriverInit, DriverManager, InitAction};
use quantum::registers::init_sequence;
use quantum::panic_wait::{driver_failure_message, fatal_message};

struct TestManager {
    names: Vec<&'static str>,
    fail_at: Option<usize>,
    inits: Vec<usize>,
    post_init_runs: usize,
}

impl DriverManager for TestManager {
    fn all_device_drivers(&self) -> Vec<&'static str> {
        self.names.clone()
    }

    fn init_device_driver(&mut self, index: usize) -> Result<DeviceStores, ()> {
        self.inits.push(index);
        if self.fail_at == Some(index) {
            Err(())
        } else {
            Ok(DeviceStores { base_addr: index, stores: vec![] })
        }
    }

    fn post_device_driver_init(&mut self) {
        self.post_init_runs += 1;
    }
}

struct Silent;

impl Read for Silent {}
impl Statistics for Silent {}

#[test]
fn failing_driver_is_fatal_and_skips_post_init() {
    let mut m = TestManager { names: vec!["GPIO", "X", "Z"], fail_at: Some(1), inits: vec![], post_init_runs: 0 };
    let r = init_drivers(&mut m);
    assert_eq!(r.result, Err("X"));
    assert_eq!(r.progress.succeeded(), 1);
    assert!(!r.progress.post_init_run());
    assert_eq!(r.progress.next_action(), InitAction::Fatal(1));
    assert_eq!(m.inits, vec![0, 1]);
    assert_eq!(m.post_init_runs, 0);
    let msg = fatal_message(Some(&driver_failure_message(r.result.unwrap_err())));
    assert_eq!(msg, "\nFatal error: Error loading driver: X\n");
    assert!(msg.contains("X"));
}

#[test]
fn all_drivers_succeed_then_post_init_once() {
    let mut m = TestManager { names: vec!["A", "B"], fail_at: None, inits: vec![], post_init_runs: 0 };
    let r = init_drivers(&mut m);
    assert_eq!(r.result, Ok(()));
    assert!(r.progress.post_init_run());
    assert_eq!(r.progress.succeeded(), 2);
    assert_eq!(m.inits, vec![0, 1]);
    assert_eq!(m.post_init_runs, 1);
}

#[test]
fn empty_table_runs_post_init() {
    let mut m = TestManager { names: vec![], fail_at: None, inits: vec![], post_init_runs: 0 };
    assert_eq!(init_drivers(&mut m).result, Ok(()));
    assert_eq!(m.post_init_runs, 1);
}

#[test]
fn protocol_steps() {
    let mut p = DriverInit::new(2);
    assert_eq!(p.next_action(), InitAction::InitDriver(0));
    p.record_init(true);
    assert_eq!(p.next_action(), InitAction::InitDriver(1));
    p.record_init(false);
    assert_eq!(p.next_action(), InitAction::Fatal(1));
    let mut q = DriverInit::new(1);
    q.record_init(true);
    assert_eq!(q.next_action(), InitAction::PostInit);
    q.record_post_init();
    assert_eq!(q.next_action(), InitAction::Finished);
}

#[test]
fn board_table_order_and_init() {
    let mut m = driver_manager();
    assert_eq!(m.all_device_drivers(), vec!["BCM GPIO", "BCM PL011 UART"]);
    assert_eq!(m.uart().inner().base_addr(), PL011_UART_BASE);
    assert!(!m.gpio().is_pl011_uart_mapped());
    assert_eq!(init_drivers(&mut m).result, Ok(()));
    assert!(m.gpio().is_pl011_uart_mapped());
    assert!(m.uart().inner().is_ready());
    assert!(m.init_device_driver(2).is_err());
}

#[test]
fn board_init_all() {
    let mut m = driver_manager();
    let stores = m.init_all().unwrap();
    assert_eq!(stores.base_addr, PL011_UART_BASE);
    assert_eq!(stores.stores, init_sequence());
    assert!(m.gpio().is_pl011_uart_mapped());
    assert!(m.uart().inner().is_ready());
    assert_eq!(m.uart_mut().chars_written(), 0);
    assert_eq!(board_name(), "Raspberry Pi 3");
}

#[test]
fn gpio_driver_defaults() {
    let mut g = GPIO::new(GPIO_BASE);
    assert_eq!(g.compatible(), "BCM GPIO");
    assert_eq!(g.init(), Ok(vec![]));
    g.map_pl011_uart();
    assert!(g.is_pl011_uart_mapped());
}

#[test]
fn console_defaults() {
    let mut s = Silent;
    assert_eq!(s.read_char(), ' ');
    assert_eq!(s.chars_written(), 0);
    assert_eq!(s.chars_read(), 0);
}

#[test]
fn fatal_message_without_text() {
    assert_eq!(fatal_message(None), "\nFatal error!\n");
}

#[test]
fn board_init_device_driver_by_index() {
    let mut m = driver_manager();
    let gpio = m.init_device_driver(0).unwrap();
    assert_eq!(gpio.base_addr, GPIO_BASE);
    assert!(gpio.stores.is_empty());
    assert!(!m.uart().inner().is_ready());
    let uart = m.init_device_driver(1).unwrap();
    assert_eq!(uart.base_addr, PL011_UART_BASE);
    assert_eq!(uart.stores, init_sequence());
    assert!(m.uart().inner().is_ready());
    assert!(!m.gpio().is_pl011_uart_mapped());
    m.post_device_driver_init();
    assert!(m.gpio().is_pl011_uart_mapped());
    assert_eq!(m.all_device_drivers(), driver_manager().all_device_drivers());
}
