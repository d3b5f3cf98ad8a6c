//! The Raspberry Pi 3 board: its devices, their addresses and the driver table.
use vstd::prelude::*;
use crate::driver::{DeviceDriver, DeviceStores, DriverManager};
use crate::registers::init_sequence_spec;
use crate::uart::PL011Uart;

verus! {

/// Base of the peripheral address space.
pub const MMIO_BASE: usize = 0x3f00_0000;
/// Base address of the GPIO register block.
pub const GPIO_BASE: usize = 0x3f20_0000;
/// Base address of the PL011 UART register block.
pub const PL011_UART_BASE: usize = 0x3f20_1000;

/// Name of the board.
pub fn board_name() -> (r: &'static str)
    ensures
        r@ == "Raspberry Pi 3"@,
{
    proof {
        reveal_strlit("Raspberry Pi 3");
    }
    "Raspberry Pi 3"
}

/// The GPIO controller, as far as the boot path uses it: routing the UART's
/// transmit and receive signals to their pins.
pub struct GPIO {
    base_addr: usize,
    pl011_uart_mapped: bool,
}

impl GPIO {
    pub closed spec fn spec_base_addr(&self) -> usize {
        self.base_addr
    }

    pub closed spec fn spec_pl011_uart_mapped(&self) -> bool {
        self.pl011_uart_mapped
    }

    /// A driver for the register block at `base_addr`, with no pin routed yet.
    pub fn new(base_addr: usize) -> (r: GPIO)
        ensures
            r.spec_base_addr() == base_addr,
            !r.spec_pl011_uart_mapped(),
    {
        GPIO { base_addr, pl011_uart_mapped: false }
    }

    /// Whether the UART signals have been routed to their pins.
    pub fn is_pl011_uart_mapped(&self) -> (r: bool)
        ensures
            r == self.spec_pl011_uart_mapped(),
    {
        self.pl011_uart_mapped
    }

    /// Routes the UART's transmit and receive signals to their pins.
    pub fn map_pl011_uart(&mut self)
        ensures
            final(self).spec_pl011_uart_mapped(),
            final(self).spec_base_addr() == old(self).spec_base_addr(),
    {
        self.pl011_uart_mapped = true;
    }
}

impl DeviceDriver for GPIO {
    fn compatible(&self) -> (r: &'static str)
        ensures
            r@ == "BCM GPIO"@,
    {
        proof {
            reveal_strlit("BCM GPIO");
        }
        "BCM GPIO"
    }
}

/// The board's driver table: the GPIO controller, then the UART.
pub struct BSPDriverManager {
    gpio: GPIO,
    uart: PL011Uart,
    init_calls: Ghost<Seq<usize>>,
    post_init_calls: Ghost<nat>,
}

impl BSPDriverManager {
    pub closed spec fn spec_gpio(&self) -> GPIO {
        self.gpio
    }

    pub closed spec fn spec_uart(&self) -> PL011Uart {
        self.uart
    }

    /// The GPIO controller.
    pub fn gpio(&self) -> (r: &GPIO)
        ensures
            *r == self.spec_gpio(),
    {
        &self.gpio
    }

    /// The UART.
    pub fn uart(&self) -> (r: &PL011Uart)
        ensures
            *r == self.spec_uart(),
    {
        &self.uart
    }

    /// Exclusive access to the UART.
    pub fn uart_mut(&mut self) -> (r: &mut PL011Uart)
        ensures
            *r == old(self).spec_uart(),
            *final(r) == final(self).spec_uart(),
            final(self).spec_gpio() == old(self).spec_gpio(),
    {
        &mut self.uart
    }

    /// Brings up the GPIO controller, then the UART, then routes the UART's
    /// pins. Neither driver can fail, so this always succeeds, with the stores
    /// that bring the UART up.
    pub fn init_all(&mut self) -> (r: Result<DeviceStores, &'static str>)
        ensures
            r is Ok,
            r->Ok_0.base_addr == old(self).spec_uart().spec_inner().spec_base_addr(),
            r->Ok_0.stores@ == init_sequence_spec(),
            final(self).spec_gpio().spec_pl011_uart_mapped(),
            final(self).spec_gpio().spec_base_addr() == old(self).spec_gpio().spec_base_addr(),
            final(self).spec_uart().spec_inner().spec_ready(),
            final(self).spec_uart().spec_inner().spec_base_addr()
                == old(self).spec_uart().spec_inner().spec_base_addr(),
            final(self).spec_uart().spec_inner().spec_chars_written()
                == old(self).spec_uart().spec_inner().spec_chars_written(),
            final(self).spec_uart().spec_inner().spec_chars_read()
                == old(self).spec_uart().spec_inner().spec_chars_read(),
    {
        let base_addr = self.uart.inner().base_addr();
        let stores = match self.uart.init() {
            Ok(s) => s,
            Err(_) => Vec::new(),
        };
        self.gpio.map_pl011_uart();
        Ok(DeviceStores { base_addr, stores })
    }
}

/// Names of the board's drivers, in table order: the GPIO controller, then the UART.
pub open spec fn board_driver_names() -> Seq<Seq<char>> {
    seq!["BCM GPIO"@, "BCM PL011 UART"@]
}

impl DriverManager for BSPDriverManager {
    open spec fn spec_driver_names(&self) -> Seq<Seq<char>> {
        board_driver_names()
    }

    closed spec fn spec_init_calls(&self) -> Seq<usize> {
        self.init_calls@
    }

    closed spec fn spec_post_init_calls(&self) -> nat {
        self.post_init_calls@
    }

    fn all_device_drivers(&self) -> (r: Vec<&'static str>)
        ensures
            r@.map_values(|s: &'static str| s@) == board_driver_names(),
    {
        let r = vec![self.gpio.compatible(), self.uart.compatible()];
        assert(r@.map_values(|s: &'static str| s@) =~= board_driver_names());
        r
    }

    /// Index 0 is the GPIO controller, which needs no stores and does not
    /// change; index 1 is the UART, which becomes ready and hands out its
    /// stores.
    fn init_device_driver(&mut self, index: usize) -> (r: Result<DeviceStores, ()>)
        ensures
            index == 0 ==> r is Ok && r->Ok_0.stores@.len() == 0 && r->Ok_0.base_addr
                == old(self).spec_gpio().spec_base_addr(),
            index == 0 ==> final(self).spec_gpio() == old(self).spec_gpio() && final(self).spec_uart()
                == old(self).spec_uart(),
            index == 1 ==> r is Ok && r->Ok_0.stores@ == init_sequence_spec() && r->Ok_0.base_addr
                == old(self).spec_uart().spec_inner().spec_base_addr(),
            index == 1 ==> final(self).spec_gpio() == old(self).spec_gpio()
                && final(self).spec_uart().spec_inner().spec_ready()
                && final(self).spec_uart().spec_inner().spec_base_addr()
                == old(self).spec_uart().spec_inner().spec_base_addr()
                && final(self).spec_uart().spec_inner().spec_chars_written()
                == old(self).spec_uart().spec_inner().spec_chars_written()
                && final(self).spec_uart().spec_inner().spec_chars_read()
                == old(self).spec_uart().spec_inner().spec_chars_read(),
            index > 1 ==> r is Err && final(self).spec_gpio() == old(self).spec_gpio()
                && final(self).spec_uart() == old(self).spec_uart(),
    {
        proof {
            self.init_calls = Ghost(self.init_calls@.push(index));
        }
        if index == 0 {
            let base_addr = self.gpio.base_addr;
            match self.gpio.init() {
                Ok(stores) => Ok(DeviceStores { base_addr, stores }),
                Err(e) => Err(e),
            }
        } else if index == 1 {
            let base_addr = self.uart.inner().base_addr();
            match self.uart.init() {
                Ok(stores) => Ok(DeviceStores { base_addr, stores }),
                Err(e) => Err(e),
            }
        } else {
            Err(())
        }
    }

    /// Routes the UART's pins through the GPIO controller; the UART is untouched.
    fn post_device_driver_init(&mut self)
        ensures
            final(self).spec_gpio().spec_pl011_uart_mapped(),
            final(self).spec_gpio().spec_base_addr() == old(self).spec_gpio().spec_base_addr(),
            final(self).spec_uart() == old(self).spec_uart(),
    {
        self.gpio.map_pl011_uart();
        proof {
            self.post_init_calls = Ghost(self.post_init_calls@ + 1);
        }
    }
}

/// The board's driver table, before any driver was brought up.
pub fn driver_manager() -> (r: BSPDriverManager)
    ensures
        r.spec_gpio().spec_base_addr() == GPIO_BASE,
        !r.spec_gpio().spec_pl011_uart_mapped(),
        r.spec_uart().spec_inner().spec_base_addr() == PL011_UART_BASE,
        !r.spec_uart().spec_inner().spec_ready(),
        r.spec_uart().spec_inner().spec_chars_written() == 0,
        r.spec_uart().spec_inner().spec_chars_read() == 0,
        r.spec_driver_names() == board_driver_names(),
        r.spec_init_calls() == Seq::<usize>::empty(),
        r.spec_post_init_calls() == 0,
{
    BSPDriverManager {
        gpio: GPIO::new(GPIO_BASE),
        uart: PL011Uart::new(PL011_UART_BASE),
        init_calls: Ghost(Seq::empty()),
        post_init_calls: Ghost(0),
    }
}

} // verus!
