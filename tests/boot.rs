use quantum::cpu::{core_id, entry_action, EntryAction, BOOT_CORE_ID, BOOT_CORE_STACK_START};
use quantum::runtime_init::{bss_range, runtime_init, zero_volatile, AddressRange};

#[test]
fn boot_core_sets_stack() {
    assert_eq!(BOOT_CORE_ID, 0);
    assert_eq!(entry_action(0), EntryAction::Boot { stack_pointer: BOOT_CORE_STACK_START });
    assert_eq!(BOOT_CORE_STACK_START, 0x80_000);
}

#[test]
fn other_cores_park() {
    for id in [1u64, 2, 3, 0xffff_ffff_ffff_ffff] {
        assert_eq!(entry_action(id), EntryAction::Park);
    }
}

#[test]
fn core_id_from_affinity() {
    assert_eq!(core_id(0x8000_0000), 0);
    assert_eq!(core_id(0x8000_0003), 3);
    assert_eq!(core_id(0x8000_0106), 2);
}

#[test]
fn bootstrap_zeroes_exactly_the_segment() {
    let base = 0x0f00usize;
    let mut mem = vec![0xaau8; 0x200];
    runtime_init(&mut mem, base, bss_range(0x1000, 0x1020));
    for (i, b) in mem.iter().enumerate() {
        let addr = base + i;
        if (0x1000..0x1020).contains(&addr) {
            assert_eq!(*b, 0, "address {:#x}", addr);
        } else {
            assert_eq!(*b, 0xaa, "address {:#x}", addr);
        }
    }
}

#[test]
fn zeroing_empty_range_changes_nothing() {
    let mut mem = vec![1u8, 2, 3, 4];
    zero_volatile(&mut mem, 0x10, AddressRange { start: 0x12, end: 0x12 });
    assert_eq!(mem, vec![1, 2, 3, 4]);
    zero_volatile(&mut mem, 0x10, AddressRange { start: 0x10, end: 0x14 });
    assert_eq!(mem, vec![0, 0, 0, 0]);
}
