use gdt::boot::{init, BootContext, InitError};
use gdt::descriptor::GDTDescriptor;
use gdt::pointer::{GDT, POINTER_BYTES};
use gdt::table::{
    GDTable, FLAT_GRANULARITY, GDT_BYTES, GDT_SIZE, KERNEL_CODE_ACCESS, KERNEL_DATA_ACCESS,
    USER_CODE_ACCESS, USER_DATA_ACCESS,
};

#[test]
fn table_has_five_entries_in_fixed_order() {
    let table = GDTable::new();
    assert_eq!(table.len(), 5);
    let access = [0x00u8, 0x9A, 0x92, 0xFA, 0xF2];
    for slot in 0..5 {
        let d = table.entry(slot).unwrap();
        assert_eq!(d.access, access[slot]);
        assert_eq!(d.base(), 0);
        if slot == 0 {
            assert_eq!(d, GDTDescriptor::null());
        } else {
            assert_eq!(d.flags() >> 4, 0xC);
            assert_eq!(d.limit(), 0xF_FFFF);
            assert_eq!(d, GDTDescriptor::flat(access[slot], 0xCF));
        }
    }
}

#[test]
fn table_entry_past_the_end_is_none() {
    let table = GDTable::new();
    assert!(table.entry(5).is_none());
    assert!(table.entry(usize::MAX).is_none());
}

#[test]
fn table_first_slot_is_null() {
    assert_eq!(GDTable::new().entry(0).unwrap().to_bytes(), [0u8; 8]);
}

#[test]
fn table_image_is_forty_exact_bytes() {
    let table = GDTable::new();
    assert_eq!(table.byte_len(), 40);
    let expected: [u8; 40] = [
        0x00, 0x00, 0x00, 0x00, 0x00, 0x00, 0x00, 0x00, //
        0xFF, 0xFF, 0x00, 0x00, 0x00, 0x9A, 0xCF, 0x00, //
        0xFF, 0xFF, 0x00, 0x00, 0x00, 0x92, 0xCF, 0x00, //
        0xFF, 0xFF, 0x00, 0x00, 0x00, 0xFA, 0xCF, 0x00, //
        0xFF, 0xFF, 0x00, 0x00, 0x00, 0xF2, 0xCF, 0x00, //
    ];
    assert_eq!(table.to_bytes(), expected);
}

#[test]
fn table_constants() {
    assert_eq!(GDT_SIZE, 5);
    assert_eq!(GDT_BYTES, 40);
    assert_eq!(KERNEL_CODE_ACCESS, 0x9A);
    assert_eq!(KERNEL_DATA_ACCESS, 0x92);
    assert_eq!(USER_CODE_ACCESS, 0xFA);
    assert_eq!(USER_DATA_ACCESS, 0xF2);
    assert_eq!(FLAT_GRANULARITY, 0xCF);
    assert_eq!(POINTER_BYTES, 6);
}

#[test]
fn pointer_limit_is_thirty_nine() {
    let table = GDTable::new();
    assert_eq!(GDT::new(&table, 0).limit, 39);
    assert_eq!(GDT::new(&table, 0xFFFF_FFFF).limit, 39);
    assert_eq!(usize::from(GDT::new(&table, 0x1000).limit), table.byte_len() - 1);
}

#[test]
fn pointer_keeps_the_base() {
    let table = GDTable::new();
    assert_eq!(GDT::new(&table, 0x0010_3000).base, 0x0010_3000);
}

#[test]
fn pointer_image_is_six_packed_bytes() {
    let table = GDTable::new();
    let image = GDT::new(&table, 0x1234_5678).to_bytes();
    assert_eq!(image, [39, 0, 0x78, 0x56, 0x34, 0x12]);
    let wide = GDT { limit: 0x0102, base: 0x0A0B_0C0D }.to_bytes();
    assert_eq!(wide, [0x02, 0x01, 0x0D, 0x0C, 0x0B, 0x0A]);
}

#[test]
fn init_hands_out_table_and_pointer() {
    let mut ctx = BootContext::new();
    assert!(!ctx.loaded());
    let request = init(&mut ctx, 0x0020_0000).unwrap();
    assert!(ctx.loaded());
    assert_eq!(request.pointer, GDT { limit: 39, base: 0x0020_0000 });
    assert_eq!(request.table.to_bytes(), GDTable::new().to_bytes());
    assert_eq!(request.table.entry(1).unwrap().access, 0x9A);
}

#[test]
fn init_twice_is_refused() {
    let mut ctx = BootContext::new();
    assert!(init(&mut ctx, 0x1000).is_ok());
    let after_first = ctx;
    let second = init(&mut ctx, 0x1000);
    assert_eq!(second.err(), Some(InitError::AlreadyInitialized));
    assert_eq!(ctx, after_first);
    assert!(ctx.loaded());
}

#[test]
fn init_loads_once_over_many_calls() {
    let mut ctx = BootContext::new();
    let mut handed_out = 0;
    for call in 0..10u32 {
        if init(&mut ctx, 0x1000 * call).is_ok() {
            handed_out += 1;
        }
    }
    assert_eq!(handed_out, 1);
}

#[test]
fn separate_boots_each_load_once() {
    let mut first = BootContext::new();
    let mut second = BootContext::new();
    assert!(init(&mut first, 0x1000).is_ok());
    assert!(init(&mut second, 0x2000).is_ok());
    assert!(init(&mut first, 0x1000).is_err());
}
