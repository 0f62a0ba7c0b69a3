use gdt::descriptor::{GDTDescriptor, DESCRIPTOR_SIZE, LIMIT_MASK};

#[test]
fn null_is_eight_zero_bytes() {
    assert_eq!(GDTDescriptor::null().to_bytes(), [0u8; 8]);
}

#[test]
fn null_equals_encoding_of_zeros() {
    assert_eq!(GDTDescriptor::null(), GDTDescriptor::new(0, 0, 0, 0));
}

#[test]
fn flat_kernel_code_bytes() {
    assert_eq!(
        GDTDescriptor::flat(0x9A, 0xC0).to_bytes(),
        [0xFF, 0xFF, 0x00, 0x00, 0x00, 0x9A, 0xCF, 0x00]
    );
}

#[test]
fn flat_equals_encoding_of_full_range() {
    assert_eq!(
        GDTDescriptor::flat(0xF2, 0xCF),
        GDTDescriptor::new(0, 0xFFFF_FFFF, 0xF2, 0xCF)
    );
}

#[test]
fn flat_ignores_low_nibble_of_flags() {
    assert_eq!(GDTDescriptor::flat(0x92, 0xC0), GDTDescriptor::flat(0x92, 0xC7));
    assert_eq!(GDTDescriptor::flat(0x92, 0x00).granularity, 0x0F);
}

#[test]
fn encode_places_every_field() {
    let d = GDTDescriptor::new(0x1234_5678, 0xABCDE, 0x9A, 0xC0);
    assert_eq!(d.limit_low, 0xBCDE);
    assert_eq!(d.base_low, 0x5678);
    assert_eq!(d.base_middle, 0x34);
    assert_eq!(d.access, 0x9A);
    assert_eq!(d.granularity, 0xCA);
    assert_eq!(d.base_high, 0x12);
    assert_eq!(d.to_bytes(), [0xDE, 0xBC, 0x78, 0x56, 0x34, 0x9A, 0xCA, 0x12]);
}

#[test]
fn encode_decodes_back() {
    let d = GDTDescriptor::new(0xDEAD_BEEF, 0x7_1234, 0xF2, 0x45);
    assert_eq!(d.base(), 0xDEAD_BEEF);
    assert_eq!(d.limit(), 0x7_1234);
    assert_eq!(d.access, 0xF2);
    assert_eq!(d.granularity, 0x47);
    assert_eq!(d.flags(), 0x40);
}

#[test]
fn encode_decodes_back_over_many_inputs() {
    let bases = [0u32, 1, 0xFFFF, 0x1_0000, 0x00FF_0000, 0xFF00_0000, 0x8000_0001, u32::MAX];
    let limits = [0u32, 1, 0xFFFF, 0x1_0000, 0xF_FFFF, 0x10_0000, 0x1234_5678, u32::MAX];
    let bytes = [0u8, 0x0F, 0x10, 0x9A, 0xC0, 0xCF, 0xF0, 0xFF];
    for &base in bases.iter() {
        for &limit in limits.iter() {
            for &access in bytes.iter() {
                for &flags in bytes.iter() {
                    let d = GDTDescriptor::new(base, limit, access, flags);
                    assert_eq!(d.base(), base);
                    assert_eq!(d.limit(), limit & 0xF_FFFF);
                    assert_eq!(d.access, access);
                    assert_eq!(d.granularity, (flags & 0xF0) | ((limit >> 16) & 0xF) as u8);
                    assert_eq!(d.flags(), flags & 0xF0);
                    assert_eq!(d.to_bytes().len(), 8);
                }
            }
        }
    }
}

#[test]
fn limit_above_twenty_bits_is_truncated() {
    let d = GDTDescriptor::new(0, 0xFFF1_2345, 0x92, 0x40);
    assert_eq!(d.limit_low, 0x2345);
    assert_eq!(d.granularity, 0x41);
    assert_eq!(d.limit(), 0x1_2345);
}

#[test]
fn limit_masking_gives_identical_output() {
    let limits = [0x10_0000u32, 0x10_0001, 0x1F_FFFF, 0x8000_0000, 0xABCD_EF01, u32::MAX];
    for &limit in limits.iter() {
        let full = GDTDescriptor::new(0x0040_2000, limit, 0x9A, 0xC0);
        let masked = GDTDescriptor::new(0x0040_2000, limit & 0xF_FFFF, 0x9A, 0xC0);
        assert_eq!(full, masked);
        assert_eq!(full.to_bytes(), masked.to_bytes());
    }
}

#[test]
fn limit_of_exactly_twenty_one_bits_encodes_as_zero() {
    assert_eq!(
        GDTDescriptor::new(0, 0x10_0000, 0, 0).to_bytes(),
        GDTDescriptor::new(0, 0, 0, 0).to_bytes()
    );
}

#[test]
fn low_nibble_of_flags_is_replaced_by_limit_bits() {
    assert_eq!(GDTDescriptor::new(0, 0, 0, 0x0F).granularity, 0x00);
    assert_eq!(GDTDescriptor::new(0, 0x5_0000, 0, 0xAF).granularity, 0xA5);
}

#[test]
fn multi_byte_fields_are_little_endian() {
    let bytes = GDTDescriptor::new(0x0000_0102, 0x0304, 0, 0).to_bytes();
    assert_eq!(bytes, [0x04, 0x03, 0x02, 0x01, 0x00, 0x00, 0x00, 0x00]);
}

#[test]
fn from_bytes_reads_back_what_to_bytes_wrote() {
    let d = GDTDescriptor::new(0xCAFE_F00D, 0x9_8765, 0xFA, 0xC0);
    assert_eq!(GDTDescriptor::from_bytes(&d.to_bytes()), d);
    let image = [0x11u8, 0x22, 0x33, 0x44, 0x55, 0x66, 0x77, 0x88];
    let parsed = GDTDescriptor::from_bytes(&image);
    assert_eq!(parsed.limit_low, 0x2211);
    assert_eq!(parsed.base_low, 0x4433);
    assert_eq!(parsed.base(), 0x8855_4433);
    assert_eq!(parsed.limit(), 0x7_2211);
    assert_eq!(parsed.flags(), 0x70);
    assert_eq!(parsed.to_bytes(), image);
}

#[test]
fn descriptor_constants() {
    assert_eq!(DESCRIPTOR_SIZE, 8);
    assert_eq!(LIMIT_MASK, 0xF_FFFF);
}
