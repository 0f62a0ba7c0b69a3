//! The fixed five-entry descriptor table.

use crate::descriptor::{GDTDescriptor, DESCRIPTOR_SIZE};
use vstd::prelude::*;

verus! {

/// Number of descriptors in the table.
pub const GDT_SIZE: usize = 5;

/// Number of bytes the table occupies in memory.
pub const GDT_BYTES: usize = 40;

/// Access byte of the kernel code segment: present, ring 0, executable, readable.
pub const KERNEL_CODE_ACCESS: u8 = 0x9A;

/// Access byte of the kernel data segment: present, ring 0, writable.
pub const KERNEL_DATA_ACCESS: u8 = 0x92;

/// Access byte of the user code segment: present, ring 3, executable, readable.
pub const USER_CODE_ACCESS: u8 = 0xFA;

/// Access byte of the user data segment: present, ring 3, writable.
pub const USER_DATA_ACCESS: u8 = 0xF2;

/// Granularity byte handed to every flat segment: 4 KiB units, 32-bit mode.
pub const FLAT_GRANULARITY: u8 = 0xCF;

/// The access byte of each slot, in table order.
pub open spec fn slot_access(slot: int) -> u8 {
    if slot == 1 {
        0x9A
    } else if slot == 2 {
        0x92
    } else if slot == 3 {
        0xFA
    } else if slot == 4 {
        0xF2
    } else {
        0
    }
}

/// The contents of the table: the null descriptor, then kernel code, kernel
/// data, user code and user data, each of the four a flat segment.
pub open spec fn fixed_entries() -> Seq<GDTDescriptor> {
    seq![
        GDTDescriptor::encode(0, 0, 0, 0),
        GDTDescriptor::encode(0, 0xFFFF_FFFF, 0x9A, 0xCF),
        GDTDescriptor::encode(0, 0xFFFF_FFFF, 0x92, 0xCF),
        GDTDescriptor::encode(0, 0xFFFF_FFFF, 0xFA, 0xCF),
        GDTDescriptor::encode(0, 0xFFFF_FFFF, 0xF2, 0xCF),
    ]
}

/// The forty bytes of the table as the processor reads them.
pub open spec fn fixed_image() -> Seq<u8> {
    seq![
        0x00u8, 0x00u8, 0x00u8, 0x00u8, 0x00u8, 0x00u8, 0x00u8, 0x00u8,
        0xFFu8, 0xFFu8, 0x00u8, 0x00u8, 0x00u8, 0x9Au8, 0xCFu8, 0x00u8,
        0xFFu8, 0xFFu8, 0x00u8, 0x00u8, 0x00u8, 0x92u8, 0xCFu8, 0x00u8,
        0xFFu8, 0xFFu8, 0x00u8, 0x00u8, 0x00u8, 0xFAu8, 0xCFu8, 0x00u8,
        0xFFu8, 0xFFu8, 0x00u8, 0x00u8, 0x00u8, 0xF2u8, 0xCFu8, 0x00u8,
    ]
}

/// The memory image of a run of descriptors: their images one after another.
pub open spec fn image_of(entries: Seq<GDTDescriptor>) -> Seq<u8> {
    Seq::new(8 * entries.len(), |k: int| entries[k / 8].bytes()[k % 8])
}

/// The descriptor table. Its entries are fixed at construction.
#[derive(Clone, Copy, Debug)]
pub struct GDTable {
    entries: [GDTDescriptor; GDT_SIZE],
}

impl View for GDTable {
    type V = Seq<GDTDescriptor>;

    closed spec fn view(&self) -> Seq<GDTDescriptor> {
        self.entries@
    }
}

impl GDTable {
    /// What the processor requires of any table: five slots, the first of
    /// them the all-zero descriptor.
    pub open spec fn wf(&self) -> bool {
        &&& self@.len() == 5
        &&& self@[0].bytes() == seq![0u8, 0u8, 0u8, 0u8, 0u8, 0u8, 0u8, 0u8]
    }

    /// The memory image of the table: forty bytes, slot after slot.
    pub open spec fn bytes(&self) -> Seq<u8> {
        image_of(self@)
    }

    /// Builds the table: null, kernel code, kernel data, user code, user data.
    pub fn new() -> (t: GDTable)
        ensures
            t@ == fixed_entries(),
            t.bytes() == fixed_image(),
            t.wf(),
    {
        let t = GDTable {
            entries: [
                GDTDescriptor::null(),
                GDTDescriptor::flat(KERNEL_CODE_ACCESS, FLAT_GRANULARITY),
                GDTDescriptor::flat(KERNEL_DATA_ACCESS, FLAT_GRANULARITY),
                GDTDescriptor::flat(USER_CODE_ACCESS, FLAT_GRANULARITY),
                GDTDescriptor::flat(USER_DATA_ACCESS, FLAT_GRANULARITY),
            ],
        };
        proof {
            assert(t@ =~= fixed_entries());
            lemma_fixed_image();
        }
        t
    }

    /// Number of slots.
    pub fn len(&self) -> (n: usize)
        ensures
            n == self@.len(),
            n == 5,
    {
        self.entries.len()
    }

    /// Number of bytes the table occupies.
    pub fn byte_len(&self) -> (n: usize)
        ensures
            n == self.bytes().len(),
            n == 40,
    {
        DESCRIPTOR_SIZE * self.entries.len()
    }

    /// The descriptor in a slot, or `None` past the end of the table.
    pub fn entry(&self, slot: usize) -> (d: Option<GDTDescriptor>)
        ensures
            slot < 5 ==> d == Some(self@[slot as int]),
            slot >= 5 ==> d is None,
    {
        if slot < self.entries.len() {
            Some(self.entries[slot])
        } else {
            None
        }
    }

    /// Writes the table out byte by byte, slot after slot.
    pub fn to_bytes(&self) -> (out: [u8; GDT_BYTES])
        ensures
            out@ == self.bytes(),
    {
        let mut out: [u8; GDT_BYTES] = [0u8;GDT_BYTES];
        let mut slot: usize = 0;
        while slot < GDT_SIZE
            invariant
                slot <= GDT_SIZE,
                forall|k: int| 0 <= k < 8 * slot ==> out@[k] == self@[k / 8].bytes()[k % 8],
            decreases GDT_SIZE - slot,
        {
            let image: [u8; DESCRIPTOR_SIZE] = self.entries[slot].to_bytes();
            let mut j: usize = 0;
            while j < DESCRIPTOR_SIZE
                invariant
                    slot < GDT_SIZE,
                    j <= DESCRIPTOR_SIZE,
                    image@ == self@[slot as int].bytes(),
                    forall|k: int|
                        0 <= k < 8 * slot + j ==> out@[k] == self@[k / 8].bytes()[k % 8],
                decreases DESCRIPTOR_SIZE - j,
            {
                out[DESCRIPTOR_SIZE * slot + j] = image[j];
                j += 1;
            }
            slot += 1;
        }
        assert(out@ =~= self.bytes());
        out
    }
}

/// Every slot of the table, field by field: slot 0 is all zero; slots 1 to 4
/// have base 0, every limit bit set, the slot's access byte and flags `0xC0`.
pub proof fn lemma_fixed_entries()
    ensures
        fixed_entries().len() == 5,
        fixed_entries()[0] == (GDTDescriptor {
            limit_low: 0,
            base_low: 0,
            base_middle: 0,
            access: 0,
            granularity: 0,
            base_high: 0,
        }),
        fixed_entries()[0].bytes() == seq![0u8, 0u8, 0u8, 0u8, 0u8, 0u8, 0u8, 0u8],
        forall|slot: int|
            1 <= slot < 5 ==> #[trigger] fixed_entries()[slot] == (GDTDescriptor {
                limit_low: 0xFFFF,
                base_low: 0,
                base_middle: 0,
                access: slot_access(slot),
                granularity: 0xCF,
                base_high: 0,
            }),
        forall|slot: int|
            1 <= slot < 5 ==> #[trigger] fixed_entries()[slot].bytes() == seq![
                0xFFu8,
                0xFFu8,
                0u8,
                0u8,
                0u8,
                slot_access(slot),
                0xCFu8,
                0u8,
            ],
        forall|slot: int| 0 <= slot < 5 ==> #[trigger] fixed_entries()[slot].spec_base() == 0,
        forall|slot: int|
            1 <= slot < 5 ==> #[trigger] fixed_entries()[slot].spec_limit() == 0xF_FFFF,
        forall|slot: int| 1 <= slot < 5 ==> #[trigger] fixed_entries()[slot].spec_flags() == 0xC0,
        forall|slot: int|
            0 <= slot < 5 ==> #[trigger] fixed_entries()[slot].access == slot_access(slot),
{
    GDTDescriptor::lemma_null();
    GDTDescriptor::lemma_flat(0x9A, 0xCF);
    GDTDescriptor::lemma_flat(0x92, 0xCF);
    GDTDescriptor::lemma_flat(0xFA, 0xCF);
    GDTDescriptor::lemma_flat(0xF2, 0xCF);
    GDTDescriptor::lemma_encode_decode(0, 0, 0, 0);
    GDTDescriptor::lemma_encode_decode(0, 0xFFFF_FFFF, 0x9A, 0xCF);
    GDTDescriptor::lemma_encode_decode(0, 0xFFFF_FFFF, 0x92, 0xCF);
    GDTDescriptor::lemma_encode_decode(0, 0xFFFF_FFFF, 0xFA, 0xCF);
    GDTDescriptor::lemma_encode_decode(0, 0xFFFF_FFFF, 0xF2, 0xCF);
    assert((0xCFu8 & 0xF0) | 0x0F == 0xCFu8) by (bit_vector);
    assert(0xCFu8 & 0xF0 == 0xC0u8) by (bit_vector);
    assert(0xFFFF_FFFFu32 & 0xF_FFFF == 0xF_FFFFu32) by (bit_vector);
}

/// The image of the table's contents is the fixed forty bytes.
pub proof fn lemma_fixed_image()
    ensures
        image_of(fixed_entries()) == fixed_image(),
{
    lemma_fixed_entries();
    let entries = fixed_entries();
    let image = image_of(entries);
    assert(image.len() == 40);
    assert forall|k: int| 0 <= k < 40 implies image[k] == fixed_image()[k] by {
        let slot = k / 8;
        let offset = k % 8;
        assert(0 <= slot < 5 && 0 <= offset < 8 && k == 8 * slot + offset);
        assert(image[k] == entries[slot].bytes()[offset]);
        if slot == 0 {
        } else {
            assert(entries[slot].bytes() == seq![
                0xFFu8,
                0xFFu8,
                0u8,
                0u8,
                0u8,
                slot_access(slot),
                0xCFu8,
                0u8,
            ]);
        }
    }
    assert(image =~= fixed_image());
}

} // verus!
