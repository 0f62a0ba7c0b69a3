//! The six-byte table pointer handed to the processor's load operation.

use crate::table::GDTable;
use vstd::prelude::*;

verus! {

/// Number of bytes the table pointer occupies: a 16-bit limit immediately
/// followed by a 32-bit base.
pub const POINTER_BYTES: usize = 6;

/// The table pointer: where the table lies and how long it is.
#[derive(Clone, Copy, Debug, PartialEq, Eq, Structural)]
pub struct GDT {
    /// Size of the table in bytes, minus one.
    pub limit: u16,
    /// Linear address of the table's first byte.
    pub base: u32,
}

impl GDT {
    /// The memory image of the pointer: the limit, then the base, both
    /// little-endian, with nothing between them.
    pub open spec fn bytes(self) -> Seq<u8> {
        seq![
            (self.limit & 0xFF) as u8,
            (self.limit >> 8) as u8,
            (self.base & 0xFF) as u8,
            ((self.base >> 8) & 0xFF) as u8,
            ((self.base >> 16) & 0xFF) as u8,
            (self.base >> 24) as u8,
        ]
    }

    /// The pointer to `table` once it lies at address `base`.
    pub fn new(table: &GDTable, base: u32) -> (g: GDT)
        ensures
            g.limit == table.bytes().len() - 1,
            g.limit == 39,
            g.base == base,
    {
        let size: usize = table.byte_len();
        GDT { limit: (size - 1) as u16, base }
    }

    /// Writes the pointer out byte by byte in the order the load operation
    /// reads it.
    pub fn to_bytes(&self) -> (out: [u8; POINTER_BYTES])
        ensures
            out@ == self.bytes(),
    {
        let out: [u8; POINTER_BYTES] = [
            (self.limit & 0xFF) as u8,
            (self.limit >> 8) as u8,
            (self.base & 0xFF) as u8,
            ((self.base >> 8) & 0xFF) as u8,
            ((self.base >> 16) & 0xFF) as u8,
            (self.base >> 24) as u8,
        ];
        assert(out@ =~= self.bytes());
        out
    }

    /// A pointer is determined by its memory image.
    pub proof fn lemma_bytes_injective(a: GDT, b: GDT)
        requires
            a.bytes() == b.bytes(),
        ensures
            a == b,
    {
        let (x, y) = (a.limit, b.limit);
        let (p, q) = (a.base, b.base);
        assert(a.bytes()[0] == b.bytes()[0] && a.bytes()[1] == b.bytes()[1]);
        assert(a.bytes()[2] == b.bytes()[2] && a.bytes()[3] == b.bytes()[3]);
        assert(a.bytes()[4] == b.bytes()[4] && a.bytes()[5] == b.bytes()[5]);
        assert(x == y) by (bit_vector)
            requires
                (x & 0xFF) as u8 == (y & 0xFF) as u8,
                (x >> 8) as u8 == (y >> 8) as u8,
        ;
        assert(p == q) by (bit_vector)
            requires
                (p & 0xFF) as u8 == (q & 0xFF) as u8,
                ((p >> 8) & 0xFF) as u8 == ((q >> 8) & 0xFF) as u8,
                ((p >> 16) & 0xFF) as u8 == ((q >> 16) & 0xFF) as u8,
                (p >> 24) as u8 == (q >> 24) as u8,
        ;
    }

    /// The image of the pointer to the five-slot table: limit 39, then the
    /// four bytes of the base.
    pub proof fn lemma_table_pointer_bytes(base: u32)
        ensures
            (GDT { limit: 39, base }).bytes() == seq![
                39u8,
                0u8,
                (base & 0xFF) as u8,
                ((base >> 8) & 0xFF) as u8,
                ((base >> 16) & 0xFF) as u8,
                (base >> 24) as u8,
            ],
    {
        assert((39u16 & 0xFF) as u8 == 39u8) by (bit_vector);
        assert((39u16 >> 8) as u8 == 0u8) by (bit_vector);
        assert((GDT { limit: 39, base }).bytes() =~= seq![
            39u8,
            0u8,
            (base & 0xFF) as u8,
            ((base >> 8) & 0xFF) as u8,
            ((base >> 16) & 0xFF) as u8,
            (base >> 24) as u8,
        ]);
    }
}

} // verus!
