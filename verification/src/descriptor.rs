//! Segment descriptors and their eight-byte processor format.

use vstd::prelude::*;

verus! {

/// Number of bytes one descriptor occupies in memory.
pub const DESCRIPTOR_SIZE: usize = 8;

/// Mask selecting the 20 limit bits a descriptor can represent.
pub const LIMIT_MASK: u32 = 0xF_FFFF;

/// One segment descriptor, held as the six fields the processor defines.
///
/// In memory the fields follow each other in declaration order without
/// padding, each multi-byte field little-endian; `bytes` is that image.
#[derive(Clone, Copy, Debug, PartialEq, Eq, Structural)]
pub struct GDTDescriptor {
    /// Bits 0..16 of the limit.
    pub limit_low: u16,
    /// Bits 0..16 of the base.
    pub base_low: u16,
    /// Bits 16..24 of the base.
    pub base_middle: u8,
    /// Present flag, ring, descriptor type, direction and read/write bits.
    pub access: u8,
    /// Low nibble: bits 16..20 of the limit. High nibble: the flag bits.
    pub granularity: u8,
    /// Bits 24..32 of the base.
    pub base_high: u8,
}

/// The processor's descriptor format, byte by byte, for the given segment.
pub open spec fn descriptor_layout(base: u32, limit: u32, access: u8, flags: u8) -> Seq<u8> {
    seq![
        (limit & 0xFF) as u8,
        ((limit >> 8) & 0xFF) as u8,
        (base & 0xFF) as u8,
        ((base >> 8) & 0xFF) as u8,
        ((base >> 16) & 0xFF) as u8,
        access,
        (((limit >> 16) & 0x0F) as u8) | (flags & 0xF0),
        ((base >> 24) & 0xFF) as u8,
    ]
}

impl GDTDescriptor {
    /// The descriptor for a segment: each field is the slice of `base` or
    /// `limit` it stores. Limit bits above bit 19 have no place and are lost;
    /// the low nibble of `flags` is replaced by limit bits 16..20.
    pub open spec fn encode(base: u32, limit: u32, access: u8, flags: u8) -> GDTDescriptor {
        GDTDescriptor {
            limit_low: (limit & 0xFFFF) as u16,
            base_low: (base & 0xFFFF) as u16,
            base_middle: ((base >> 16) & 0xFF) as u8,
            access,
            granularity: (((limit >> 16) & 0x0F) as u8) | (flags & 0xF0),
            base_high: ((base >> 24) & 0xFF) as u8,
        }
    }

    /// The memory image of the descriptor: eight bytes in processor order.
    pub open spec fn bytes(self) -> Seq<u8> {
        seq![
            (self.limit_low & 0xFF) as u8,
            (self.limit_low >> 8) as u8,
            (self.base_low & 0xFF) as u8,
            (self.base_low >> 8) as u8,
            self.base_middle,
            self.access,
            self.granularity,
            self.base_high,
        ]
    }

    /// The 32-bit base address the descriptor stores.
    pub open spec fn spec_base(self) -> u32 {
        (self.base_low as u32) | ((self.base_middle as u32) << 16) | ((self.base_high as u32)
            << 24)
    }

    /// The 20-bit limit the descriptor stores.
    pub open spec fn spec_limit(self) -> u32 {
        (self.limit_low as u32) | (((self.granularity & 0x0F) as u32) << 16)
    }

    /// The flag bits, in the high nibble, with the low nibble clear.
    pub open spec fn spec_flags(self) -> u8 {
        self.granularity & 0xF0
    }

    /// Encodes a segment. Total: every input has a defined descriptor.
    pub fn new(base: u32, limit: u32, access: u8, granularity: u8) -> (d: GDTDescriptor)
        ensures
            d == Self::encode(base, limit, access, granularity),
            d == Self::encode(base, limit & LIMIT_MASK, access, granularity),
            d.bytes() == descriptor_layout(base, limit, access, granularity),
            d.bytes().len() == 8,
            d.spec_base() == base,
            d.spec_limit() == limit & LIMIT_MASK,
            d.access == access,
            d.granularity == (granularity & 0xF0) | (((limit >> 16) & 0xF) as u8),
            d.spec_flags() == granularity & 0xF0,
    {
        proof {
            Self::lemma_encode_layout(base, limit, access, granularity);
            Self::lemma_encode_decode(base, limit, access, granularity);
            Self::lemma_limit_masking(base, limit, access, granularity);
        }
        GDTDescriptor {
            limit_low: (limit & 0xFFFF) as u16,
            base_low: (base & 0xFFFF) as u16,
            base_middle: ((base >> 16) & 0xFF) as u8,
            access,
            granularity: (((limit >> 16) & 0x0F) as u8) | (granularity & 0xF0),
            base_high: ((base >> 24) & 0xFF) as u8,
        }
    }

    /// A segment starting at address 0 with every limit bit set. With the
    /// granularity flag selecting 4 KiB units it spans the whole address space.
    pub fn flat(access: u8, granularity: u8) -> (d: GDTDescriptor)
        ensures
            d == Self::encode(0, 0xFFFF_FFFF, access, granularity),
            d == (GDTDescriptor {
                limit_low: 0xFFFF,
                base_low: 0,
                base_middle: 0,
                access,
                granularity: (granularity & 0xF0) | 0x0F,
                base_high: 0,
            }),
            d.bytes() == seq![
                0xFFu8,
                0xFFu8,
                0u8,
                0u8,
                0u8,
                access,
                (granularity & 0xF0) | 0x0F,
                0u8,
            ],
    {
        proof {
            Self::lemma_flat(access, granularity);
        }
        GDTDescriptor::new(0, 0xFFFF_FFFF, access, granularity)
    }

    /// The all-zero descriptor that occupies slot 0 of every table.
    pub fn null() -> (d: GDTDescriptor)
        ensures
            d == Self::encode(0, 0, 0, 0),
            d == (GDTDescriptor {
                limit_low: 0,
                base_low: 0,
                base_middle: 0,
                access: 0,
                granularity: 0,
                base_high: 0,
            }),
            d.bytes() == seq![0u8, 0u8, 0u8, 0u8, 0u8, 0u8, 0u8, 0u8],
    {
        proof {
            Self::lemma_null();
        }
        GDTDescriptor::new(0, 0, 0, 0)
    }

    /// Writes the descriptor out in processor order, field by field, so the
    /// image does not depend on how the compiler lays the struct out.
    pub fn to_bytes(&self) -> (out: [u8; DESCRIPTOR_SIZE])
        ensures
            out@ == self.bytes(),
    {
        let out: [u8; DESCRIPTOR_SIZE] = [
            (self.limit_low & 0xFF) as u8,
            (self.limit_low >> 8) as u8,
            (self.base_low & 0xFF) as u8,
            (self.base_low >> 8) as u8,
            self.base_middle,
            self.access,
            self.granularity,
            self.base_high,
        ];
        assert(out@ =~= self.bytes());
        out
    }

    /// Reads a descriptor back from its memory image.
    pub fn from_bytes(image: &[u8; DESCRIPTOR_SIZE]) -> (d: GDTDescriptor)
        ensures
            d.bytes() == image@,
    {
        let b0: u8 = image[0];
        let b1: u8 = image[1];
        let b2: u8 = image[2];
        let b3: u8 = image[3];
        let d = GDTDescriptor {
            limit_low: (b0 as u16) | ((b1 as u16) << 8),
            base_low: (b2 as u16) | ((b3 as u16) << 8),
            base_middle: image[4],
            access: image[5],
            granularity: image[6],
            base_high: image[7],
        };
        proof {
            assert((((b0 as u16) | ((b1 as u16) << 8)) & 0xFF) as u8 == b0) by (bit_vector);
            assert((((b0 as u16) | ((b1 as u16) << 8)) >> 8) as u8 == b1) by (bit_vector);
            assert((((b2 as u16) | ((b3 as u16) << 8)) & 0xFF) as u8 == b2) by (bit_vector);
            assert((((b2 as u16) | ((b3 as u16) << 8)) >> 8) as u8 == b3) by (bit_vector);
            assert(d.bytes() =~= image@);
        }
        d
    }

    /// The base address stored in the descriptor.
    pub fn base(&self) -> (b: u32)
        ensures
            b == self.spec_base(),
    {
        (self.base_low as u32) | ((self.base_middle as u32) << 16) | ((self.base_high as u32)
            << 24)
    }

    /// The 20-bit limit stored in the descriptor.
    pub fn limit(&self) -> (l: u32)
        ensures
            l == self.spec_limit(),
            l <= LIMIT_MASK,
    {
        let low: u16 = self.limit_low;
        let gran: u8 = self.granularity;
        assert((low as u32) | (((gran & 0x0F) as u32) << 16) <= 0xF_FFFF) by (bit_vector);
        (low as u32) | (((gran & 0x0F) as u32) << 16)
    }

    /// The flag bits of the descriptor: its granularity byte with the limit
    /// nibble cleared.
    pub fn flags(&self) -> (f: u8)
        ensures
            f == self.spec_flags(),
    {
        self.granularity & 0xF0
    }

    /// A descriptor is determined by its memory image.
    pub proof fn lemma_bytes_injective(a: GDTDescriptor, b: GDTDescriptor)
        requires
            a.bytes() == b.bytes(),
        ensures
            a == b,
    {
        let (x, y) = (a.limit_low, b.limit_low);
        let (p, q) = (a.base_low, b.base_low);
        assert(a.bytes()[0] == b.bytes()[0] && a.bytes()[1] == b.bytes()[1]);
        assert(a.bytes()[2] == b.bytes()[2] && a.bytes()[3] == b.bytes()[3]);
        assert(a.bytes()[4] == b.bytes()[4] && a.bytes()[5] == b.bytes()[5]);
        assert(a.bytes()[6] == b.bytes()[6] && a.bytes()[7] == b.bytes()[7]);
        assert(x == y) by (bit_vector)
            requires
                (x & 0xFF) as u8 == (y & 0xFF) as u8,
                (x >> 8) as u8 == (y >> 8) as u8,
        ;
        assert(p == q) by (bit_vector)
            requires
                (p & 0xFF) as u8 == (q & 0xFF) as u8,
                (p >> 8) as u8 == (q >> 8) as u8,
        ;
    }

    /// Limit bits above bit 19 never reach the descriptor: a limit and its
    /// low 20 bits encode identically.
    pub proof fn lemma_limit_masking(base: u32, limit: u32, access: u8, flags: u8)
        ensures
            Self::encode(base, limit, access, flags) == Self::encode(
                base,
                limit & LIMIT_MASK,
                access,
                flags,
            ),
    {
        assert((limit & 0xF_FFFF) & 0xFFFF == limit & 0xFFFF) by (bit_vector);
        assert(((limit & 0xF_FFFF) >> 16) & 0x0F == (limit >> 16) & 0x0F) by (bit_vector);
    }

    /// Two limits that agree on their low 20 bits encode identically.
    pub proof fn lemma_limit_congruence(
        base: u32,
        limit_a: u32,
        limit_b: u32,
        access: u8,
        flags: u8,
    )
        requires
            limit_a & LIMIT_MASK == limit_b & LIMIT_MASK,
        ensures
            Self::encode(base, limit_a, access, flags) == Self::encode(
                base,
                limit_b,
                access,
                flags,
            ),
    {
        Self::lemma_limit_masking(base, limit_a, access, flags);
        Self::lemma_limit_masking(base, limit_b, access, flags);
    }

    /// The fields of a flat descriptor.
    pub proof fn lemma_flat(access: u8, flags: u8)
        ensures
            Self::encode(0, 0xFFFF_FFFF, access, flags) == (GDTDescriptor {
                limit_low: 0xFFFF,
                base_low: 0,
                base_middle: 0,
                access,
                granularity: (flags & 0xF0) | 0x0F,
                base_high: 0,
            }),
            Self::encode(0, 0xFFFF_FFFF, access, flags).bytes() == seq![
                0xFFu8,
                0xFFu8,
                0u8,
                0u8,
                0u8,
                access,
                (flags & 0xF0) | 0x0F,
                0u8,
            ],
    {
        let d = Self::encode(0, 0xFFFF_FFFF, access, flags);
        assert((0xFFFF_FFFFu32 & 0xFFFF) as u16 == 0xFFFFu16) by (bit_vector);
        assert((0u32 & 0xFFFF) as u16 == 0u16) by (bit_vector);
        assert(((0u32 >> 16) & 0xFF) as u8 == 0u8) by (bit_vector);
        assert(((0u32 >> 24) & 0xFF) as u8 == 0u8) by (bit_vector);
        assert((((0xFFFF_FFFFu32 >> 16) & 0x0F) as u8) | (flags & 0xF0) == (flags & 0xF0) | 0x0F)
            by (bit_vector);
        assert((0xFFFFu16 & 0xFF) as u8 == 0xFFu8) by (bit_vector);
        assert((0xFFFFu16 >> 8) as u8 == 0xFFu8) by (bit_vector);
        assert((0u16 & 0xFF) as u8 == 0u8) by (bit_vector);
        assert((0u16 >> 8) as u8 == 0u8) by (bit_vector);
        assert(d.bytes() =~= seq![
            0xFFu8,
            0xFFu8,
            0u8,
            0u8,
            0u8,
            access,
            (flags & 0xF0) | 0x0F,
            0u8,
        ]);
    }

    /// The fields of the null descriptor.
    pub proof fn lemma_null()
        ensures
            Self::encode(0, 0, 0, 0) == (GDTDescriptor {
                limit_low: 0,
                base_low: 0,
                base_middle: 0,
                access: 0,
                granularity: 0,
                base_high: 0,
            }),
            Self::encode(0, 0, 0, 0).bytes() == seq![0u8, 0u8, 0u8, 0u8, 0u8, 0u8, 0u8, 0u8],
    {
        let d = Self::encode(0, 0, 0, 0);
        assert((0u32 & 0xFFFF) as u16 == 0u16) by (bit_vector);
        assert(((0u32 >> 16) & 0xFF) as u8 == 0u8) by (bit_vector);
        assert(((0u32 >> 24) & 0xFF) as u8 == 0u8) by (bit_vector);
        assert((((0u32 >> 16) & 0x0F) as u8) | (0u8 & 0xF0) == 0u8) by (bit_vector);
        assert((0u16 & 0xFF) as u8 == 0u8) by (bit_vector);
        assert((0u16 >> 8) as u8 == 0u8) by (bit_vector);
        assert(d.bytes() =~= seq![0u8, 0u8, 0u8, 0u8, 0u8, 0u8, 0u8, 0u8]);
    }

    /// The memory image of an encoded segment is the processor's layout.
    pub proof fn lemma_encode_layout(base: u32, limit: u32, access: u8, flags: u8)
        ensures
            Self::encode(base, limit, access, flags).bytes() == descriptor_layout(
                base,
                limit,
                access,
                flags,
            ),
    {
        let d = Self::encode(base, limit, access, flags);
        assert(((limit & 0xFFFF) as u16 & 0xFF) as u8 == (limit & 0xFF) as u8) by (bit_vector);
        assert(((limit & 0xFFFF) as u16 >> 8) as u8 == ((limit >> 8) & 0xFF) as u8)
            by (bit_vector);
        assert(((base & 0xFFFF) as u16 & 0xFF) as u8 == (base & 0xFF) as u8) by (bit_vector);
        assert(((base & 0xFFFF) as u16 >> 8) as u8 == ((base >> 8) & 0xFF) as u8)
            by (bit_vector);
        assert(d.bytes() =~= descriptor_layout(base, limit, access, flags));
    }

    /// Decoding an encoded segment gives back the base, the low 20 bits of
    /// the limit, the access byte and the high nibble of the flags.
    pub proof fn lemma_encode_decode(base: u32, limit: u32, access: u8, flags: u8)
        ensures
            Self::encode(base, limit, access, flags).spec_base() == base,
            Self::encode(base, limit, access, flags).spec_limit() == limit & LIMIT_MASK,
            Self::encode(base, limit, access, flags).access == access,
            Self::encode(base, limit, access, flags).granularity == (flags & 0xF0) | (((limit
                >> 16) & 0xF) as u8),
            Self::encode(base, limit, access, flags).spec_flags() == flags & 0xF0,
    {
        assert(((base & 0xFFFF) as u16 as u32) | ((((base >> 16) & 0xFF) as u8 as u32) << 16) | ((((
        base >> 24) & 0xFF) as u8 as u32) << 24) == base) by (bit_vector);
        assert(((limit & 0xFFFF) as u16 as u32) | ((((((limit >> 16) & 0x0F) as u8) | (flags & 0xF0))
            & 0x0F) as u32) << 16 == limit & 0xF_FFFF) by (bit_vector);
        assert((((limit >> 16) & 0x0F) as u8) | (flags & 0xF0) == (flags & 0xF0) | (((limit >> 16)
            & 0xF) as u8)) by (bit_vector);
        assert(((((limit >> 16) & 0x0F) as u8) | (flags & 0xF0)) & 0xF0 == flags & 0xF0)
            by (bit_vector);
    }
}

} // verus!
