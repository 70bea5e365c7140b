use vstd::prelude::*;

verus! {

/// 24 bits address.
///
/// Any value in the most significant byte of the `u32` is ignored.
#[derive(Debug, Clone, Copy, PartialEq, Eq, Structural, PartialOrd, Ord)]
pub struct Address24Bits(pub u32);

/// Byte `i` (0 = least significant) of `v`.
pub open spec fn byte_of(v: u32, i: nat) -> u8 {
    if i == 0 {
        (v % 256) as u8
    } else if i == 1 {
        (v / 256 % 256) as u8
    } else if i == 2 {
        (v / 65536 % 256) as u8
    } else {
        (v / 16777216) as u8
    }
}

impl Address24Bits {
    /// The address that is meant: the low 24 bits of the stored value.
    pub open spec fn value(self) -> nat {
        self.0 as nat % 0x100_0000
    }

    /// The wire form: the three low bytes, least significant first.
    pub open spec fn le_bytes(self) -> Seq<u8> {
        seq![byte_of(self.0, 0), byte_of(self.0, 1), byte_of(self.0, 2)]
    }

    /// Encodes the address as 3 bytes, least significant first.
    pub fn to_le_bytes(self) -> (r: [u8; 3])
        ensures
            r@ == self.le_bytes(),
            r[0] + 256 * r[1] + 65536 * r[2] == self.value(),
    {
        let v: u32 = self.0;
        let lsb: u8 = (v & 0xff) as u8;
        let csb: u8 = ((v >> 8u32) & 0xff) as u8;
        let msb: u8 = ((v >> 16u32) & 0xff) as u8;
        proof {
            lemma_le_bytes(v);
        }
        let r = [lsb, csb, msb];
        assert(r@ =~= self.le_bytes());
        r
    }
}

proof fn lemma_le_bytes(v: u32)
    ensures
        (v & 0xff) as u8 == byte_of(v, 0),
        ((v >> 8u32) & 0xff) as u8 == byte_of(v, 1),
        ((v >> 16u32) & 0xff) as u8 == byte_of(v, 2),
        byte_of(v, 0) + 256 * byte_of(v, 1) + 65536 * byte_of(v, 2) == v as nat % 0x100_0000,
{
    assert(v & 0xff == v % 256) by (bit_vector);
    assert((v >> 8u32) & 0xff == (v / 256) % 256) by (bit_vector);
    assert((v >> 16u32) & 0xff == (v / 65536) % 256) by (bit_vector);
    assert(v % 256 + 256 * ((v / 256) % 256) + 65536 * ((v / 65536) % 256) == v % 0x100_0000)
        by (bit_vector);
}

/// The wire form of a 24-bit address depends on its low 24 bits alone: two
/// stored values that agree there encode alike, and setting the high byte
/// changes nothing.
pub proof fn lemma_high_byte_ignored(v: u32, w: u32)
    requires
        v & 0xff_ffff == w & 0xff_ffff,
    ensures
        Address24Bits(v).le_bytes() == Address24Bits(w).le_bytes(),
        Address24Bits(v).le_bytes() == Address24Bits(v | 0xff00_0000).le_bytes(),
{
    let h: u32 = v | 0xff00_0000;
    assert(v % 256 == w % 256 && v / 256 % 256 == w / 256 % 256 && v / 65536 % 256 == w / 65536
        % 256) by (bit_vector)
        requires
            v & 0xff_ffff == w & 0xff_ffff,
    ;
    assert(v % 256 == h % 256 && v / 256 % 256 == h / 256 % 256 && v / 65536 % 256 == h / 65536
        % 256) by (bit_vector)
        requires
            h == v | 0xff00_0000,
    ;
    assert(Address24Bits(v).le_bytes() =~= Address24Bits(w).le_bytes());
    assert(Address24Bits(v).le_bytes() =~= Address24Bits(h).le_bytes());
}

/// 32 bits address.
#[derive(Debug, Clone, Copy, PartialEq, Eq, Structural, PartialOrd, Ord)]
pub struct Address32Bits(pub u32);

impl core::ops::Deref for Address32Bits {
    type Target = u32;

    fn deref(&self) -> (r: &u32)
        ensures
            *r == self.0,
    {
        &self.0
    }
}

/// An address of either width, as received with an opcode byte.
#[derive(Debug, Clone, Copy, PartialEq, Eq, Structural)]
pub enum Address {
    Bits24(Address24Bits),
    Bits32(Address32Bits),
}

} // verus!
