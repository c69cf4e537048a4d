//! The uniform block shared with the shader: sixteen bytes, regenerated
//! every frame.
//!
//! The shader reads four 32-bit floats. A float is carried here as its
//! IEEE 754 bit pattern in a `u32`, which fixes the bytes that go on the wire
//! without any floating-point arithmetic.

use vstd::prelude::*;

verus! {

/// Size of the uniform block in bytes.
pub const UNIFORM_SIZE: usize = 16;

/// The four bytes of a 32-bit word, least significant first.
pub open spec fn word_bytes(word: u32) -> Seq<u8> {
    seq![
        (word % 256) as u8,
        (word / 256 % 256) as u8,
        (word / 65_536 % 256) as u8,
        (word / 16_777_216) as u8,
    ]
}

/// The word that four bytes spell, least significant first.
pub open spec fn bytes_word(bytes: Seq<u8>) -> int {
    bytes[0] + 256 * bytes[1] + 65_536 * bytes[2] + 16_777_216 * bytes[3]
}

/// `word_bytes` is the little-endian layout: read back least significant
/// byte first, the four bytes give the word again.
pub proof fn lemma_word_bytes_little_endian(word: u32)
    ensures
        word_bytes(word).len() == 4,
        bytes_word(word_bytes(word)) == word,
{
}

/// The values of one frame as the shader receives them: each field is the
/// bit pattern of a 32-bit float.
#[derive(Clone, Copy, Debug, PartialEq, Eq, Structural)]
pub struct FrameUniform {
    /// Vertical offset of the shape.
    pub vertical_offset: u32,
    /// Orientation of the shape, in radians.
    pub rotation: u32,
    /// Phase of the explosion animation.
    pub explosion_timer: u32,
}

impl FrameUniform {
    /// The block as laid out for the shader: the three values in this order,
    /// each little-endian, then four zero bytes of padding (the float 0.0).
    pub open spec fn wire(self) -> Seq<u8> {
        word_bytes(self.vertical_offset) + word_bytes(self.rotation) + word_bytes(
            self.explosion_timer,
        ) + seq![0u8, 0u8, 0u8, 0u8]
    }

    /// Packs the block for upload.
    pub fn to_bytes(&self) -> (bytes: [u8; 16])
        ensures
            bytes@ == self.wire(),
    {
        let a: u32 = self.vertical_offset;
        let b: u32 = self.rotation;
        let c: u32 = self.explosion_timer;
        let bytes: [u8; 16] = [
            (a % 256) as u8,
            (a / 256 % 256) as u8,
            (a / 65_536 % 256) as u8,
            (a / 16_777_216) as u8,
            (b % 256) as u8,
            (b / 256 % 256) as u8,
            (b / 65_536 % 256) as u8,
            (b / 16_777_216) as u8,
            (c % 256) as u8,
            (c / 256 % 256) as u8,
            (c / 65_536 % 256) as u8,
            (c / 16_777_216) as u8,
            0,
            0,
            0,
            0,
        ];
        assert(bytes@ =~= self.wire());
        bytes
    }
}

/// The block is sixteen bytes long, the padding is zero, and each value can
/// be read back from its four bytes.
pub proof fn lemma_wire_layout(u: FrameUniform)
    ensures
        u.wire().len() == UNIFORM_SIZE,
        bytes_word(u.wire().subrange(0, 4)) == u.vertical_offset,
        bytes_word(u.wire().subrange(4, 8)) == u.rotation,
        bytes_word(u.wire().subrange(8, 12)) == u.explosion_timer,
        u.wire().subrange(12, 16) == seq![0u8, 0u8, 0u8, 0u8],
{
    lemma_word_bytes_little_endian(u.vertical_offset);
    lemma_word_bytes_little_endian(u.rotation);
    lemma_word_bytes_little_endian(u.explosion_timer);
    assert(u.wire().subrange(0, 4) =~= word_bytes(u.vertical_offset));
    assert(u.wire().subrange(4, 8) =~= word_bytes(u.rotation));
    assert(u.wire().subrange(8, 12) =~= word_bytes(u.explosion_timer));
    assert(u.wire().subrange(12, 16) =~= seq![0u8, 0u8, 0u8, 0u8]);
}

} // verus!
