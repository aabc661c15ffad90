//! The integer side of the ambient noise: the permutation table that
//! hashes the corners of the lattice, and the gradient that a hash selects.
//! The arithmetic on real coordinates is done by the caller, which asks
//! here for each table entry and each gradient.

use vstd::prelude::*;

verus! {

/// The permutation table: the numbers 0 to 255 in a fixed, scrambled order.
pub const PERMUTATION: [u8; 256] = [
    151, 160, 137, 91, 90, 15, 131, 13, 201, 95, 96, 53, 194, 233, 7, 225,
    140, 36, 103, 30, 69, 142, 8, 99, 37, 240, 21, 10, 23, 190, 6, 148,
    247, 120, 234, 75, 0, 26, 197, 62, 94, 252, 219, 203, 117, 35, 11, 32,
    57, 177, 33, 88, 237, 149, 56, 87, 174, 20, 125, 136, 171, 168, 68, 175,
    74, 165, 71, 134, 139, 48, 27, 166, 77, 146, 158, 231, 83, 111, 229, 122,
    60, 211, 133, 230, 220, 105, 92, 41, 55, 46, 245, 40, 244, 102, 143, 54,
    65, 25, 63, 161, 1, 216, 80, 73, 209, 76, 132, 187, 208, 89, 18, 169,
    200, 196, 135, 130, 116, 188, 159, 86, 164, 100, 109, 198, 173, 186, 3, 64,
    52, 217, 226, 250, 124, 123, 5, 202, 38, 147, 118, 126, 255, 82, 85, 212,
    207, 206, 59, 227, 47, 16, 58, 17, 182, 189, 28, 42, 223, 183, 170, 213,
    119, 248, 152, 2, 44, 154, 163, 70, 221, 153, 101, 155, 167, 43, 172, 9,
    129, 22, 39, 253, 19, 98, 108, 110, 79, 113, 224, 232, 178, 185, 112, 104,
    218, 246, 97, 228, 251, 34, 242, 193, 238, 210, 144, 12, 191, 179, 162, 241,
    81, 51, 145, 235, 249, 14, 239, 107, 49, 192, 214, 31, 181, 199, 106, 157,
    184, 84, 204, 176, 115, 121, 50, 45, 127, 4, 150, 254, 138, 236, 205, 93,
    222, 114, 67, 29, 24, 72, 243, 141, 128, 195, 78, 66, 215, 61, 156, 180,
];

/// The table entry for an index of any size: the index is taken modulo the
/// length of the table.
pub open spec fn spec_perm(index: int) -> u8 {
    PERMUTATION@[index % 256]
}

/// Looks an index up in the permutation table, wrapping at its length.
pub fn perm(index: usize) -> (value: u8)
    ensures
        value == spec_perm(index as int),
{
    let wrapped = index & 255;
    assert(wrapped == index % 256) by (bit_vector)
        requires
            wrapped == index & 255,
    ;
    PERMUTATION[wrapped]
}

/// The gradient that a hash selects, as the pair of its parts along x and
/// y. The low three bits of the hash choose among eight cases: bit 2 says
/// which of the two axes the first sign belongs to, bit 0 gives the first
/// sign and bit 1 the second.
pub open spec fn spec_gradient(hash: u8) -> (int, int) {
    let h = hash % 8;
    let first: int = if h % 2 == 0 {
        1
    } else {
        -1
    };
    let second: int = if (h / 2) % 2 == 0 {
        1
    } else {
        -1
    };
    if h < 4 {
        (first, second)
    } else {
        (second, first)
    }
}

/// The gradient that a hash selects. Its dot product with the offset
/// `(x, y)` from a corner is that corner's share of the noise.
pub fn gradient(hash: u8) -> (parts: (i8, i8))
    ensures
        parts.0 == spec_gradient(hash).0,
        parts.1 == spec_gradient(hash).1,
{
    let h = hash & 7;
    assert(h == hash % 8) by (bit_vector)
        requires
            h == hash & 7,
    ;
    let first_bit = h & 1;
    let second_bit = h & 2;
    assert((first_bit == 0) == (h % 2 == 0)) by (bit_vector)
        requires
            first_bit == h & 1,
    ;
    assert((second_bit == 0) == ((h / 2) % 2 == 0)) by (bit_vector)
        requires
            second_bit == h & 2,
    ;
    let first: i8 = if first_bit == 0 {
        1
    } else {
        -1
    };
    let second: i8 = if second_bit == 0 {
        1
    } else {
        -1
    };
    if h < 4 {
        (first, second)
    } else {
        (second, first)
    }
}

/// Each part of a gradient is 1 or -1, and the gradient depends on the low
/// three bits of the hash only.
pub proof fn lemma_gradient_is_diagonal(hash: u8)
    ensures
        spec_gradient(hash).0 == 1 || spec_gradient(hash).0 == -1,
        spec_gradient(hash).1 == 1 || spec_gradient(hash).1 == -1,
        spec_gradient(hash) == spec_gradient((hash % 8) as u8),
{
}

/// Every pair of signs is the gradient of some hash: the four diagonals are
/// all there.
pub proof fn lemma_every_diagonal_is_selected(x: int, y: int)
    requires
        x == 1 || x == -1,
        y == 1 || y == -1,
    ensures
        exists|hash: u8| hash < 4 && #[trigger] spec_gradient(hash) == (x, y),
{
    let hash: u8 = if x == 1 {
        if y == 1 {
            0
        } else {
            2
        }
    } else {
        if y == 1 {
            1
        } else {
            3
        }
    };
    assert(spec_gradient(hash) == (x, y));
}

} // verus!
