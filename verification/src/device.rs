//! What is worked out for the device before anything is handed to it: the
//! surface format to use, the number of workgroups of a dispatch, and the
//! bytes of a buffer of cells.

use vstd::prelude::*;

verus! {

/// The side of a workgroup, in threads: a workgroup computes a tile of
/// 8 by 8 cells.
pub const WORKGROUP_SIZE: u32 = 8;

/// The number of workgroups that cover `extent` cells along one axis.
pub open spec fn groups_for(extent: int) -> int {
    (extent + 7) / 8
}

/// `bytes` holds the words of `words` one after the other, four bytes each,
/// the lowest byte of a word first.
pub open spec fn is_little_endian_image(words: Seq<u32>, bytes: Seq<u8>) -> bool {
    &&& bytes.len() == 4 * words.len()
    &&& forall|i: int|
        0 <= i < words.len() ==> {
            &&& bytes[4 * i] == #[trigger] words[i] % 256
            &&& bytes[4 * i + 1] == words[i] / 256 % 256
            &&& bytes[4 * i + 2] == words[i] / 65536 % 256
            &&& bytes[4 * i + 3] == words[i] / 16777216
        }
}

/// `bytes` holds the words of `words` one after the other, four bytes each,
/// the highest byte of a word first.
pub open spec fn is_big_endian_image(words: Seq<u32>, bytes: Seq<u8>) -> bool {
    &&& bytes.len() == 4 * words.len()
    &&& forall|i: int|
        0 <= i < words.len() ==> {
            &&& bytes[4 * i + 3] == #[trigger] words[i] % 256
            &&& bytes[4 * i + 2] == words[i] / 256 % 256
            &&& bytes[4 * i + 1] == words[i] / 65536 % 256
            &&& bytes[4 * i] == words[i] / 16777216
        }
}

/// `bytes` is what the machine keeps in memory for `words`, in one of the
/// two byte orders a machine can have.
pub open spec fn is_memory_image(words: Seq<u32>, bytes: Seq<u8>) -> bool {
    is_little_endian_image(words, bytes) || is_big_endian_image(words, bytes)
}

/// The first of the offered surface formats that is sRGB, or the first of
/// all where none is. `srgb` says of each offered format, in the order in
/// which the surface offers them, whether it is sRGB.
pub fn choose_format(srgb: &Vec<bool>) -> (chosen: usize)
    requires
        srgb.len() > 0,
    ensures
        chosen < srgb.len(),
        forall|i: int| 0 <= i < chosen ==> !srgb@[i],
        srgb@[chosen as int] || (chosen == 0 && forall|i: int| 0 <= i < srgb.len() ==> !srgb@[i]),
{
    let mut i: usize = 0;
    while i < srgb.len()
        invariant
            i <= srgb.len(),
            forall|j: int| 0 <= j < i ==> !srgb@[j],
        decreases srgb.len() - i,
    {
        if srgb[i] {
            return i;
        }
        i += 1;
    }
    0
}

/// The number of workgroups to dispatch along an axis of `extent` cells:
/// the least number whose tiles cover the axis.
pub fn workgroup_count(extent: u32) -> (groups: u32)
    ensures
        groups == groups_for(extent as int),
        WORKGROUP_SIZE * groups >= extent,
        WORKGROUP_SIZE * groups < extent + WORKGROUP_SIZE,
{
    let whole: u32 = extent / WORKGROUP_SIZE;
    if extent % WORKGROUP_SIZE == 0 {
        whole
    } else {
        whole + 1
    }
}

/// The bytes of a buffer of cells, through `bytemuck::cast_slice`, which
/// reads the memory of the `u32` values as `u8` values: four bytes for each
/// cell, in the order of the cells and in the byte order of the machine.
/// From `u32` to `u8` the cast cannot fail, since every address is aligned
/// for a byte and every size is a whole number of bytes.
#[verifier::external_body]
pub(crate) fn cast_cells(cells: &Vec<u32>) -> (bytes: Vec<u8>)
    ensures
        is_memory_image(cells@, bytes@),
{
    bytemuck::cast_slice::<u32, u8>(cells.as_slice()).to_vec()
}

} // verus!
