//! Geometry as the bytes a GPU buffer is filled with.
//!
//! A buffer holds its values as they lie in memory, so the bytes depend on
//! the byte order of the machine. The contracts here say what holds on every
//! machine: the bytes are the values in little-endian order, or they are the
//! values in big-endian order.

use vstd::prelude::*;
use crate::vertex::{pack_vertices, packed_words, Vertex};

verus! {

/// The four bytes of a word, least significant first.
pub open spec fn word_le(w: u32) -> Seq<u8> {
    seq![
        (w % 0x100) as u8,
        ((w / 0x100) % 0x100) as u8,
        ((w / 0x1_0000) % 0x100) as u8,
        ((w / 0x100_0000) % 0x100) as u8,
    ]
}

/// The four bytes of a word, most significant first.
pub open spec fn word_be(w: u32) -> Seq<u8> {
    word_le(w).reverse()
}

/// The two bytes of a half word, least significant first.
pub open spec fn half_le(h: u16) -> Seq<u8> {
    seq![(h % 0x100) as u8, ((h / 0x100) % 0x100) as u8]
}

/// The two bytes of a half word, most significant first.
pub open spec fn half_be(h: u16) -> Seq<u8> {
    half_le(h).reverse()
}

/// A list of words as bytes, each word least significant byte first.
pub open spec fn words_le(words: Seq<u32>) -> Seq<u8> {
    Seq::new(4 * words.len(), |i: int| word_le(words[i / 4])[i % 4])
}

/// A list of words as bytes, each word most significant byte first.
pub open spec fn words_be(words: Seq<u32>) -> Seq<u8> {
    Seq::new(4 * words.len(), |i: int| word_be(words[i / 4])[i % 4])
}

/// A list of half words as bytes, each least significant byte first.
pub open spec fn halves_le(halves: Seq<u16>) -> Seq<u8> {
    Seq::new(2 * halves.len(), |i: int| half_le(halves[i / 2])[i % 2])
}

/// A list of half words as bytes, each most significant byte first.
pub open spec fn halves_be(halves: Seq<u16>) -> Seq<u8> {
    Seq::new(2 * halves.len(), |i: int| half_be(halves[i / 2])[i % 2])
}

/// `bytes` is `words` as it lies in the memory of some machine.
pub open spec fn is_memory_of_words(bytes: Seq<u8>, words: Seq<u32>) -> bool {
    bytes == words_le(words) || bytes == words_be(words)
}

/// `bytes` is `halves` as it lies in the memory of some machine.
pub open spec fn is_memory_of_halves(bytes: Seq<u8>, halves: Seq<u16>) -> bool {
    bytes == halves_le(halves) || bytes == halves_be(halves)
}

/// Calls `bytemuck::cast_slice` from `u32` to `u8` and copies what it
/// returns. That function reinterprets the memory of the slice: the result
/// has four bytes for each word, and they are the word in the byte order of
/// the machine. It cannot fail in this direction, since a byte has no
/// alignment and any number of words is a whole number of bytes. Not proved:
/// that the bytes are the words in one of the two byte orders.
#[verifier::external_body]
fn cast_words(words: &Vec<u32>) -> (bytes: Vec<u8>)
    ensures
        is_memory_of_words(bytes@, words@),
{
    bytemuck::cast_slice::<u32, u8>(words.as_slice()).to_vec()
}

/// Calls `bytemuck::cast_slice` from `u16` to `u8` and copies what it
/// returns: two bytes for each half word, in the byte order of the machine.
/// It cannot fail in this direction. Not proved: that the bytes are the half
/// words in one of the two byte orders.
#[verifier::external_body]
fn cast_halves(halves: &Vec<u16>) -> (bytes: Vec<u8>)
    ensures
        is_memory_of_halves(bytes@, halves@),
{
    bytemuck::cast_slice::<u16, u8>(halves.as_slice()).to_vec()
}

/// The contents of a vertex buffer that holds `list`.
pub fn vertex_bytes(list: &Vec<Vertex>) -> (bytes: Vec<u8>)
    ensures
        is_memory_of_words(bytes@, packed_words(list@)),
        bytes@.len() == 36 * list@.len(),
{
    let words = pack_vertices(list);
    proof {
        crate::vertex::packed_words_len(list@);
    }
    cast_words(&words)
}

/// The contents of an index buffer that holds `list`.
pub fn index_bytes(list: &Vec<u16>) -> (bytes: Vec<u8>)
    ensures
        is_memory_of_halves(bytes@, list@),
        bytes@.len() == 2 * list@.len(),
{
    cast_halves(list)
}

} // verus!
