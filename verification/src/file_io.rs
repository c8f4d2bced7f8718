//! Planning for the sequential file helpers: what a new file is filled with and
//! how a file is cut into the byte ranges that concurrent copiers work on.

use vstd::prelude::*;

verus! {

/// The byte that a freshly created file is filled with.
pub const FILL_BYTE: u8 = 0x73;

/// A run of bytes in a file: where it starts and how long it is.
#[derive(Clone, Copy, Debug, PartialEq, Eq, Structural)]
pub struct PartRange {
    pub start: u64,
    pub length: u64,
}

/// Size of every part but the last when `file_size` bytes are cut into `parts`.
pub open spec fn chunk_size(file_size: nat, parts: nat) -> nat
    recommends
        parts > 0,
{
    file_size / parts
}

/// First byte of part `index`.
pub open spec fn part_start(file_size: nat, parts: nat, index: nat) -> nat
    recommends
        parts > 0,
{
    index * chunk_size(file_size, parts)
}

/// Length of part `index`: a chunk, but the last part runs to the end of the file.
pub open spec fn part_length(file_size: nat, parts: nat, index: nat) -> nat
    recommends
        0 < parts,
        index < parts,
{
    if index + 1 == parts {
        (file_size - part_start(file_size, parts, index)) as nat
    } else {
        chunk_size(file_size, parts)
    }
}

/// No part starts beyond the end of the file.
pub proof fn lemma_part_starts_inside(file_size: nat, parts: nat, index: nat)
    requires
        0 < parts,
        index < parts,
    ensures
        part_start(file_size, parts, index) <= file_size,
        part_start(file_size, parts, index) + part_length(file_size, parts, index) <= file_size,
{
    let c = file_size / parts;
    assert(parts * c <= file_size) by (nonlinear_arith)
        requires
            c == file_size / parts,
            parts > 0,
    ;
    assert(index * c + c <= parts * c) by (nonlinear_arith)
        requires
            index < parts,
    ;
}

/// The parts tile the file: the first starts at byte 0, each starts where the
/// one before it ended, and the last ends with the file. So no byte belongs to
/// two parts and none is left out.
pub proof fn lemma_parts_tile_file(file_size: nat, parts: nat, index: nat)
    requires
        0 < parts,
        index < parts,
    ensures
        part_start(file_size, parts, 0) == 0,
        index + 1 < parts ==> part_start(file_size, parts, index + 1) == part_start(
            file_size,
            parts,
            index,
        ) + part_length(file_size, parts, index),
        index + 1 == parts ==> part_start(file_size, parts, index) + part_length(
            file_size,
            parts,
            index,
        ) == file_size,
{
    let c = file_size / parts;
    lemma_part_starts_inside(file_size, parts, index);
    assert(0 * c == 0) by (nonlinear_arith);
    assert((index + 1) * c == index * c + c) by (nonlinear_arith);
}

/// The range of a file of `file_size` bytes that copier `index` of `parts`
/// works on, or `None` where there is no such copier.
pub fn part_range(file_size: u64, parts: u64, index: u64) -> (r: Option<PartRange>)
    ensures
        r.is_some() <==> index < parts,
        r.is_some() ==> r.unwrap().start == part_start(
            file_size as nat,
            parts as nat,
            index as nat,
        ) && r.unwrap().length == part_length(file_size as nat, parts as nat, index as nat),
{
    if index >= parts {
        return None;
    }
    let chunk: u64 = file_size / parts;
    proof {
        lemma_part_starts_inside(file_size as nat, parts as nat, index as nat);
    }
    let start: u64 = index * chunk;
    let length: u64 = if index == parts - 1 {
        file_size - start
    } else {
        chunk
    };
    Some(PartRange { start, length })
}

/// What a new file of `size` bytes holds: the fill byte, `size` times.
pub fn filler(size: usize) -> (bytes: Vec<u8>)
    ensures
        bytes@ == Seq::new(size as nat, |i: int| FILL_BYTE),
{
    let mut bytes: Vec<u8> = Vec::new();
    let mut written: usize = 0;
    while written < size
        invariant
            written <= size,
            bytes@ == Seq::new(written as nat, |i: int| FILL_BYTE),
        decreases size - written,
    {
        bytes.push(FILL_BYTE);
        written = written + 1;
        assert(bytes@ =~= Seq::new(written as nat, |i: int| FILL_BYTE));
    }
    bytes
}

} // verus!
