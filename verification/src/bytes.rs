//! Byte strings: the values that names, arguments and outputs are made of.

use vstd::prelude::*;
use vstd::string::StrSliceExecFns;
use vstd::string::StringSliceAdditionalSpecFns;

use crate::ascii::SPACE;

verus! {

/// The byte strings that a sequence of vectors holds, in order.
pub open spec fn strings_view(strings: Seq<Vec<u8>>) -> Seq<Seq<u8>> {
    Seq::new(strings.len(), |i: int| strings[i]@)
}

/// The byte strings one after the other, with a space between each two.
pub open spec fn joined(strings: Seq<Seq<u8>>) -> Seq<u8>
    decreases strings.len(),
{
    if strings.len() == 0 {
        Seq::empty()
    } else if strings.len() == 1 {
        strings[0]
    } else {
        joined(strings.drop_last()) + seq![SPACE] + strings.last()
    }
}

/// The piece that stands open at the end of `data`: the bytes after its last
/// separator.
pub open spec fn piece_open(data: Seq<u8>, separator: u8) -> Seq<u8>
    decreases data.len(),
{
    if data.len() == 0 || data.last() == separator {
        Seq::empty()
    } else {
        piece_open(data.drop_last(), separator).push(data.last())
    }
}

/// The pieces of `data` that a separator has closed, in order.
pub open spec fn pieces_closed(data: Seq<u8>, separator: u8) -> Seq<Seq<u8>>
    decreases data.len(),
{
    if data.len() == 0 {
        Seq::empty()
    } else if data.last() == separator {
        pieces_closed(data.drop_last(), separator).push(piece_open(data.drop_last(), separator))
    } else {
        pieces_closed(data.drop_last(), separator)
    }
}

/// The pieces of `data`: what stands between its separators, in order, empty pieces
/// too; one more than it has separators.
pub open spec fn pieces(data: Seq<u8>, separator: u8) -> Seq<Seq<u8>> {
    pieces_closed(data, separator).push(piece_open(data, separator))
}

/// The byte strings one after the other.
pub open spec fn flattened(strings: Seq<Seq<u8>>) -> Seq<u8>
    decreases strings.len(),
{
    if strings.len() == 0 {
        Seq::empty()
    } else {
        flattened(strings.drop_last()) + strings.last()
    }
}

/// The bytes of a text.
pub fn from_text(text: &str) -> (bytes: Vec<u8>)
    ensures
        bytes@ == text.spec_bytes(),
{
    text.as_bytes_vec()
}

/// Tells whether two byte strings are equal.
pub fn equal(left: &Vec<u8>, right: &Vec<u8>) -> (same: bool)
    ensures
        same == (left@ == right@),
{
    if left.len() != right.len() {
        return false;
    }
    let mut index: usize = 0;
    while index < left.len()
        invariant
            left.len() == right.len(),
            index <= left.len(),
            forall|i: int| 0 <= i < index ==> left@[i] == right@[i],
        decreases left.len() - index,
    {
        if left[index] != right[index] {
            return false;
        }
        index += 1;
    }
    assert(left@ =~= right@);
    true
}

/// Puts the bytes of `source` from `from` up to `to` at the end of `target`.
pub fn extend(target: &mut Vec<u8>, source: &Vec<u8>, from: usize, to: usize)
    requires
        from <= to <= source.len(),
    ensures
        final(target)@ == old(target)@ + source@.subrange(from as int, to as int),
{
    let mut index: usize = from;
    while index < to
        invariant
            from <= index <= to <= source.len(),
            target@ == old(target)@ + source@.subrange(from as int, index as int),
        decreases to - index,
    {
        target.push(source[index]);
        index += 1;
    }
}

/// A copy of a byte string.
pub fn copy(source: &Vec<u8>) -> (bytes: Vec<u8>)
    ensures
        bytes@ == source@,
{
    let mut bytes: Vec<u8> = Vec::new();
    extend(&mut bytes, source, 0, source.len());
    bytes
}

/// Cuts `data` at every separator.
pub fn split(data: &Vec<u8>, separator: u8) -> (result: Vec<Vec<u8>>)
    ensures
        strings_view(result@) == pieces(data@, separator),
{
    let mut result: Vec<Vec<u8>> = Vec::new();
    let mut buffer: Vec<u8> = Vec::new();
    let mut index: usize = 0;
    while index < data.len()
        invariant
            index <= data.len(),
            strings_view(result@) == pieces_closed(data@.take(index as int), separator),
            buffer@ == piece_open(data@.take(index as int), separator),
        decreases data.len() - index,
    {
        let byte = data[index];
        let ghost listed = strings_view(result@);
        proof {
            let k = index as int;
            assert(data@.take(k + 1).drop_last() =~= data@.take(k));
        }
        if byte == separator {
            let mut piece: Vec<u8> = Vec::new();
            std::mem::swap(&mut piece, &mut buffer);
            result.push(piece);
        } else {
            buffer.push(byte);
        }
        index += 1;
    }
    assert(data@.take(index as int) =~= data@);
    result.push(buffer);
    result
}

/// The byte strings one after the other, with a space between each two.
pub fn join(strings: &Vec<Vec<u8>>) -> (line: Vec<u8>)
    ensures
        line@ == joined(strings_view(strings@)),
{
    let ghost all = strings_view(strings@);
    let mut line: Vec<u8> = Vec::new();
    let mut index: usize = 0;
    while index < strings.len()
        invariant
            index <= strings.len(),
            all == strings_view(strings@),
            line@ == joined(all.take(index as int)),
        decreases strings.len() - index,
    {
        if index > 0 {
            line.push(SPACE);
        }
        let string = &strings[index];
        extend(&mut line, string, 0, string.len());
        proof {
            let k = index as int;
            assert(all.take(k + 1).drop_last() =~= all.take(k));
        }
        index += 1;
    }
    assert(all.take(index as int) =~= all);
    line
}

/// The byte strings one after the other, in one buffer.
pub fn flatten(strings: &Vec<Vec<u8>>) -> (data: Vec<u8>)
    ensures
        data@ == flattened(strings_view(strings@)),
{
    let ghost all = strings_view(strings@);
    let mut data: Vec<u8> = Vec::new();
    let mut index: usize = 0;
    while index < strings.len()
        invariant
            index <= strings.len(),
            all == strings_view(strings@),
            data@ == flattened(all.take(index as int)),
        decreases strings.len() - index,
    {
        let string = &strings[index];
        extend(&mut data, string, 0, string.len());
        proof {
            let k = index as int;
            assert(all.take(k + 1).drop_last() =~= all.take(k));
        }
        index += 1;
    }
    assert(all.take(index as int) =~= all);
    data
}

/// A copy of a sequence of byte strings.
pub fn copy_all(source: &Vec<Vec<u8>>) -> (strings: Vec<Vec<u8>>)
    ensures
        strings_view(strings@) == strings_view(source@),
{
    let mut strings: Vec<Vec<u8>> = Vec::new();
    let mut index: usize = 0;
    while index < source.len()
        invariant
            index <= source.len(),
            strings.len() == index,
            forall|i: int| 0 <= i < index ==> strings@[i]@ == source@[i]@,
        decreases source.len() - index,
    {
        strings.push(copy(&source[index]));
        index += 1;
    }
    strings
}

} // verus!
