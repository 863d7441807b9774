//! Cutting a chunk of a streamed body into lines.

use vstd::prelude::*;
use vstd::slice::slice_subrange;

verus! {

/// The byte that ends a line.
pub const NEWLINE: u8 = 10;

/// Where the line that starts at `from` ends: the place of the next newline,
/// or the end of the bytes.
pub open spec fn line_end(s: Seq<u8>, from: int) -> int
    decreases s.len() - from,
{
    if from >= s.len() {
        s.len() as int
    } else if s[from] == NEWLINE {
        from
    } else {
        line_end(s, from + 1)
    }
}

/// The lines of `s` from `from` on: the stretches between newlines, without
/// the newlines. Bytes that end in a newline end in an empty line.
pub open spec fn lines_from(s: Seq<u8>, from: int) -> Seq<Seq<u8>>
    decreases s.len() - from,
{
    let end = line_end(s, from);
    if from <= end < s.len() {
        seq![s.subrange(from, end)] + lines_from(s, end + 1)
    } else {
        seq![s.subrange(from, s.len() as int)]
    }
}

/// The lines of `s`.
pub open spec fn lines_of(s: Seq<u8>) -> Seq<Seq<u8>> {
    lines_from(s, 0)
}

/// The bytes of each of a list of slices.
pub open spec fn slice_views(lines: Seq<&[u8]>) -> Seq<Seq<u8>> {
    Seq::new(lines.len(), |i: int| lines[i]@)
}

/// Cuts `bytes` at each newline.
pub fn split_lines(bytes: &[u8]) -> (r: Vec<&[u8]>)
    ensures
        slice_views(r@) == lines_of(bytes@),
{
    let mut lines: Vec<&[u8]> = Vec::new();
    let mut start: usize = 0;
    let mut i: usize = 0;
    while i < bytes.len()
        invariant
            start <= i <= bytes@.len(),
            line_end(bytes@, start as int) == line_end(bytes@, i as int),
            slice_views(lines@) + lines_from(bytes@, start as int) == lines_of(bytes@),
        decreases bytes@.len() - i,
    {
        if bytes[i] == NEWLINE {
            let line = slice_subrange(bytes, start, i);
            let ghost before = slice_views(lines@);
            lines.push(line);
            proof {
                assert(line_end(bytes@, start as int) == i);
                assert(slice_views(lines@) =~= before.push(bytes@.subrange(start as int, i as int)));
                assert(before + (seq![bytes@.subrange(start as int, i as int)] + lines_from(
                    bytes@,
                    i + 1,
                )) =~= before.push(bytes@.subrange(start as int, i as int)) + lines_from(
                    bytes@,
                    i + 1,
                ));
            }
            start = i + 1;
        }
        i = i + 1;
    }
    let last = slice_subrange(bytes, start, bytes.len());
    let ghost before = slice_views(lines@);
    lines.push(last);
    proof {
        assert(line_end(bytes@, start as int) == bytes@.len());
        assert(slice_views(lines@) =~= before.push(
            bytes@.subrange(start as int, bytes@.len() as int),
        ));
        assert(before + seq![bytes@.subrange(start as int, bytes@.len() as int)] =~= before.push(
            bytes@.subrange(start as int, bytes@.len() as int),
        ));
    }
    lines
}

/// Whether `line` begins with `prefix`.
pub open spec fn begins_with(line: Seq<u8>, prefix: Seq<u8>) -> bool {
    prefix.len() <= line.len() && line.subrange(0, prefix.len() as int) == prefix
}

/// Whether `line` begins with `prefix`.
pub fn starts_with(line: &[u8], prefix: &[u8]) -> (r: bool)
    ensures
        r == begins_with(line@, prefix@),
{
    if prefix.len() > line.len() {
        return false;
    }
    let mut i: usize = 0;
    while i < prefix.len()
        invariant
            i <= prefix@.len() <= line@.len(),
            forall|k: int| 0 <= k < i ==> line@[k] == prefix@[k],
        decreases prefix@.len() - i,
    {
        if line[i] != prefix[i] {
            assert(line@.subrange(0, prefix@.len() as int)[i as int] != prefix@[i as int]);
            return false;
        }
        i = i + 1;
    }
    assert(line@.subrange(0, prefix@.len() as int) =~= prefix@);
    true
}

/// Whether two byte slices hold the same bytes.
pub fn same_bytes(a: &[u8], b: &[u8]) -> (r: bool)
    ensures
        r == (a@ == b@),
{
    if a.len() != b.len() {
        return false;
    }
    let r = starts_with(a, b);
    assert(a@.subrange(0, b@.len() as int) =~= a@);
    r
}

} // verus!
