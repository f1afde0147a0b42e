//! Names in a string table: a blob of NUL-terminated strings, addressed by
//! byte offset.

use crate::error::{classify, spec_classify, ElfError, ParseFault};
use crate::outside::{fault_of, strtab_get};
use vstd::prelude::*;
use vstd::utf8::{decode_utf8, valid_utf8};

verus! {

/// The index of the first zero byte at or after `from`, or the blob's length
/// where there is none.
pub open spec fn name_end(blob: Seq<u8>, from: int) -> int
    decreases blob.len() - from,
{
    if from < 0 || from >= blob.len() {
        blob.len() as int
    } else if blob[from] == 0 {
        from
    } else {
        name_end(blob, from + 1)
    }
}

/// The bytes of the name that starts at `offset`, without the terminator; or
/// the fault, where the offset lies beyond the blob or no terminator follows.
pub open spec fn raw_name(blob: Seq<u8>, offset: int) -> Result<Seq<u8>, ParseFault> {
    if blob.len() == 0 || offset > blob.len() {
        Err(ParseFault::BadOffset(offset as u64))
    } else if name_end(blob, offset) >= blob.len() {
        Err(ParseFault::StringTableMissingNul(offset as u64))
    } else {
        Ok(blob.subrange(offset, name_end(blob, offset)))
    }
}

/// The name that starts at `offset`, decoded as UTF-8, or the fault.
pub open spec fn decoded_name(blob: Seq<u8>, offset: int) -> Result<Seq<char>, ParseFault> {
    match raw_name(blob, offset) {
        Err(f) => Err(f),
        Ok(raw) => if valid_utf8(raw) {
            Ok(decode_utf8(raw))
        } else {
            Err(ParseFault::Utf8Error)
        },
    }
}

/// The name that starts at `offset`, or the error reported for it.
pub open spec fn spec_resolve(blob: Seq<u8>, offset: int) -> Result<Seq<char>, ElfError> {
    match decoded_name(blob, offset) {
        Ok(name) => Ok(name),
        Err(f) => Err(spec_classify(f)),
    }
}

/// A string table as the format defines it: not empty, and starting with a
/// zero byte, so that offset 0 names the empty string.
pub open spec fn valid_string_table(blob: Seq<u8>) -> bool {
    blob.len() > 0 && blob[0] == 0
}

/// A result that holds a string, with the string taken by its view.
pub open spec fn name_view(r: Result<String, ElfError>) -> Result<Seq<char>, ElfError> {
    match r {
        Ok(s) => Ok(s@),
        Err(e) => Err(e),
    }
}

/// Resolves the name that starts at `offset` of a string table: the bytes up
/// to the next zero byte, as text. An offset at or beyond the end of the blob,
/// and a name that no zero byte ends, are out of bounds; bytes that are not
/// UTF-8 are an invalid field.
pub fn resolve(blob: &[u8], offset: usize) -> (r: Result<String, ElfError>)
    ensures
        name_view(r) == spec_resolve(blob@, offset as int),
{
    match strtab_get(blob, offset) {
        Ok(s) => Ok(s),
        Err(e) => Err(classify(fault_of(&e))),
    }
}

/// Every name ends at or before the end of the blob, no zero byte lies inside
/// it, and where it ends inside the blob a zero byte stands there.
pub proof fn name_end_bounds(blob: Seq<u8>, from: int)
    requires
        0 <= from <= blob.len(),
    ensures
        from <= name_end(blob, from) <= blob.len(),
        forall|i: int| from <= i < name_end(blob, from) ==> blob[i] != 0,
        name_end(blob, from) < blob.len() ==> blob[name_end(blob, from)] == 0,
    decreases blob.len() - from,
{
    if from < blob.len() && blob[from] != 0 {
        name_end_bounds(blob, from + 1);
    }
}

/// In every valid string table, offset 0 resolves to the empty string.
pub proof fn offset_zero_is_the_empty_name(blob: Seq<u8>)
    requires
        valid_string_table(blob),
    ensures
        spec_resolve(blob, 0) == Ok::<Seq<char>, ElfError>(Seq::empty()),
{
    let raw = blob.subrange(0, 0);
    assert(raw =~= Seq::<u8>::empty());
    assert(valid_utf8(raw));
    assert(decode_utf8(raw) =~= Seq::<char>::empty());
}

/// An offset at or beyond the end of the blob never resolves: it is out of
/// bounds.
pub proof fn offset_beyond_blob_is_out_of_bounds(blob: Seq<u8>, offset: int)
    requires
        offset >= blob.len(),
    ensures
        spec_resolve(blob, offset) == Err::<Seq<char>, ElfError>(ElfError::OutOfBounds),
{
}

/// A name that no zero byte ends never resolves: it is out of bounds.
pub proof fn unterminated_name_is_out_of_bounds(blob: Seq<u8>, offset: int)
    requires
        0 <= offset < blob.len(),
        forall|i: int| offset <= i < blob.len() ==> blob[i] != 0,
    ensures
        spec_resolve(blob, offset) == Err::<Seq<char>, ElfError>(ElfError::OutOfBounds),
{
    name_end_bounds(blob, offset);
}

} // verus!
