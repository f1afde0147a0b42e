//! The dynamic section: tag/value pairs, ended by a null tag.

use crate::error::ElfError;
use crate::header::{
    decode_error, decode_file_header, decode_program_headers, decode_section_headers, ident_error,
    size_by_class, spec_class, spec_decode_error, spec_program_headers, spec_section_headers,
    spec_size_by_class,
};
use crate::model::{Class, DynamicEntry, ProgramHeader};
use crate::outside::{dynamic_table, has_type, stream_dynamic};
use crate::sections::{find_by_type, first_of_type};
use vstd::prelude::*;

verus! {

/// The index of the first entry with a null tag at or after `from`, or the
/// number of entries where there is none.
pub open spec fn null_position(entries: Seq<DynamicEntry>, from: int) -> int
    decreases entries.len() - from,
{
    if from < 0 || from >= entries.len() {
        entries.len() as int
    } else if entries[from].d_tag == 0 {
        from
    } else {
        null_position(entries, from + 1)
    }
}

/// The entries up to and with the first null tag; all of them where no entry
/// has a null tag.
pub open spec fn spec_until_null(entries: Seq<DynamicEntry>) -> Seq<DynamicEntry> {
    if null_position(entries, 0) < entries.len() {
        entries.take(null_position(entries, 0) + 1)
    } else {
        entries
    }
}

/// The first null tag at or after `from` lies at or after it, and no entry
/// between the two has a null tag.
pub proof fn null_position_bounds(entries: Seq<DynamicEntry>, from: int)
    requires
        0 <= from <= entries.len(),
    ensures
        from <= null_position(entries, from) <= entries.len(),
        forall|i: int| from <= i < null_position(entries, from) ==> entries[i].d_tag != 0,
        null_position(entries, from) < entries.len() ==> entries[null_position(
            entries,
            from,
        )].d_tag == 0,
    decreases entries.len() - from,
{
    if from < entries.len() && entries[from].d_tag != 0 {
        null_position_bounds(entries, from + 1);
    }
}

/// Cuts a list of dynamic entries after its first null tag. The null tag ends
/// the table, whatever the section holds behind it.
pub fn until_null(entries: &Vec<DynamicEntry>) -> (r: Vec<DynamicEntry>)
    ensures
        r@ == spec_until_null(entries@),
        r@.len() <= entries@.len(),
        forall|i: int| 0 <= i < r@.len() ==> r@[i] == entries@[i],
        forall|i: int| 0 <= i < r@.len() - 1 ==> r@[i].d_tag != 0,
        r@.len() < entries@.len() ==> r@.len() > 0 && r@[r@.len() - 1].d_tag == 0,
{
    let mut out: Vec<DynamicEntry> = Vec::new();
    let mut i: usize = 0;
    proof {
        null_position_bounds(entries@, 0);
    }
    while i < entries.len()
        invariant
            i <= entries.len(),
            i <= null_position(entries@, 0) <= entries.len(),
            out@ == entries@.take(i as int),
            forall|j: int| 0 <= j < null_position(entries@, 0) ==> entries@[j].d_tag != 0,
            null_position(entries@, 0) < entries.len() ==> entries@[null_position(
                entries@,
                0,
            )].d_tag == 0,
        decreases entries.len() - i,
    {
        let entry = entries[i];
        out.push(entry);
        proof {
            assert(out@ =~= entries@.take(i + 1));
        }
        if entry.d_tag == 0 {
            return out;
        }
        i += 1;
    }
    proof {
        assert(entries@.take(i as int) =~= entries@);
    }
    out
}

/// Whether some segment of the table has this type tag.
pub open spec fn has_segment_type(segments: Seq<ProgramHeader>, p_type: u32) -> bool {
    exists|i: int| 0 <= i < segments.len() && (#[trigger] segments[i]).p_type == p_type
}

/// The index of the first segment of the given type, where there is one.
pub open spec fn first_segment_of_type(segments: Seq<ProgramHeader>, p_type: u32) -> int
    recommends
        has_segment_type(segments, p_type),
{
    choose|i: int|
        0 <= i < segments.len() && (#[trigger] segments[i]).p_type == p_type && forall|j: int|
            0 <= j < i ==> (#[trigger] segments[j]).p_type != p_type
}

/// Finds the first segment that has the given type tag.
pub fn find_segment_by_type(segments: &Vec<ProgramHeader>, p_type: u32) -> (r: Option<usize>)
    ensures
        r is Some <==> has_segment_type(segments@, p_type),
        r matches Some(i) ==> {
            &&& i < segments.len()
            &&& i == first_segment_of_type(segments@, p_type)
            &&& segments[i as int].p_type == p_type
        },
{
    let mut i: usize = 0;
    while i < segments.len()
        invariant
            i <= segments.len(),
            forall|j: int| 0 <= j < i ==> segments[j].p_type != p_type,
        decreases segments.len() - i,
    {
        if segments[i].p_type == p_type {
            proof {
                assert(segments@[i as int].p_type == p_type);
                assert(has_segment_type(segments@, p_type));
                let k = first_segment_of_type(segments@, p_type);
                assert(k == i) by {
                    if k < i {
                        assert(segments@[k].p_type != p_type);
                    }
                }
            }
            return Some(i);
        }
        i += 1;
    }
    None
}

/// Whether `size` bytes at `offset` end inside a file of `len` bytes and hold
/// whole entries of the class's size only.
pub open spec fn holds_whole_entries(offset: u64, size: u64, class: Class, len: nat) -> bool {
    offset + size <= len && size as int % spec_size_by_class(class, 8, 16) == 0
}

/// What the decoder yields for the file, cut after the first null tag.
pub open spec fn decoded_dynamic(data: Seq<u8>) -> Result<Option<Seq<DynamicEntry>>, ElfError> {
    match dynamic_table(data) {
        Err(e) => Err(spec_decode_error(data.len(), e)),
        Ok(None) => Ok(None),
        Ok(Some(entries)) => Ok(Some(spec_until_null(entries))),
    }
}

/// The dynamic table of a file with these bytes, if it has one.
///
/// In a file with sections, the table is the one in the first section of
/// type 6: without such a section there is none. In a file without sections
/// it is the one in the first segment of type 2: without such a segment there
/// is none. A table that reaches beyond the file, or whose size is no
/// multiple of the size of an entry (8 bytes in a 32-bit file, 16 in a 64-bit
/// file), is truncated. The entries are those that the decoder yields, cut
/// after the first null tag.
pub open spec fn spec_dynamic(data: Seq<u8>) -> Result<Option<Seq<DynamicEntry>>, ElfError> {
    match spec_section_headers(data) {
        Err(e) => Err(e),
        Ok(headers) => if headers.len() > 0 {
            if !has_type(headers, 6) {
                Ok(None)
            } else if !holds_whole_entries(
                headers[first_of_type(headers, 6)].sh_offset,
                headers[first_of_type(headers, 6)].sh_size,
                spec_class(data),
                data.len(),
            ) {
                Err(ElfError::TruncatedTable)
            } else {
                decoded_dynamic(data)
            }
        } else {
            match spec_program_headers(data) {
                Err(e) => Err(e),
                Ok(segments) => if !has_segment_type(segments, 2) {
                    Ok(None)
                } else if !holds_whole_entries(
                    segments[first_segment_of_type(segments, 2)].p_offset,
                    segments[first_segment_of_type(segments, 2)].p_filesz,
                    spec_class(data),
                    data.len(),
                ) {
                    Err(ElfError::TruncatedTable)
                } else {
                    decoded_dynamic(data)
                },
            }
        },
    }
}

/// A result that may hold a vector, with the vector taken by its view.
pub open spec fn table_view(r: Result<Option<Vec<DynamicEntry>>, ElfError>) -> Result<
    Option<Seq<DynamicEntry>>,
    ElfError,
> {
    match r {
        Ok(Some(v)) => Ok(Some(v@)),
        Ok(None) => Ok(None),
        Err(e) => Err(e),
    }
}

/// Tells whether `size` bytes at `offset` end inside the file and hold whole
/// entries only.
fn whole_entries(offset: u64, size: u64, class: Class, len: u64) -> (r: bool)
    ensures
        r == holds_whole_entries(offset, size, class, len as nat),
{
    size <= len && offset <= len - size && size % size_by_class(class, 8, 16) == 0
}

/// Decodes the dynamic table: its tag/value pairs up to and with the first
/// null tag, or to the end of the table where no null tag is found.
///
/// The table is found by type, not by name: in a file with sections it is the
/// first section of type 6, in a file without sections the first segment of
/// type 2. A file that has neither has no dynamic table: that is `None`, not
/// an error, and it is decided before the decoder is called. A table that
/// reaches beyond the file or ends in a part of an entry is a truncated
/// table.
pub fn decode_dynamic(data: &[u8]) -> (r: Result<Option<Vec<DynamicEntry>>, ElfError>)
    ensures
        table_view(r) == spec_dynamic(data@),
        ident_error(data@) matches Some(e) ==> r == Err::<Option<Vec<DynamicEntry>>, ElfError>(e),
        r matches Ok(Some(v)) ==> forall|i: int| 0 <= i < v@.len() - 1 ==> v@[i].d_tag != 0,
        r is Ok ==> (spec_section_headers(data@) matches Ok(headers) && (headers.len() > 0 ==> (
            r matches Ok(None) <==> !has_type(headers, 6)))),
        (spec_section_headers(data@) is Ok && spec_section_headers(data@)->Ok_0.len() == 0
            && spec_program_headers(data@) is Ok && !has_segment_type(
            spec_program_headers(data@)->Ok_0,
            2,
        )) ==> r == Ok::<Option<Vec<DynamicEntry>>, ElfError>(None),
{
    let headers = decode_section_headers(data)?;
    let header = decode_file_header(data)?;
    let len = data.len() as u64;
    if headers.len() > 0 {
        match find_by_type(&headers, 6) {
            None => {
                return Ok(None);
            },
            Some(at) => {
                if !whole_entries(headers[at].sh_offset, headers[at].sh_size, header.class, len) {
                    return Err(ElfError::TruncatedTable);
                }
            },
        }
    } else {
        let segments = decode_program_headers(data)?;
        match find_segment_by_type(&segments, 2) {
            None => {
                return Ok(None);
            },
            Some(at) => {
                if !whole_entries(segments[at].p_offset, segments[at].p_filesz, header.class, len) {
                    return Err(ElfError::TruncatedTable);
                }
            },
        }
    }
    match stream_dynamic(data) {
        Err(e) => Err(decode_error(data.len(), &e)),
        Ok(None) => Ok(None),
        Ok(Some(entries)) => Ok(Some(until_null(&entries))),
    }
}

} // verus!
