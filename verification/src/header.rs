//! The file header, and the two tables it points to.

use crate::error::{classify, classify_open, spec_classify, spec_classify_open, ElfError};
use crate::invariants::{
    link_is_valid, section_fits, segment_is_consistent, spec_link_is_valid, spec_section_fits,
    spec_segment_is_consistent, table_fits,
};
use crate::model::{ByteOrder, Class, FileHeader, ProgramHeader, SectionHeader};
use crate::fields::{spec_u16_at, spec_u32_at, spec_u64_at};
use crate::outside::{
    fault_kind, fault_of, header_carries, header_size, opened_sections, opened_segments,
    parse_header, stream_sections, stream_segments,
};
use elf::ParseError;
use vstd::prelude::*;

verus! {

/// The outcome of reading the header or a header table of a file of `len`
/// bytes, as this library reports it: the value unchanged, the error by its
/// kind. A file too short to hold the identification block is malformed.
pub open spec fn classified<T>(len: nat, r: Result<T, ParseError>) -> Result<T, ElfError> {
    match r {
        Ok(v) => Ok(v),
        Err(e) => if len < 16 {
            Err(ElfError::MalformedHeader)
        } else {
            Err(spec_classify_open(fault_kind(e)))
        },
    }
}

/// The error that the first sixteen bytes alone force, if any: a file too
/// short for them or without the magic bytes and the supported version is
/// malformed; then the class byte is checked, then the byte-order byte.
pub open spec fn ident_error(data: Seq<u8>) -> Option<ElfError> {
    if !has_magic(data) {
        Some(ElfError::MalformedHeader)
    } else if class_of(data[4]) is None {
        Some(ElfError::UnsupportedClass)
    } else if order_of(data[5]) is None {
        Some(ElfError::UnsupportedEndianness)
    } else {
        None
    }
}

/// Whether the file starts with the four magic bytes and a supported version
/// byte.
pub open spec fn has_magic(data: Seq<u8>) -> bool {
    &&& data.len() >= 16
    &&& data[0] == 0x7f
    &&& data[1] == 0x45
    &&& data[2] == 0x4c
    &&& data[3] == 0x46
    &&& data[6] == 1
}

/// The class that a class byte stands for.
pub open spec fn class_of(byte: u8) -> Option<Class> {
    if byte == 1 {
        Some(Class::Elf32)
    } else if byte == 2 {
        Some(Class::Elf64)
    } else {
        None
    }
}

/// The byte order that a byte-order byte stands for.
pub open spec fn order_of(byte: u8) -> Option<ByteOrder> {
    if byte == 1 {
        Some(ByteOrder::Little)
    } else if byte == 2 {
        Some(ByteOrder::Big)
    } else {
        None
    }
}

/// The header that the first bytes of a file hold, where the identification
/// bytes are in order and the file is as long as the header of its class:
/// every field at the offset of the file's class, in the file's byte order.
pub open spec fn header_from(data: Seq<u8>) -> FileHeader {
    let wide = data[4] == 2;
    let o = if data[5] == 1 { ByteOrder::Little } else { ByteOrder::Big };
    let shift: int = if wide { 12 } else { 0 };
    FileHeader {
        class: if wide { Class::Elf64 } else { Class::Elf32 },
        order: o,
        version: spec_u32_at(data, 20, o) as u32,
        osabi: data[7],
        abiversion: data[8],
        e_type: spec_u16_at(data, 16, o) as u16,
        e_machine: spec_u16_at(data, 18, o) as u16,
        e_entry: (if wide { spec_u64_at(data, 24, o) } else { spec_u32_at(data, 24, o) }) as u64,
        e_phoff: (if wide { spec_u64_at(data, 32, o) } else { spec_u32_at(data, 28, o) }) as u64,
        e_shoff: (if wide { spec_u64_at(data, 40, o) } else { spec_u32_at(data, 32, o) }) as u64,
        e_flags: spec_u32_at(data, 36 + shift, o) as u32,
        e_ehsize: spec_u16_at(data, 40 + shift, o) as u16,
        e_phentsize: spec_u16_at(data, 42 + shift, o) as u16,
        e_phnum: spec_u16_at(data, 44 + shift, o) as u16,
        e_shentsize: spec_u16_at(data, 46 + shift, o) as u16,
        e_shnum: spec_u16_at(data, 48 + shift, o) as u16,
        e_shstrndx: spec_u16_at(data, 50 + shift, o) as u16,
    }
}

/// The file header of a file with these bytes. Only the header's own bytes
/// count: a file too short for the identification block or for the header of
/// its class is malformed; the identification bytes are checked as
/// `ident_error` says; any other file has the header that its bytes hold.
pub open spec fn spec_file_header(data: Seq<u8>) -> Result<FileHeader, ElfError> {
    match ident_error(data) {
        Some(e) => Err(e),
        None => if data.len() < header_size(data[4]) {
            Err(ElfError::MalformedHeader)
        } else {
            Ok(header_from(data))
        },
    }
}

/// The class of a file whose header decodes.
pub open spec fn spec_class(data: Seq<u8>) -> Class {
    match spec_file_header(data) {
        Ok(h) => h.class,
        Err(_) => Class::Elf64,
    }
}

/// The size of a record that takes `narrow` bytes in a 32-bit file and `wide`
/// bytes in a 64-bit file.
pub open spec fn spec_size_by_class(class: Class, narrow: int, wide: int) -> int {
    if class == Class::Elf64 {
        wide
    } else {
        narrow
    }
}

/// The size of a record that takes `narrow` bytes in a 32-bit file and `wide`
/// bytes in a 64-bit file.
pub fn size_by_class(class: Class, narrow: u64, wide: u64) -> (r: u64)
    ensures
        r == spec_size_by_class(class, narrow as int, wide as int),
{
    match class {
        Class::Elf64 => wide,
        Class::Elf32 => narrow,
    }
}

/// Whether a header table is missing from a file of `len` bytes: the header
/// counts entries, but gives no offset for them, or the entries it counts end
/// beyond the file.
pub open spec fn table_is_missing(offset: u64, count: u16, size: u16, len: nat) -> bool {
    count > 0 && (offset == 0 || offset + count * size > len)
}

/// The section header table of a file with these bytes.
///
/// A header that counts no sections has an empty table. A header that counts
/// sections which are not in the file, because it gives no offset or because
/// the table would end beyond the file, has a truncated table. Otherwise the
/// table is the one that the decoder yields, where every section of it is
/// consistent: a section whose bytes end beyond the file is a truncated
/// table, and a link that names no section of the table is out of bounds.
pub open spec fn spec_section_headers(data: Seq<u8>) -> Result<Seq<SectionHeader>, ElfError> {
    match spec_file_header(data) {
        Err(e) => Err(e),
        Ok(h) => if h.e_shnum == 0 {
            Ok(Seq::empty())
        } else if table_is_missing(h.e_shoff, h.e_shnum, h.e_shentsize, data.len()) {
            Err(ElfError::TruncatedTable)
        } else {
            match classified(data.len(), opened_sections(data)) {
                Err(e) => Err(e),
                Ok(headers) => if headers.len() != h.e_shnum {
                    Err(ElfError::InvalidBitfield)
                } else if !all_sections_fit(headers, data.len()) {
                    Err(ElfError::TruncatedTable)
                } else if !all_links_valid(headers) {
                    Err(ElfError::OutOfBounds)
                } else {
                    Ok(headers)
                },
            }
        },
    }
}

/// Whether the bytes of every section end inside a file of `len` bytes,
/// unless the section has no file content.
pub open spec fn all_sections_fit(headers: Seq<SectionHeader>, len: nat) -> bool {
    forall|i: int| 0 <= i < headers.len() ==> spec_section_fits(#[trigger] headers[i], len)
}

/// Whether every link that names a section names one of the table.
pub open spec fn all_links_valid(headers: Seq<SectionHeader>) -> bool {
    forall|i: int|
        0 <= i < headers.len() ==> spec_link_is_valid(#[trigger] headers[i], headers.len())
}

/// Whether every segment of the table is consistent.
pub open spec fn all_consistent(segments: Seq<ProgramHeader>) -> bool {
    forall|i: int| 0 <= i < segments.len() ==> spec_segment_is_consistent(#[trigger] segments[i])
}

/// The program header table of a file with these bytes: the segments that the
/// decoder yields, where they are as many as the header counts and every one
/// of them is consistent; any other table is an invalid field.
///
/// A header that counts no segments has an empty table, and one that counts
/// segments which are not in the file has a truncated table, as for the
/// sections.
pub open spec fn spec_program_headers(data: Seq<u8>) -> Result<Seq<ProgramHeader>, ElfError> {
    match spec_file_header(data) {
        Err(e) => Err(e),
        Ok(h) => if h.e_phnum == 0 {
            Ok(Seq::empty())
        } else if table_is_missing(h.e_phoff, h.e_phnum, h.e_phentsize, data.len()) {
            Err(ElfError::TruncatedTable)
        } else {
            match classified(data.len(), opened_segments(data)) {
                Err(e) => Err(e),
                Ok(segments) => if segments.len() == h.e_phnum && all_consistent(segments) {
                    Ok(segments)
                } else {
                    Err(ElfError::InvalidBitfield)
                },
            }
        },
    }
}

/// A result that holds a vector, with the vector taken by its view.
pub open spec fn viewed<T>(r: Result<Vec<T>, ElfError>) -> Result<Seq<T>, ElfError> {
    match r {
        Ok(v) => Ok(v@),
        Err(e) => Err(e),
    }
}

/// Maps the error of a failed read of the header or of a header table of a
/// file of `len` bytes.
pub fn open_error(len: usize, e: &ParseError) -> (r: ElfError)
    ensures
        r == (if len < 16 {
            ElfError::MalformedHeader
        } else {
            spec_classify_open(fault_kind(*e))
        }),
{
    if len < 16 {
        ElfError::MalformedHeader
    } else {
        classify_open(fault_of(e))
    }
}

/// The error reported for a failed read of anything behind the header tables
/// of a file of `len` bytes: a file too short to hold the identification
/// block is malformed; any other failure goes by its kind.
pub open spec fn spec_decode_error(len: nat, e: ParseError) -> ElfError {
    if len < 16 {
        ElfError::MalformedHeader
    } else {
        spec_classify(fault_kind(e))
    }
}

/// Maps the error of a failed read of anything behind the header tables.
pub fn decode_error(len: usize, e: &ParseError) -> (r: ElfError)
    ensures
        r == spec_decode_error(len as nat, *e),
{
    if len < 16 {
        ElfError::MalformedHeader
    } else {
        classify(fault_of(e))
    }
}

/// Checks the identification bytes.
pub fn ident_check(data: &[u8]) -> (r: Option<ElfError>)
    ensures
        r == ident_error(data@),
{
    if data.len() < 16 || data[0] != 0x7f || data[1] != 0x45 || data[2] != 0x4c || data[3] != 0x46
        || data[6] != 1 {
        Some(ElfError::MalformedHeader)
    } else if data[4] != 1 && data[4] != 2 {
        Some(ElfError::UnsupportedClass)
    } else if data[5] != 1 && data[5] != 2 {
        Some(ElfError::UnsupportedEndianness)
    } else {
        None
    }
}

/// A header that carries the fields of the bytes is the header of the bytes.
pub proof fn carried_header_is_the_header(data: Seq<u8>, h: FileHeader)
    requires
        data.len() >= 16,
        data[4] == 1 || data[4] == 2,
        header_carries(data, h),
    ensures
        h == header_from(data),
{
}

/// Decodes the file header from the first bytes of the file: 52 in a 32-bit
/// file, 64 in a 64-bit file. Nothing behind them is read.
///
/// A file too short for the identification block or for its header, or
/// without the magic bytes and the supported version, is malformed; then the
/// class byte and the byte-order byte are checked, in that order. Every other
/// file decodes, and the header holds every field as the bytes give it.
pub fn decode_file_header(data: &[u8]) -> (r: Result<FileHeader, ElfError>)
    ensures
        r == spec_file_header(data@),
        ident_error(data@) matches Some(e) ==> r == Err::<FileHeader, ElfError>(e),
        r is Ok <==> ident_error(data@) is None && data@.len() >= header_size(data@[4]),
        r matches Ok(h) ==> {
            &&& class_of(data@[4]) == Some(h.class)
            &&& order_of(data@[5]) == Some(h.order)
            &&& header_carries(data@, h)
        },
{
    if let Some(e) = ident_check(data) {
        return Err(e);
    }
    let size: usize = if data[4] == 1 {
        52
    } else {
        64
    };
    if data.len() < size {
        return Err(ElfError::MalformedHeader);
    }
    match parse_header(data) {
        Ok(h) => {
            proof {
                carried_header_is_the_header(data@, h);
            }
            Ok(h)
        },
        Err(_) => Err(ElfError::MalformedHeader),
    }
}

/// Decodes the section header table.
///
/// A header that counts no sections has an empty table: that is decided on
/// the header alone. A header that counts sections which are not in the
/// file, because it gives no offset or because offset plus count times entry
/// size lies beyond the file, is a truncated table: that too is decided
/// before the decoder is called.
///
/// The table that is returned has as many entries as the header counts, and
/// every section of it is consistent: its bytes end inside the
/// file unless it has no file content, and its link, where it names a
/// section, names one of the table. A table with a section that reaches
/// beyond the file is a truncated table; one with a link that names no
/// section is out of bounds.
pub fn decode_section_headers(data: &[u8]) -> (r: Result<Vec<SectionHeader>, ElfError>)
    ensures
        viewed(r) == spec_section_headers(data@),
        r is Ok ==> spec_file_header(data@) is Ok,
        ident_error(data@) matches Some(e) ==> r == Err::<Vec<SectionHeader>, ElfError>(e),
        spec_file_header(data@) matches Ok(h) ==> {
            &&& h.e_shnum == 0 ==> (r matches Ok(v) && v@.len() == 0)
            &&& table_is_missing(h.e_shoff, h.e_shnum, h.e_shentsize, data@.len()) ==> r == Err::<
                Vec<SectionHeader>,
                ElfError,
            >(ElfError::TruncatedTable)
        },
        r matches Ok(v) ==> all_sections_fit(v@, data@.len()) && all_links_valid(v@),
        r matches Ok(v) ==> v@.len() == spec_file_header(data@)->Ok_0.e_shnum,
        r matches Ok(v) ==> v@.len() > 0 ==> opened_sections(data@) == Ok::<
            Seq<SectionHeader>,
            ParseError,
        >(v@),
{
    let h = decode_file_header(data)?;
    if h.e_shnum == 0 {
        return Ok(Vec::new());
    }
    if h.e_shoff == 0 || !table_fits(h.e_shoff, h.e_shnum, h.e_shentsize, data.len() as u64) {
        return Err(ElfError::TruncatedTable);
    }
    let headers = match stream_sections(data) {
        Ok(v) => v,
        Err(e) => {
            return Err(open_error(data.len(), &e));
        },
    };
    if headers.len() != h.e_shnum as usize {
        return Err(ElfError::InvalidBitfield);
    }
    let len = data.len() as u64;
    let mut i: usize = 0;
    while i < headers.len()
        invariant
            i <= headers.len(),
            len == data@.len(),
            headers@.len() == h.e_shnum,
            ident_error(data@) is None,
            spec_file_header(data@) == Ok::<FileHeader, ElfError>(h),
            h.e_shnum != 0,
            !table_is_missing(h.e_shoff, h.e_shnum, h.e_shentsize, data@.len()),
            opened_sections(data@) == Ok::<Seq<SectionHeader>, ParseError>(headers@),
            forall|j: int| 0 <= j < i ==> spec_section_fits(#[trigger] headers@[j], len as nat),
        decreases headers.len() - i,
    {
        if !section_fits(&headers[i], len) {
            proof {
                assert(!spec_section_fits(headers@[i as int], len as nat));
            }
            return Err(ElfError::TruncatedTable);
        }
        i += 1;
    }
    let mut i: usize = 0;
    while i < headers.len()
        invariant
            i <= headers.len(),
            ident_error(data@) is None,
            spec_file_header(data@) == Ok::<FileHeader, ElfError>(h),
            h.e_shnum != 0,
            !table_is_missing(h.e_shoff, h.e_shnum, h.e_shentsize, data@.len()),
            opened_sections(data@) == Ok::<Seq<SectionHeader>, ParseError>(headers@),
            headers@.len() == h.e_shnum,
            all_sections_fit(headers@, data@.len()),
            forall|j: int|
                0 <= j < i ==> spec_link_is_valid(#[trigger] headers@[j], headers@.len()),
        decreases headers.len() - i,
    {
        if !link_is_valid(&headers[i], headers.len()) {
            proof {
                assert(!spec_link_is_valid(headers@[i as int], headers@.len()));
            }
            return Err(ElfError::OutOfBounds);
        }
        i += 1;
    }
    Ok(headers)
}

/// Decodes the program header table.
///
/// A header that counts no segments has an empty table, whatever else the
/// file holds. A header that counts segments
/// which are not in the file, because it gives no offset or because offset
/// plus count times entry size lies beyond the file, is a truncated table.
/// Both are decided on the header, before the decoder is called.
///
/// The table that is returned has as many entries as the header counts, and
/// every segment of it is consistent: it takes at least as much
/// memory as it has bytes in the file, its alignment is zero or a power of
/// two, and its address and file offset agree modulo an alignment above 1. A
/// table with a segment that breaks one of these rules is an invalid field.
pub fn decode_program_headers(data: &[u8]) -> (r: Result<Vec<ProgramHeader>, ElfError>)
    ensures
        viewed(r) == spec_program_headers(data@),
        r is Ok ==> spec_file_header(data@) is Ok,
        ident_error(data@) matches Some(e) ==> r == Err::<Vec<ProgramHeader>, ElfError>(e),
        r matches Ok(v) ==> all_consistent(v@),
        r matches Ok(v) ==> v@.len() == spec_file_header(data@)->Ok_0.e_phnum,
        spec_file_header(data@) matches Ok(h) ==> {
            &&& h.e_phnum == 0 ==> (r matches Ok(v) && v@.len() == 0)
            &&& table_is_missing(h.e_phoff, h.e_phnum, h.e_phentsize, data@.len()) ==> r == Err::<
                Vec<ProgramHeader>,
                ElfError,
            >(ElfError::TruncatedTable)
        },
{
    let h = decode_file_header(data)?;
    if h.e_phnum == 0 {
        return Ok(Vec::new());
    }
    if h.e_phoff == 0 || !table_fits(h.e_phoff, h.e_phnum, h.e_phentsize, data.len() as u64) {
        return Err(ElfError::TruncatedTable);
    }
    let segments = match stream_segments(data) {
        Ok(v) => v,
        Err(e) => {
            return Err(open_error(data.len(), &e));
        },
    };
    if segments.len() != h.e_phnum as usize {
        return Err(ElfError::InvalidBitfield);
    }
    let mut i: usize = 0;
    while i < segments.len()
        invariant
            i <= segments.len(),
            segments@.len() == h.e_phnum,
            spec_file_header(data@) == Ok::<FileHeader, ElfError>(h),
            h.e_phnum != 0,
            !table_is_missing(h.e_phoff, h.e_phnum, h.e_phentsize, data@.len()),
            opened_segments(data@) == Ok::<Seq<ProgramHeader>, ParseError>(segments@),
            ident_error(data@) is None,
            forall|j: int| 0 <= j < i ==> spec_segment_is_consistent(#[trigger] segments@[j]),
        decreases segments.len() - i,
    {
        if !segment_is_consistent(&segments[i]) {
            proof {
                assert(!spec_segment_is_consistent(segments@[i as int]));
            }
            return Err(ElfError::InvalidBitfield);
        }
        i += 1;
    }
    Ok(segments)
}

/// Decoding the section headers of the same bytes twice gives the same
/// outcome: the same headers in the same order, or the same error. Nothing
/// that is decoded in between changes it, since every outcome is a function
/// of the bytes alone.
pub proof fn section_headers_are_repeatable(
    data: Seq<u8>,
    first: Result<Vec<SectionHeader>, ElfError>,
    second: Result<Vec<SectionHeader>, ElfError>,
)
    requires
        viewed(first) == spec_section_headers(data),
        viewed(second) == spec_section_headers(data),
    ensures
        viewed(first) == viewed(second),
        first is Ok <==> second is Ok,
        first matches Ok(a) ==> second matches Ok(b) && a@ == b@,
        first matches Err(e) ==> second == Err::<Vec<SectionHeader>, ElfError>(e),
{
}

} // verus!
