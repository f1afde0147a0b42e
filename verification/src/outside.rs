//! The calls into the `elf` crate.
//!
//! Every function in this file makes one kind of call and copies what comes
//! back into the library's own types. Its contract is taken on trust from the
//! crate's source: nothing in this file is proved. Where the crate's answer
//! takes pages to state, the contract gives it a name, a function of the
//! file's bytes, and says of it only what the source plainly shows.
//!
//! Each call opens a stream of its own over the bytes, as
//! `ElfStream::open_stream` does for a file, so every call starts by reading
//! the header and the two header tables.

use crate::chains::chains_sound_upto;
use crate::dynamic::{first_segment_of_type, has_segment_type};
use crate::error::ParseFault;
use crate::fields::{spec_u16_at, spec_u32_at, spec_u64_at};
use crate::model::{
    ByteOrder, Class, DynamicEntry, FileHeader, Note, ProgramHeader, Rel, Rela, SectionHeader, Symbol,
};
use crate::sections::first_of_type;
use crate::strtab::decoded_name;
use crate::text::spec_hex;
use elf::endian::AnyEndian;
use elf::note::Note as ElfNote;
use elf::string_table::StringTable;
use elf::ElfStream;
use elf::ParseError;
use std::io::Cursor;
use vstd::prelude::*;

verus! {

#[verifier::external_type_specification]
#[verifier::external_body]
pub struct ExParseError(ParseError);

/// The variant of a `ParseError`, with the payloads that are plain integers.
pub uninterp spec fn fault_kind(e: ParseError) -> ParseFault;

/// What `ElfStream::section_headers` holds after `open_stream` on these bytes.
pub uninterp spec fn opened_sections(data: Seq<u8>) -> Result<Seq<SectionHeader>, ParseError>;

/// What `ElfStream::segments` holds after `open_stream` on these bytes.
pub uninterp spec fn opened_segments(data: Seq<u8>) -> Result<Seq<ProgramHeader>, ParseError>;

/// The fault that the identification bytes alone force, if any: `open_stream`
/// reads the first 16 bytes, then checks the magic number, the version byte,
/// the class byte and the byte-order byte, in that order, before anything else.
pub open spec fn ident_fault(data: Seq<u8>) -> Option<ParseFault> {
    if data.len() < 16 {
        Some(ParseFault::BadOffset(16))
    } else if !(data[0] == 0x7f && data[1] == 0x45 && data[2] == 0x4c && data[3] == 0x46) {
        Some(ParseFault::BadMagic)
    } else if data[6] != 1 {
        Some(ParseFault::UnsupportedVersion)
    } else if !(data[4] == 1 || data[4] == 2) {
        Some(ParseFault::UnsupportedElfClass(data[4]))
    } else if !(data[5] == 1 || data[5] == 2) {
        Some(ParseFault::UnsupportedElfEndianness(data[5]))
    } else {
        None
    }
}

/// Whether a call on these bytes failed as the identification bytes force it
/// to, where they force a failure.
pub open spec fn fails_as_ident<T>(data: Seq<u8>, r: Result<T, ParseError>) -> bool {
    ident_fault(data) matches Some(f) ==> (r matches Err(e) && fault_kind(e) == f)
}

/// A result that holds a vector, with the vector taken by its view.
pub open spec fn seq_result<T>(r: Result<Vec<T>, ParseError>) -> Result<Seq<T>, ParseError> {
    match r {
        Ok(v) => Ok(v@),
        Err(e) => Err(e),
    }
}

/// Tells the variants of `ParseError` apart. The two reports of a wrong type
/// tag share a fault, as do the two of a read beyond the bytes and the two of
/// an integer that does not fit.
#[verifier::external_body]
pub(crate) fn fault_of(e: &ParseError) -> (f: ParseFault)
    ensures
        f == fault_kind(*e),
{
    match e {
        ParseError::BadMagic(_) => ParseFault::BadMagic,
        ParseError::UnsupportedElfClass(c) => ParseFault::UnsupportedElfClass(*c),
        ParseError::UnsupportedElfEndianness(d) => ParseFault::UnsupportedElfEndianness(*d),
        ParseError::UnsupportedVersion(_) => ParseFault::UnsupportedVersion,
        ParseError::BadOffset(o) => ParseFault::BadOffset(*o),
        ParseError::StringTableMissingNul(o) => ParseFault::StringTableMissingNul(*o),
        ParseError::BadEntsize(_) => ParseFault::BadEntsize,
        ParseError::UnexpectedSectionType(_) | ParseError::UnexpectedSegmentType(_) => ParseFault::UnexpectedType,
        ParseError::UnexpectedAlignment(_) => ParseFault::UnexpectedAlignment,
        ParseError::SliceReadError(_) | ParseError::TryFromSliceError(_) => ParseFault::SliceReadError,
        ParseError::IntegerOverflow | ParseError::TryFromIntError(_) => ParseFault::IntegerOverflow,
        ParseError::Utf8Error(_) => ParseFault::Utf8Error,
        ParseError::IOError(_) => ParseFault::IOError,
    }
}

/// The size of the file header of a file with this class byte: 52 bytes in a
/// 32-bit file, 64 in a 64-bit file.
pub open spec fn header_size(class_byte: u8) -> int {
    if class_byte == 1 {
        52
    } else {
        64
    }
}

/// The header that the bytes of a file hold: the class, byte order, OS ABI
/// and ABI version of bytes 4, 5, 7 and 8, then the fields behind the 16
/// identification bytes, at the offsets of the file's class and in the
/// file's byte order. Addresses and offsets take four bytes in a 32-bit file
/// and eight in a 64-bit file.
pub open spec fn header_carries(data: Seq<u8>, h: FileHeader) -> bool {
    let wide = h.class == Class::Elf64;
    let o = h.order;
    let shift: int = if wide { 12 } else { 0 };
    &&& h.class == (if data[4] == 1 { Class::Elf32 } else { Class::Elf64 })
    &&& h.order == (if data[5] == 1 { ByteOrder::Little } else { ByteOrder::Big })
    &&& h.osabi == data[7]
    &&& h.abiversion == data[8]
    &&& h.e_type == spec_u16_at(data, 16, o)
    &&& h.e_machine == spec_u16_at(data, 18, o)
    &&& h.version == spec_u32_at(data, 20, o)
    &&& h.e_entry == (if wide { spec_u64_at(data, 24, o) } else { spec_u32_at(data, 24, o) })
    &&& h.e_phoff == (if wide { spec_u64_at(data, 32, o) } else { spec_u32_at(data, 28, o) })
    &&& h.e_shoff == (if wide { spec_u64_at(data, 40, o) } else { spec_u32_at(data, 32, o) })
    &&& h.e_flags == spec_u32_at(data, 36 + shift, o)
    &&& h.e_ehsize == spec_u16_at(data, 40 + shift, o)
    &&& h.e_phentsize == spec_u16_at(data, 42 + shift, o)
    &&& h.e_phnum == spec_u16_at(data, 44 + shift, o)
    &&& h.e_shentsize == spec_u16_at(data, 46 + shift, o)
    &&& h.e_shnum == spec_u16_at(data, 48 + shift, o)
    &&& h.e_shstrndx == spec_u16_at(data, 50 + shift, o)
}

/// Whether the file holds a whole header behind identification bytes that
/// are in order.
pub open spec fn header_present(data: Seq<u8>) -> bool {
    ident_fault(data) is None && data.len() >= header_size(data[4])
}

/// What is claimed of a header parsed from the first bytes of a file of at
/// least 16 bytes: the identification bytes fail as `ident_fault` says; a
/// file that ends inside the header is a read beyond the bytes; any other
/// file gives the header that `header_carries` describes.
pub open spec fn parses_header(data: Seq<u8>, r: Result<FileHeader, ParseError>) -> bool {
    &&& fails_as_ident(data, r)
    &&& ident_fault(data) is None && data.len() < header_size(data[4]) ==> (r matches Err(e)
        && fault_kind(e) == ParseFault::SliceReadError)
    &&& header_present(data) ==> (r matches Ok(h) && header_carries(data, h))
}

/// `elf::file::parse_ident` on the bytes, then `FileHeader::parse_tail` on
/// what follows the 16 identification bytes: the two calls with which
/// `ElfStream::open_stream` decodes the header, without the tables that it
/// goes on to read. Claimed: what `parses_header` says. `parse_ident` indexes
/// the first 16 bytes unchecked, so shorter input is kept out.
#[verifier::external_body]
pub(crate) fn parse_header(data: &[u8]) -> (r: Result<FileHeader, ParseError>)
    requires
        data@.len() >= 16,
    ensures
        parses_header(data@, r),
{
    let ident = elf::file::parse_ident::<AnyEndian>(data)?;
    let h = elf::file::FileHeader::parse_tail(ident, &data[16..])?;
    Ok(FileHeader {
        class: match h.class { elf::file::Class::ELF32 => Class::Elf32, elf::file::Class::ELF64 => Class::Elf64 },
        order: match h.endianness { AnyEndian::Little => ByteOrder::Little, AnyEndian::Big => ByteOrder::Big },
        version: h.version, osabi: h.osabi, abiversion: h.abiversion,
        e_type: h.e_type, e_machine: h.e_machine, e_entry: h.e_entry,
        e_phoff: h.e_phoff, e_shoff: h.e_shoff, e_flags: h.e_flags, e_ehsize: h.e_ehsize,
        e_phentsize: h.e_phentsize, e_phnum: h.e_phnum, e_shentsize: h.e_shentsize,
        e_shnum: h.e_shnum, e_shstrndx: h.e_shstrndx,
    })
}

/// `ElfStream::open_stream`, then `section_headers`. Claimed: the result is a
/// function of the bytes; opening fails as the identification bytes say, and
/// a file that opens holds a whole header.
#[verifier::external_body]
pub(crate) fn stream_sections(data: &[u8]) -> (r: Result<Vec<SectionHeader>, ParseError>)
    ensures
        seq_result(r) == opened_sections(data@),
        fails_as_ident(data@, r),
        r is Ok ==> header_present(data@),
{
    let f = ElfStream::<AnyEndian, _>::open_stream(Cursor::new(data))?;
    Ok(f.section_headers().iter().map(|s| SectionHeader {
        sh_name: s.sh_name, sh_type: s.sh_type, sh_flags: s.sh_flags, sh_addr: s.sh_addr,
        sh_offset: s.sh_offset, sh_size: s.sh_size, sh_link: s.sh_link, sh_info: s.sh_info,
        sh_addralign: s.sh_addralign, sh_entsize: s.sh_entsize,
    }).collect())
}

/// `ElfStream::open_stream`, then `segments`. Claimed: the result is a function
/// of the bytes; opening fails as the identification bytes say, and a file
/// that opens holds a whole header and opens for `section_headers` too.
#[verifier::external_body]
pub(crate) fn stream_segments(data: &[u8]) -> (r: Result<Vec<ProgramHeader>, ParseError>)
    ensures
        seq_result(r) == opened_segments(data@),
        fails_as_ident(data@, r),
        r is Ok ==> header_present(data@),
        r is Ok <==> opened_sections(data@) is Ok,
{
    let f = ElfStream::<AnyEndian, _>::open_stream(Cursor::new(data))?;
    Ok(f.segments().iter().map(|p| ProgramHeader {
        p_type: p.p_type, p_offset: p.p_offset, p_vaddr: p.p_vaddr, p_paddr: p.p_paddr,
        p_filesz: p.p_filesz, p_memsz: p.p_memsz, p_flags: p.p_flags, p_align: p.p_align,
    }).collect())
}

/// `StringTable::new(blob).get(offset)`, copied into a `String`. Claimed, as
/// the method's source has it: an empty blob or an offset beyond its end is a
/// bad offset; a name that no zero byte ends is a missing terminator; bytes
/// that are not UTF-8 are refused; otherwise the name is the text of the bytes
/// from the offset up to the first zero byte.
#[verifier::external_body]
pub(crate) fn strtab_get(blob: &[u8], offset: usize) -> (r: Result<String, ParseError>)
    ensures
        match decoded_name(blob@, offset as int) {
            Ok(name) => r matches Ok(s) && s@ == name,
            Err(f) => r matches Err(e) && fault_kind(e) == f,
        },
{
    Ok(StringTable::new(blob).get(offset)?.to_string())
}

/// What `ElfStream::section_data` gives for the section at `index` of a file
/// with these bytes: the section's bytes, without the compression header
/// where it has one.
pub uninterp spec fn section_contents(data: Seq<u8>, index: int) -> Result<Seq<u8>, ParseError>;

/// Whether the section's bytes lie in the file as they are: it has file
/// content, is not compressed, and ends inside the file.
pub open spec fn stored_plainly(len: nat, s: SectionHeader) -> bool {
    &&& s.sh_type != 8
    &&& s.sh_flags & 0x800 == 0
    &&& s.sh_offset + s.sh_size <= len
}

/// What is claimed of the bytes read for the section at `index`, where the
/// file has such a section: one without file content is empty, and one that
/// is stored plainly is that range of the file.
pub open spec fn reads_section(data: Seq<u8>, index: int, r: Result<Seq<u8>, ParseError>) -> bool {
    opened_sections(data) matches Ok(s) ==> {
        &&& s[index].sh_type == 8 ==> (r matches Ok(v) && v.len() == 0)
        &&& stored_plainly(data.len(), s[index]) ==> (r matches Ok(v) && v == data.subrange(
            s[index].sh_offset as int,
            s[index].sh_offset + s[index].sh_size,
        ))
    }
}

/// `ElfStream::open_stream`, then `section_data` for the header at `index` of
/// `section_headers`. Claimed: the result is a function of the bytes and the
/// index; opening fails as the identification bytes say; a section without
/// file content is empty; one that is stored plainly is that range of the
/// file.
#[verifier::external_body]
pub(crate) fn stream_section_data(data: &[u8], index: usize) -> (r: Result<Vec<u8>, ParseError>)
    requires
        opened_sections(data@) matches Ok(s) ==> index < s.len(),
    ensures
        seq_result(r) == section_contents(data@, index as int),
        fails_as_ident(data@, r),
        r is Ok ==> opened_sections(data@) is Ok,
        reads_section(data@, index as int, seq_result(r)),
{
    let mut f = ElfStream::<AnyEndian, _>::open_stream(Cursor::new(data))?;
    let shdr = f.section_headers()[index];
    Ok(f.section_data(&shdr)?.0.to_vec())
}

/// A result that may hold a vector, with the vector taken by its view.
pub open spec fn opt_seq_result<T>(r: Result<Option<Vec<T>>, ParseError>) -> Result<
    Option<Seq<T>>,
    ParseError,
> {
    match r {
        Ok(Some(v)) => Ok(Some(v@)),
        Ok(None) => Ok(None),
        Err(e) => Err(e),
    }
}

/// Whether some section of the table has this type tag.
pub open spec fn has_type(sections: Seq<SectionHeader>, sh_type: u32) -> bool {
    exists|i: int| 0 <= i < sections.len() && (#[trigger] sections[i]).sh_type == sh_type
}

/// The symbols that `ElfStream::symbol_table` yields for these bytes.
pub uninterp spec fn static_symbols(data: Seq<u8>) -> Result<Option<Seq<Symbol>>, ParseError>;

/// The symbols that `ElfStream::dynamic_symbol_table` yields for these bytes.
pub uninterp spec fn dynamic_symbols(data: Seq<u8>) -> Result<Option<Seq<Symbol>>, ParseError>;

/// What is claimed of a symbol table read from the first section of type
/// `sh_type`: in a file that opens, it is absent exactly when no section has
/// that type; it holds as many symbols as whole symbols of the class's size
/// (16 bytes in a 32-bit file, 24 in a 64-bit file) fit in that section; and
/// each symbol's binding and type are below 16 and its visibility below 4, as
/// the accessors shift and mask them.
pub open spec fn reads_symbols(data: Seq<u8>, sh_type: u32, r: Result<Option<Seq<Symbol>>, ParseError>) -> bool {
    &&& r is Ok ==> opened_sections(data) is Ok
    &&& opened_sections(data) matches Ok(s) ==> ((r matches Ok(None)) <==> !has_type(s, sh_type))
    &&& opened_sections(data) matches Ok(s) ==> (r matches Ok(Some(v)) ==> v.len() == s[first_of_type(
        s,
        sh_type,
    )].sh_size as int / (if data[4] == 2 { 24int } else { 16int }))
    &&& r matches Ok(Some(v)) ==> forall|i: int| 0 <= i < v.len() ==> {
        &&& (#[trigger] v[i]).st_bind < 16
        &&& v[i].st_symtype < 16
        &&& v[i].st_vis < 4
    }
}

/// `ElfStream::open_stream`, then `symbol_table`, each symbol with its public
/// fields and what `st_bind`, `st_symtype` and `st_vis` give for it. Claimed:
/// the result is a function of the bytes; opening fails as the identification
/// bytes say; and what `reads_symbols` says of the section type 2.
#[verifier::external_body]
pub(crate) fn stream_symbol_table(data: &[u8]) -> (r: Result<Option<Vec<Symbol>>, ParseError>)
    ensures
        opt_seq_result(r) == static_symbols(data@),
        fails_as_ident(data@, r),
        reads_symbols(data@, 2, opt_seq_result(r)),
{
    let mut f = ElfStream::<AnyEndian, _>::open_stream(Cursor::new(data))?;
    Ok(f.symbol_table()?.map(|(t, _)| t.iter().map(|s| Symbol {
        st_name: s.st_name, st_shndx: s.st_shndx, st_bind: s.st_bind(),
        st_symtype: s.st_symtype(), st_vis: s.st_vis(), st_value: s.st_value, st_size: s.st_size,
    }).collect()))
}

/// `ElfStream::open_stream`, then `dynamic_symbol_table`, each symbol with its
/// public fields and what `st_bind`, `st_symtype` and `st_vis` give for it.
/// Claimed: the result is a function of the bytes; opening fails as the
/// identification bytes say; and what `reads_symbols` says of the section
/// type 11.
#[verifier::external_body]
pub(crate) fn stream_dynamic_symbol_table(data: &[u8]) -> (r: Result<Option<Vec<Symbol>>, ParseError>)
    ensures
        opt_seq_result(r) == dynamic_symbols(data@),
        fails_as_ident(data@, r),
        reads_symbols(data@, 11, opt_seq_result(r)),
{
    let mut f = ElfStream::<AnyEndian, _>::open_stream(Cursor::new(data))?;
    Ok(f.dynamic_symbol_table()?.map(|(t, _)| t.iter().map(|s| Symbol {
        st_name: s.st_name, st_shndx: s.st_shndx, st_bind: s.st_bind(),
        st_symtype: s.st_symtype(), st_vis: s.st_vis(), st_value: s.st_value, st_size: s.st_size,
    }).collect()))
}

/// The entries that `ElfStream::dynamic` yields for these bytes: every
/// tag/value pair of the dynamic section, a null tag or not.
pub uninterp spec fn dynamic_table(data: Seq<u8>) -> Result<Option<Seq<DynamicEntry>>, ParseError>;

/// What is claimed of the dynamic table read. In a file that opens with
/// sections, it is absent exactly when no section has type 6, and else holds
/// as many entries as whole entries of the class's size (8 bytes in a 32-bit
/// file, 16 in a 64-bit file) fit in the first such section. In a file that
/// opens without sections, the same holds of the segments of type 2 and the
/// bytes that the first of them has in the file.
pub open spec fn reads_dynamic(data: Seq<u8>, r: Result<Option<Seq<DynamicEntry>>, ParseError>) -> bool {
    let width = if data[4] == 2 { 16int } else { 8int };
    &&& r is Ok ==> opened_sections(data) is Ok
    &&& opened_sections(data) matches Ok(s) ==> (s.len() > 0 ==> {
        &&& (r matches Ok(None)) <==> !has_type(s, 6)
        &&& r matches Ok(Some(v)) ==> v.len() == s[first_of_type(s, 6)].sh_size as int / width
    })
    &&& (opened_sections(data) matches Ok(s) && s.len() == 0) ==> (opened_segments(
        data,
    ) matches Ok(p) && {
        &&& (r matches Ok(None)) <==> !has_segment_type(p, 2)
        &&& r matches Ok(Some(v)) ==> v.len() == p[first_segment_of_type(p, 2)].p_filesz as int
            / width
    })
}

/// `ElfStream::open_stream`, then `dynamic`, each entry with its tag and what
/// `d_val` gives for it. Claimed: the result is a function of the bytes;
/// opening fails as the identification bytes say; and what `reads_dynamic`
/// says.
#[verifier::external_body]
pub(crate) fn stream_dynamic(data: &[u8]) -> (r: Result<Option<Vec<DynamicEntry>>, ParseError>)
    ensures
        opt_seq_result(r) == dynamic_table(data@),
        fails_as_ident(data@, r),
        reads_dynamic(data@, opt_seq_result(r)),
{
    let mut f = ElfStream::<AnyEndian, _>::open_stream(Cursor::new(data))?;
    Ok(f.dynamic()?.map(|t| t.iter().map(|d| DynamicEntry { d_tag: d.d_tag, d_val: d.d_val() }).collect()))
}

/// The records that `ElfStream::section_data_as_rels` yields for the section
/// at `index`.
pub uninterp spec fn rel_records(data: Seq<u8>, index: int) -> Result<Seq<Rel>, ParseError>;

/// The records that `ElfStream::section_data_as_relas` yields for the section
/// at `index`.
pub uninterp spec fn rela_records(data: Seq<u8>, index: int) -> Result<Seq<Rela>, ParseError>;

/// The notes that `ElfStream::section_data_as_notes` yields for the section at
/// `index`.
pub uninterp spec fn note_records(data: Seq<u8>, index: int) -> Result<Seq<Note>, ParseError>;

/// What is claimed of the records read from the section at `index`, where the
/// file opens, the section has the type asked for and it ends inside the
/// file: the call succeeds, and it yields as many records as whole records
/// of the class's size (`narrow` bytes in a 32-bit file, `wide` in a 64-bit
/// file) fit in the section, since the iterator decodes records until fewer
/// bytes are left than a record takes.
pub open spec fn reads_records<T>(
    data: Seq<u8>,
    index: int,
    sh_type: u32,
    narrow: int,
    wide: int,
    r: Result<Seq<T>, ParseError>,
) -> bool {
    (opened_sections(data) is Ok && opened_sections(data)->Ok_0[index].sh_type == sh_type
        && opened_sections(data)->Ok_0[index].sh_offset + opened_sections(
        data,
    )->Ok_0[index].sh_size <= data.len()) ==> (r matches Ok(v) && v.len() == opened_sections(
        data,
    )->Ok_0[index].sh_size as int / (if data[4] == 2 {
        wide
    } else {
        narrow
    }))
}

/// What is claimed of the notes read from the section at `index`: where the
/// file opens, the section has type 7 and it ends inside the file, the call
/// succeeds.
pub open spec fn reads_notes(data: Seq<u8>, index: int, r: Result<Seq<Note>, ParseError>) -> bool {
    (opened_sections(data) is Ok && opened_sections(data)->Ok_0[index].sh_type == 7
        && opened_sections(data)->Ok_0[index].sh_offset + opened_sections(
        data,
    )->Ok_0[index].sh_size <= data.len()) ==> r is Ok
}

/// `ElfStream::open_stream`, then `section_data_as_rels` for the header at
/// `index` of `section_headers`. Claimed: the result is a function of the
/// bytes and the index; opening fails as the identification bytes say; and
/// what `reads_records` says of type 9 and records of 8 or 16 bytes.
#[verifier::external_body]
pub(crate) fn stream_rels(data: &[u8], index: usize) -> (r: Result<Vec<Rel>, ParseError>)
    requires
        opened_sections(data@) matches Ok(s) ==> index < s.len(),
    ensures
        seq_result(r) == rel_records(data@, index as int),
        fails_as_ident(data@, r),
        reads_records(data@, index as int, 9, 8, 16, seq_result(r)),
{
    let mut f = ElfStream::<AnyEndian, _>::open_stream(Cursor::new(data))?;
    let shdr = f.section_headers()[index];
    Ok(f.section_data_as_rels(&shdr)?.map(|x| Rel {
        r_offset: x.r_offset, r_sym: x.r_sym, r_type: x.r_type,
    }).collect())
}

/// `ElfStream::open_stream`, then `section_data_as_relas` for the header at
/// `index` of `section_headers`. Claimed: the result is a function of the
/// bytes and the index; opening fails as the identification bytes say; and
/// what `reads_records` says of type 4 and records of 12 or 24 bytes.
#[verifier::external_body]
pub(crate) fn stream_relas(data: &[u8], index: usize) -> (r: Result<Vec<Rela>, ParseError>)
    requires
        opened_sections(data@) matches Ok(s) ==> index < s.len(),
    ensures
        seq_result(r) == rela_records(data@, index as int),
        fails_as_ident(data@, r),
        reads_records(data@, index as int, 4, 12, 24, seq_result(r)),
{
    let mut f = ElfStream::<AnyEndian, _>::open_stream(Cursor::new(data))?;
    let shdr = f.section_headers()[index];
    Ok(f.section_data_as_relas(&shdr)?.map(|x| Rela {
        r_offset: x.r_offset, r_sym: x.r_sym, r_type: x.r_type, r_addend: x.r_addend,
    }).collect())
}

/// `ElfStream::open_stream`, then `section_data_as_notes` for the header at
/// `index` of `section_headers`, each note copied variant by variant.
/// Claimed: the result is a function of the bytes and the index; opening
/// fails as the identification bytes say; and what `reads_notes` says.
#[verifier::external_body]
pub(crate) fn stream_notes(data: &[u8], index: usize) -> (r: Result<Vec<Note>, ParseError>)
    requires
        opened_sections(data@) matches Ok(s) ==> index < s.len(),
    ensures
        seq_result(r) == note_records(data@, index as int),
        fails_as_ident(data@, r),
        reads_notes(data@, index as int, seq_result(r)),
{
    let mut f = ElfStream::<AnyEndian, _>::open_stream(Cursor::new(data))?;
    let shdr = f.section_headers()[index];
    Ok(f.section_data_as_notes(&shdr)?.map(|n| match n {
        ElfNote::GnuAbiTag(t) => Note::AbiTag { os: t.os, major: t.major, minor: t.minor, subminor: t.subminor },
        ElfNote::GnuBuildId(b) => Note::BuildId { id: b.0.to_vec() },
        ElfNote::Unknown(a) => Note::Generic { n_type: a.n_type, name: a.name.to_string(), desc: a.desc.to_vec() },
    }).collect())
}

/// What `SymbolVersionTable::get_requirement` yields for the dynamic symbol
/// at `index`, on the table that `ElfStream::symbol_version_table` gives:
/// `None` where the file has no version tables, `Some(None)` where they hold
/// no entry for the symbol, else the version's name and whether the symbol is
/// hidden.
pub uninterp spec fn required_version(data: Seq<u8>, index: int) -> Result<
    Option<Option<(Seq<char>, bool)>>,
    ParseError,
>;

/// What `SymbolVersionTable::get_definition` yields for the dynamic symbol at
/// `index`, in the same form, with every name of the definition in the order
/// in which the definition lists them.
pub uninterp spec fn defined_version(data: Seq<u8>, index: int) -> Result<
    Option<Option<(Seq<Seq<char>>, bool)>>,
    ParseError,
>;

/// A requirement lookup's outcome, with the name taken by its view.
pub open spec fn answer_view(r: Result<Option<Option<(String, bool)>>, ParseError>) -> Result<
    Option<Option<(Seq<char>, bool)>>,
    ParseError,
> {
    match r {
        Ok(Some(Some((name, hidden)))) => Ok(Some(Some((name@, hidden)))),
        Ok(Some(None)) => Ok(Some(None)),
        Ok(None) => Ok(None),
        Err(e) => Err(e),
    }
}

/// A definition lookup's outcome, with every name taken by its view.
pub open spec fn names_view(r: Result<Option<Option<(Vec<String>, bool)>>, ParseError>) -> Result<
    Option<Option<(Seq<Seq<char>>, bool)>>,
    ParseError,
> {
    match r {
        Ok(Some(Some((names, hidden)))) => Ok(
            Some(Some((Seq::new(names@.len(), |i: int| names@[i]@), hidden))),
        ),
        Ok(Some(None)) => Ok(Some(None)),
        Ok(None) => Ok(None),
        Err(e) => Err(e),
    }
}

/// Whether the version tables of a file can be walked: in a file that opens,
/// every chain of needed or defined versions among its sections is sound, in
/// the byte order that byte 5 names.
pub open spec fn walkable(data: Seq<u8>) -> bool {
    opened_sections(data) matches Ok(s) ==> chains_sound_upto(
        data,
        s,
        if data[5] == 1 { ByteOrder::Little } else { ByteOrder::Big },
        s.len() as int,
    )
}

/// What is claimed of a version lookup besides its name: in a file that
/// opens, it finds no version tables exactly when no section has the type of
/// the version index table, 0x6fffffff.
pub open spec fn reads_versions<T>(data: Seq<u8>, r: Result<Option<T>, ParseError>) -> bool {
    &&& r is Ok ==> opened_sections(data) is Ok
    &&& opened_sections(data) matches Ok(s) ==> ((r matches Ok(None)) <==> !has_type(s, 0x6fffffff))
}

/// `ElfStream::open_stream`, `symbol_version_table`, then `get_requirement`
/// for the symbol at `index`: the requirement's name and its hidden flag.
/// Claimed: the result is a function of the bytes and the index; opening
/// fails as the identification bytes say; and what `reads_versions` says.
/// The crate's walk over the version tables adds the distances that the
/// records hold to a `usize` unchecked, so the call is made only where every
/// chain is sound: then no offset of the walk exceeds the file's length.
#[verifier::external_body]
pub(crate) fn stream_requirement(data: &[u8], index: usize) -> (r: Result<
    Option<Option<(String, bool)>>,
    ParseError,
>)
    requires
        walkable(data@),
    ensures
        answer_view(r) == required_version(data@, index as int),
        fails_as_ident(data@, r),
        reads_versions(data@, r),
{
    let mut f = ElfStream::<AnyEndian, _>::open_stream(Cursor::new(data))?;
    let table = match f.symbol_version_table()? {
        Some(table) => table,
        None => return Ok(None),
    };
    Ok(Some(table.get_requirement(index)?.map(|q| (q.name.to_string(), q.hidden))))
}

/// `ElfStream::open_stream`, `symbol_version_table`, then `get_definition` for
/// the symbol at `index`: every name that the definition's `names` yield, one
/// for one, and its hidden flag. Claimed: the result is a function of the
/// bytes and the index; opening fails as the identification bytes say; and
/// what `reads_versions` says. As for `stream_requirement`, the call is made
/// only where every chain is sound.
#[verifier::external_body]
pub(crate) fn stream_definition(data: &[u8], index: usize) -> (r: Result<
    Option<Option<(Vec<String>, bool)>>,
    ParseError,
>)
    requires
        walkable(data@),
    ensures
        names_view(r) == defined_version(data@, index as int),
        fails_as_ident(data@, r),
        reads_versions(data@, r),
{
    let mut f = ElfStream::<AnyEndian, _>::open_stream(Cursor::new(data))?;
    let table = match f.symbol_version_table()? {
        Some(table) => table,
        None => return Ok(None),
    };
    Ok(Some(match table.get_definition(index)? {
        Some(d) => Some((d.names.map(|n| n.map(str::to_string)).collect::<Result<_, _>>()?, d.hidden)),
        None => None,
    }))
}

/// The text that `elf::to_str::e_type_to_string` gives for the file type:
/// the name of one of the five
/// file types, or the number in brackets.
pub open spec fn e_type_text(value: u16) -> Seq<char> {
    if value == 0 {
        "ET_NONE"@
    } else if value == 1 {
        "ET_REL"@
    } else if value == 2 {
        "ET_EXEC"@
    } else if value == 3 {
        "ET_DYN"@
    } else if value == 4 {
        "ET_CORE"@
    } else {
        "e_type("@ + spec_hex(value as nat, false) + ")"@
    }
}

/// `elf::to_str::e_type_to_string`, with what its source returns for each
/// value.
#[verifier::external_body]
pub(crate) fn e_type_name(value: u16) -> (r: String)
    ensures
        r@ == e_type_text(value),
{
    elf::to_str::e_type_to_string(value)
}

/// The text that `elf::to_str::e_osabi_to_string` gives for the OS ABI:
/// the name of one of the
/// seventeen it knows, or the number in brackets.
pub open spec fn e_osabi_text(value: u8) -> Seq<char> {
    if value == 0 {
        "ELFOSABI_SYSV"@
    } else if value == 1 {
        "ELFOSABI_HPUX"@
    } else if value == 2 {
        "ELFOSABI_NETBSD"@
    } else if value == 3 {
        "ELFOSABI_LINUX"@
    } else if value == 6 {
        "ELFOSABI_SOLARIS"@
    } else if value == 7 {
        "ELFOSABI_AIX"@
    } else if value == 8 {
        "ELFOSABI_IRIX"@
    } else if value == 9 {
        "ELFOSABI_FREEBSD"@
    } else if value == 10 {
        "ELFOSABI_TRU64"@
    } else if value == 11 {
        "ELFOSABI_MODESTO"@
    } else if value == 12 {
        "ELFOSABI_OPENBSD"@
    } else if value == 13 {
        "ELFOSABI_OPENVMS"@
    } else if value == 14 {
        "ELFOSABI_NSK"@
    } else if value == 15 {
        "ELFOSABI_AROS"@
    } else if value == 16 {
        "ELFOSABI_FENIXOS"@
    } else if value == 17 {
        "ELFOSABI_CLOUDABI"@
    } else if value == 18 {
        "ELFOSABI_OPENVOS"@
    } else {
        "e_osabi("@ + spec_hex(value as nat, false) + ")"@
    }
}

/// `elf::to_str::e_osabi_to_string`, with what its source returns for each
/// value.
#[verifier::external_body]
pub(crate) fn e_osabi_name(value: u8) -> (r: String)
    ensures
        r@ == e_osabi_text(value),
{
    elf::to_str::e_osabi_to_string(value)
}

/// The text that `elf::to_str::e_machine_to_string` gives for the machine.
pub uninterp spec fn e_machine_text(value: u16) -> Seq<char>;

/// `elf::to_str::e_machine_to_string`: a function of the number alone, the
/// constant's name or a text that holds the number. Its table of names is
/// not restated here.
#[verifier::external_body]
pub(crate) fn e_machine_name(value: u16) -> (r: String)
    ensures
        r@ == e_machine_text(value),
{
    elf::to_str::e_machine_to_string(value)
}

/// The text that `elf::to_str::p_type_to_string` gives for a segment type:
/// the name of one of
/// the twelve it knows, or the number in brackets.
pub open spec fn p_type_text(value: u32) -> Seq<char> {
    if value == 0 {
        "PT_NULL"@
    } else if value == 1 {
        "PT_LOAD"@
    } else if value == 2 {
        "PT_DYNAMIC"@
    } else if value == 3 {
        "PT_INTERP"@
    } else if value == 4 {
        "PT_NOTE"@
    } else if value == 5 {
        "PT_SHLIB"@
    } else if value == 6 {
        "PT_PHDR"@
    } else if value == 7 {
        "PT_TLS"@
    } else if value == 0x6474e550 {
        "PT_GNU_EH_FRAME"@
    } else if value == 0x6474e551 {
        "PT_GNU_STACK"@
    } else if value == 0x6474e552 {
        "PT_GNU_RELRO"@
    } else if value == 0x6474e553 {
        "PT_GNU_PROPERTY"@
    } else {
        "p_type("@ + spec_hex(value as nat, false) + ")"@
    }
}

/// `elf::to_str::p_type_to_string`, with what its source returns for each
/// value.
#[verifier::external_body]
pub(crate) fn p_type_name(value: u32) -> (r: String)
    ensures
        r@ == p_type_text(value),
{
    elf::to_str::p_type_to_string(value)
}

/// The text that `elf::to_str::p_flags_to_string` gives for a segment's flags:
/// below 8, a letter
/// or a blank for each of read (4), write (2) and execute (1), in that order;
/// else the number in brackets.
pub open spec fn p_flags_text(value: u32) -> Seq<char> {
    if value == 0 {
        "   "@
    } else if value == 1 {
        "  E"@
    } else if value == 2 {
        " W "@
    } else if value == 3 {
        " WE"@
    } else if value == 4 {
        "R  "@
    } else if value == 5 {
        "R E"@
    } else if value == 6 {
        "RW "@
    } else if value == 7 {
        "RWE"@
    } else {
        "p_flags("@ + spec_hex(value as nat, false) + ")"@
    }
}

/// `elf::to_str::p_flags_to_string`, with what its source returns for each
/// value.
#[verifier::external_body]
pub(crate) fn p_flags_name(value: u32) -> (r: String)
    ensures
        r@ == p_flags_text(value),
{
    elf::to_str::p_flags_to_string(value)
}

/// The text that `elf::to_str::sh_type_to_string` gives for a section type:
/// the name of one of
/// the twenty-three it knows, or the number in brackets.
pub open spec fn sh_type_text(value: u32) -> Seq<char> {
    if value == 0 {
        "SHT_NULL"@
    } else if value == 1 {
        "SHT_PROGBITS"@
    } else if value == 2 {
        "SHT_SYMTAB"@
    } else if value == 3 {
        "SHT_STRTAB"@
    } else if value == 4 {
        "SHT_RELA"@
    } else if value == 5 {
        "SHT_HASH"@
    } else if value == 6 {
        "SHT_DYNAMIC"@
    } else if value == 7 {
        "SHT_NOTE"@
    } else if value == 8 {
        "SHT_NOBITS"@
    } else if value == 9 {
        "SHT_REL"@
    } else if value == 10 {
        "SHT_SHLIB"@
    } else if value == 11 {
        "SHT_DYNSYM"@
    } else if value == 14 {
        "SHT_INIT_ARRAY"@
    } else if value == 15 {
        "SHT_FINI_ARRAY"@
    } else if value == 16 {
        "SHT_PREINIT_ARRAY"@
    } else if value == 17 {
        "SHT_GROUP"@
    } else if value == 18 {
        "SHT_SYMTAB_SHNDX"@
    } else if value == 0x6ffffff5 {
        "SHT_GNU_ATTRIBUTES"@
    } else if value == 0x6ffffff6 {
        "SHT_GNU_HASH"@
    } else if value == 0x6ffffff7 {
        "SHT_GNU_LIBLIST"@
    } else if value == 0x6ffffffd {
        "SHT_GNU_VERDEF"@
    } else if value == 0x6ffffffe {
        "SHT_GNU_VERNEED"@
    } else if value == 0x6fffffff {
        "SHT_GNU_VERSYM"@
    } else {
        "sh_type("@ + spec_hex(value as nat, false) + ")"@
    }
}

/// `elf::to_str::sh_type_to_string`, with what its source returns for each
/// value.
#[verifier::external_body]
pub(crate) fn sh_type_name(value: u32) -> (r: String)
    ensures
        r@ == sh_type_text(value),
{
    elf::to_str::sh_type_to_string(value)
}

/// The text that `elf::to_str::st_symtype_to_string` gives for a symbol type:
/// the name of
/// one of the eight types it knows, or the number in brackets.
pub open spec fn st_symtype_text(value: u8) -> Seq<char> {
    if value == 0 {
        "STT_NOTYPE"@
    } else if value == 1 {
        "STT_OBJECT"@
    } else if value == 2 {
        "STT_FUNC"@
    } else if value == 3 {
        "STT_SECTION"@
    } else if value == 4 {
        "STT_FILE"@
    } else if value == 5 {
        "STT_COMMON"@
    } else if value == 6 {
        "STT_TLS"@
    } else if value == 10 {
        "STT_GNU_IFUNC"@
    } else {
        "st_symtype("@ + spec_hex(value as nat, false) + ")"@
    }
}

/// `elf::to_str::st_symtype_to_string`, with what its source returns for each
/// value.
#[verifier::external_body]
pub(crate) fn st_symtype_name(value: u8) -> (r: String)
    ensures
        r@ == st_symtype_text(value),
{
    elf::to_str::st_symtype_to_string(value)
}

/// The text that `elf::to_str::st_bind_to_string` gives for a symbol binding:
/// the name of
/// one of the four bindings it knows, or the number in brackets.
pub open spec fn st_bind_text(value: u8) -> Seq<char> {
    if value == 0 {
        "STB_LOCAL"@
    } else if value == 1 {
        "STB_GLOBAL"@
    } else if value == 2 {
        "STB_WEAK"@
    } else if value == 10 {
        "STB_GNU_UNIQUE"@
    } else {
        "st_bind("@ + spec_hex(value as nat, false) + ")"@
    }
}

/// `elf::to_str::st_bind_to_string`, with what its source returns for each
/// value.
#[verifier::external_body]
pub(crate) fn st_bind_name(value: u8) -> (r: String)
    ensures
        r@ == st_bind_text(value),
{
    elf::to_str::st_bind_to_string(value)
}

/// The text that `elf::to_str::st_vis_to_string` gives for a symbol visibility:
/// the name of
/// one of the four visibilities, or the number in brackets.
pub open spec fn st_vis_text(value: u8) -> Seq<char> {
    if value == 0 {
        "STV_DEFAULT"@
    } else if value == 1 {
        "STV_INTERNAL"@
    } else if value == 2 {
        "STV_HIDDEN"@
    } else if value == 3 {
        "STV_PROTECTED"@
    } else {
        "st_vis("@ + spec_hex(value as nat, false) + ")"@
    }
}

/// `elf::to_str::st_vis_to_string`, with what its source returns for each
/// value.
#[verifier::external_body]
pub(crate) fn st_vis_name(value: u8) -> (r: String)
    ensures
        r@ == st_vis_text(value),
{
    elf::to_str::st_vis_to_string(value)
}

/// The name that `elf::to_str::note_abi_tag_os_to_str` gives for the OS word
/// of an ABI-tag note: it knows four.
pub open spec fn abi_tag_os_text(os: u32) -> Option<Seq<char>> {
    if os == 0 {
        Some("Linux"@)
    } else if os == 1 {
        Some("GNU"@)
    } else if os == 2 {
        Some("Solaris"@)
    } else if os == 3 {
        Some("FreeBSD"@)
    } else {
        None
    }
}

/// A name that may be there, taken by its view.
pub open spec fn opt_text(name: Option<String>) -> Option<Seq<char>> {
    match name {
        Some(name) => Some(name@),
        None => None,
    }
}

/// `elf::to_str::note_abi_tag_os_to_str`, copied into a `String`.
#[verifier::external_body]
pub(crate) fn abi_tag_os_name(os: u32) -> (r: Option<String>)
    ensures
        opt_text(r) == abi_tag_os_text(os),
{
    elf::to_str::note_abi_tag_os_to_str(os).map(|name| name.to_string())
}

} // verus!
