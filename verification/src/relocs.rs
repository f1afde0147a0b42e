//! Relocation records, from every relocation section of a file.

use crate::error::ElfError;
use crate::sections::section_range;
use crate::header::{
    decode_error, decode_file_header, decode_section_headers, ident_error, spec_decode_error,
    spec_file_header, spec_section_headers,
};
use crate::invariants::{section_fits, spec_section_fits};
use crate::fields::{spec_u32_at, spec_u64_at, u32_at, u64_at};
use crate::model::{ByteOrder, Class, FileHeader, Rel, Rela, SectionHeader};
use crate::outside::{rel_records, rela_records, stream_relas, stream_rels};
use vstd::prelude::*;

verus! {

/// The symbol index that a relocation's info word packs: in a 32-bit file the
/// bits above the low 8 of a 32-bit word, in a 64-bit file the high 32 bits.
pub open spec fn spec_info_symbol(class: Class, info: u64) -> int {
    match class {
        Class::Elf32 => (info as int % 0x1_0000_0000) / 0x100,
        Class::Elf64 => info as int / 0x1_0000_0000,
    }
}

/// The relocation type that a relocation's info word packs: in a 32-bit file
/// the low 8 bits, in a 64-bit file the low 32 bits.
pub open spec fn spec_info_type(class: Class, info: u64) -> int {
    match class {
        Class::Elf32 => info as int % 0x100,
        Class::Elf64 => info as int % 0x1_0000_0000,
    }
}

/// Takes a relocation's info word apart into the symbol index and the
/// relocation type. Where the two meet depends on the class of the file.
pub fn unpack_info(class: Class, info: u64) -> (r: (u32, u32))
    ensures
        r.0 == spec_info_symbol(class, info),
        r.1 == spec_info_type(class, info),
{
    match class {
        Class::Elf32 => {
            let word: u64 = info & 0xffff_ffff;
            assert(word == info % 0x1_0000_0000 && (word >> 8) == word / 0x100 && (word >> 8)
                <= 0xff_ffff && (word & 0xff) == info % 0x100 && (word & 0xff) <= 0xff)
                by (bit_vector)
                requires
                    word == info & 0xffff_ffff,
            ;
            ((word >> 8) as u32, (word & 0xff) as u32)
        },
        Class::Elf64 => {
            assert((info >> 32) == info / 0x1_0000_0000 && (info >> 32) <= 0xffff_ffff && (info
                & 0xffff_ffff) == info % 0x1_0000_0000 && (info & 0xffff_ffff) <= 0xffff_ffff)
                by (bit_vector);
            ((info >> 32) as u32, (info & 0xffff_ffff) as u32)
        },
    }
}

/// The records of one relocation section.
#[derive(Clone, Debug, PartialEq, Eq)]
pub enum Relocations {
    /// Records without an addend, from a section of type 9.
    Rel(Vec<Rel>),
    /// Records with an addend, from a section of type 4.
    Rela(Vec<Rela>),
}

/// One relocation section: its index in the section table, and its records.
#[derive(Clone, Debug, PartialEq, Eq)]
pub struct RelocationSection {
    pub index: usize,
    pub records: Relocations,
}

/// The mathematical value of `Relocations`.
pub enum RelocationsModel {
    Rel(Seq<Rel>),
    Rela(Seq<Rela>),
}

/// The mathematical value of a `RelocationSection`.
pub struct RelocationSectionModel {
    pub index: int,
    pub records: RelocationsModel,
}

impl View for Relocations {
    type V = RelocationsModel;

    open spec fn view(&self) -> RelocationsModel {
        match self {
            Relocations::Rel(v) => RelocationsModel::Rel(v@),
            Relocations::Rela(v) => RelocationsModel::Rela(v@),
        }
    }
}

impl View for RelocationSection {
    type V = RelocationSectionModel;

    open spec fn view(&self) -> RelocationSectionModel {
        RelocationSectionModel { index: self.index as int, records: self.records@ }
    }
}

/// The views of a sequence of relocation sections.
pub open spec fn section_views(sections: Seq<RelocationSection>) -> Seq<RelocationSectionModel> {
    Seq::new(sections.len(), |i: int| sections[i]@)
}

/// The info word of the relocation record at `base`: the 32 bits behind a
/// 32-bit offset, or the 64 bits behind a 64-bit offset.
pub open spec fn spec_info_word(blob: Seq<u8>, base: int, class: Class, order: ByteOrder) -> int {
    if class == Class::Elf64 {
        spec_u64_at(blob, base + 8, order)
    } else {
        spec_u32_at(blob, base + 4, order)
    }
}

/// Whether a symbol index and a relocation type are what the info word of the
/// record at `base` unpacks to.
pub open spec fn split_from(
    r_sym: u32,
    r_type: u32,
    blob: Seq<u8>,
    base: int,
    class: Class,
    order: ByteOrder,
) -> bool {
    &&& r_sym == spec_info_symbol(class, spec_info_word(blob, base, class, order) as u64)
    &&& r_type == spec_info_type(class, spec_info_word(blob, base, class, order) as u64)
}

/// The symbol index and the relocation type of each record of a section.
pub open spec fn splits(records: RelocationsModel) -> Seq<(u32, u32)> {
    match records {
        RelocationsModel::Rel(v) => Seq::new(v.len(), |i: int| (v[i].r_sym, v[i].r_type)),
        RelocationsModel::Rela(v) => Seq::new(v.len(), |i: int| (v[i].r_sym, v[i].r_type)),
    }
}

/// Whether every pair of symbol index and relocation type is unpacked from
/// the info word of its record, the records of `size` bytes lying one behind
/// the other from the start of the blob.
pub open spec fn all_split(
    pairs: Seq<(u32, u32)>,
    blob: Seq<u8>,
    size: int,
    class: Class,
    order: ByteOrder,
) -> bool {
    forall|i: int|
        0 <= i < pairs.len() ==> split_from(
            (#[trigger] pairs[i]).0,
            pairs[i].1,
            blob,
            i * size,
            class,
            order,
        )
}

/// Reads the info word of the record at `base` and takes it apart.
fn split_at(blob: &[u8], base: usize, class: Class, order: ByteOrder) -> (r: (u32, u32))
    requires
        base + (if class == Class::Elf64 { 16int } else { 8int }) <= blob@.len(),
    ensures
        split_from(r.0, r.1, blob@, base as int, class, order),
{
    let len = blob.len();
    assert(base + 8 <= len);
    match class {
        Class::Elf64 => match u64_at(blob, base + 8, order) {
            Some(word) => unpack_info(class, word),
            None => (0, 0),
        },
        Class::Elf32 => match u32_at(blob, base + 4, order) {
            Some(word) => unpack_info(class, word as u64),
            None => (0, 0),
        },
    }
}

/// Holds the decoded records of a section against its bytes: tells whether
/// the symbol index and the relocation type of each are what the info word
/// of its record unpacks to.
pub fn splits_agree(
    records: &Relocations,
    blob: &[u8],
    size: usize,
    class: Class,
    order: ByteOrder,
) -> (r: bool)
    requires
        (if class == Class::Elf64 { 16int } else { 8int }) <= size <= 24,
        record_count(records@) * size <= blob@.len(),
    ensures
        r == all_split(splits(records@), blob@, size as int, class, order),
{
    let count = match records {
        Relocations::Rel(v) => v.len(),
        Relocations::Rela(v) => v.len(),
    };
    let len = blob.len();
    let mut i: usize = 0;
    let mut base: usize = 0;
    while i < count
        invariant
            i <= count,
            len == blob@.len(),
            count == record_count(records@),
            count == splits(records@).len(),
            (if class == Class::Elf64 { 16int } else { 8int }) <= size <= 24,
            base == i * size,
            count * size <= blob@.len(),
            forall|j: int|
                0 <= j < i ==> split_from(
                    (#[trigger] splits(records@)[j]).0,
                    splits(records@)[j].1,
                    blob@,
                    j * size,
                    class,
                    order,
                ),
        decreases count - i,
    {
        proof {
            assert((i + 1) * size <= count * size) by (nonlinear_arith)
                requires
                    i + 1 <= count,
                    size >= 0,
            ;
            assert((i + 1) * size == i * size + size) by (nonlinear_arith);
        }
        let (r_sym, r_type) = match records {
            Relocations::Rel(v) => (v[i].r_sym, v[i].r_type),
            Relocations::Rela(v) => (v[i].r_sym, v[i].r_type),
        };
        let pair = split_at(blob, base, class, order);
        if pair.0 != r_sym || pair.1 != r_type {
            proof {
                assert(splits(records@)[i as int] == (r_sym, r_type));
                assert(!split_from(r_sym, r_type, blob@, i * size, class, order));
            }
            return false;
        }
        proof {
            assert(splits(records@)[i as int] == (r_sym, r_type));
        }
        base = base + size;
        i += 1;
    }
    true
}

/// The size in bytes of one relocation record: 8 or 16 without addend, 12 or
/// 24 with addend, the smaller in a 32-bit file.
pub open spec fn spec_record_size(sh_type: u32, class: Class) -> int {
    if sh_type == 9 {
        if class == Class::Elf64 { 16 } else { 8 }
    } else {
        if class == Class::Elf64 { 24 } else { 12 }
    }
}

/// The size in bytes of one relocation record of a section of type 9 or 4.
pub fn record_size(sh_type: u32, class: Class) -> (r: u64)
    ensures
        r == spec_record_size(sh_type, class),
{
    let wide = match class {
        Class::Elf64 => true,
        Class::Elf32 => false,
    };
    if sh_type == 9 {
        if wide { 16 } else { 8 }
    } else {
        if wide { 24 } else { 12 }
    }
}

/// A relocation section is well placed: it ends inside a file of `len` bytes
/// and holds whole records only.
pub open spec fn well_placed(s: SectionHeader, class: Class, len: nat) -> bool {
    spec_section_fits(s, len) && s.sh_size as int % spec_record_size(s.sh_type, class) == 0
}

/// Whether a section holds relocation records.
pub open spec fn holds_relocations(s: SectionHeader) -> bool {
    s.sh_type == 9 || s.sh_type == 4
}

/// Whether the records decoded from a section agree with its bytes: the
/// symbol index and relocation type of each are what the info word of its
/// record unpacks to.
pub open spec fn agrees_with_bytes(
    data: Seq<u8>,
    s: SectionHeader,
    class: Class,
    order: ByteOrder,
    records: RelocationsModel,
) -> bool {
    all_split(
        splits(records),
        data.subrange(s.sh_offset as int, s.sh_offset + s.sh_size),
        spec_record_size(s.sh_type, class),
        class,
        order,
    )
}

/// The list with one more section, where the section's records agree with
/// its bytes; a section whose records do not is an invalid field.
pub open spec fn listed(
    data: Seq<u8>,
    s: SectionHeader,
    class: Class,
    order: ByteOrder,
    found: Seq<RelocationSectionModel>,
    section: RelocationSectionModel,
) -> Result<Seq<RelocationSectionModel>, ElfError> {
    if agrees_with_bytes(data, s, class, order, section.records) {
        Ok(found.push(section))
    } else {
        Err(ElfError::InvalidBitfield)
    }
}

/// The relocation sections among the first `n` sections, in table order, each
/// with its records; or the error of the first one that cannot be read. A
/// relocation section that reaches beyond the file, or whose size is no
/// multiple of the record size, is a truncated table. The records are those
/// that the decoder yields, held against the bytes of the section.
pub open spec fn spec_relocations_upto(
    data: Seq<u8>,
    headers: Seq<SectionHeader>,
    class: Class,
    order: ByteOrder,
    n: int,
) -> Result<Seq<RelocationSectionModel>, ElfError>
    decreases n,
{
    if n <= 0 {
        Ok(Seq::empty())
    } else {
        match spec_relocations_upto(data, headers, class, order, n - 1) {
            Err(e) => Err(e),
            Ok(found) => if holds_relocations(headers[n - 1]) && !well_placed(
                headers[n - 1],
                class,
                data.len(),
            ) {
                Err(ElfError::TruncatedTable)
            } else if headers[n - 1].sh_type == 9 {
                match rel_records(data, n - 1) {
                    Err(e) => Err(spec_decode_error(data.len(), e)),
                    Ok(records) => listed(
                        data,
                        headers[n - 1],
                        class,
                        order,
                        found,
                        RelocationSectionModel {
                            index: n - 1,
                            records: RelocationsModel::Rel(records),
                        },
                    ),
                }
            } else if headers[n - 1].sh_type == 4 {
                match rela_records(data, n - 1) {
                    Err(e) => Err(spec_decode_error(data.len(), e)),
                    Ok(records) => listed(
                        data,
                        headers[n - 1],
                        class,
                        order,
                        found,
                        RelocationSectionModel {
                            index: n - 1,
                            records: RelocationsModel::Rela(records),
                        },
                    ),
                }
            } else {
                Ok(found)
            },
        }
    }
}

/// The relocation sections of a file with these bytes.
pub open spec fn spec_relocations(data: Seq<u8>) -> Result<Seq<RelocationSectionModel>, ElfError> {
    match spec_file_header(data) {
        Err(e) => Err(e),
        Ok(h) => match spec_section_headers(data) {
            Err(e) => Err(e),
            Ok(headers) => spec_relocations_upto(
                data,
                headers,
                h.class,
                h.order,
                headers.len() as int,
            ),
        },
    }
}

/// A result that holds relocation sections, each taken by its view.
pub open spec fn relocations_view(r: Result<Vec<RelocationSection>, ElfError>) -> Result<
    Seq<RelocationSectionModel>,
    ElfError,
> {
    match r {
        Ok(v) => Ok(section_views(v@)),
        Err(e) => Err(e),
    }
}

/// Whether every relocation section of the table is well placed.
pub open spec fn all_well_placed(headers: Seq<SectionHeader>, class: Class, len: nat) -> bool {
    forall|i: int|
        0 <= i < headers.len() && holds_relocations(#[trigger] headers[i]) ==> well_placed(
            headers[i],
            class,
            len,
        )
}

/// The number of records of a relocation section's records.
pub open spec fn record_count(records: RelocationsModel) -> nat {
    match records {
        RelocationsModel::Rel(v) => v.len(),
        RelocationsModel::Rela(v) => v.len(),
    }
}

/// Once the sections up to some point cannot all be read, no longer prefix
/// can: the error stays.
pub proof fn relocations_error_stays(
    data: Seq<u8>,
    headers: Seq<SectionHeader>,
    class: Class,
    order: ByteOrder,
    m: int,
    n: int,
)
    requires
        0 <= m <= n,
        spec_relocations_upto(data, headers, class, order, m) is Err,
    ensures
        spec_relocations_upto(data, headers, class, order, n) == spec_relocations_upto(
            data,
            headers,
            class,
            order,
            m,
        ),
    decreases n - m,
{
    if m < n {
        relocations_error_stays(data, headers, class, order, m, n - 1);
    }
}

/// Every section listed is a relocation section of the table, and the list is
/// in table order.
pub proof fn relocations_are_sections(
    data: Seq<u8>,
    headers: Seq<SectionHeader>,
    class: Class,
    order: ByteOrder,
    n: int,
)
    requires
        0 <= n <= headers.len(),
    ensures
        spec_relocations_upto(data, headers, class, order, n) matches Ok(found) ==> forall|k: int|
            0 <= k < found.len() ==> {
                &&& 0 <= (#[trigger] found[k]).index < n
                &&& found[k].records is Rel <==> headers[found[k].index].sh_type == 9
                &&& found[k].records is Rela <==> headers[found[k].index].sh_type == 4
            },
    decreases n,
{
    if n > 0 {
        relocations_are_sections(data, headers, class, order, n - 1);
    }
}

/// Decodes the relocation records of every section of type 9 (without
/// addend) or 4 (with addend), in the order of the section table.
///
/// A relocation section that reaches beyond the file or ends in a part of a
/// record is a truncated table. Each section listed holds as many records as
/// its size divided by the record size of the file's class, and the symbol
/// index and relocation type of each record are what the info word of the
/// record unpacks to: the decoded records are held against the bytes, and a
/// section whose records do not agree with them is an invalid field.
pub fn decode_relocations(data: &[u8]) -> (r: Result<Vec<RelocationSection>, ElfError>)
    ensures
        relocations_view(r) == spec_relocations(data@),
        ident_error(data@) matches Some(e) ==> r == Err::<Vec<RelocationSection>, ElfError>(e),
        r is Ok ==> (spec_file_header(data@) matches Ok(h) && spec_section_headers(
            data@,
        ) matches Ok(headers) && all_well_placed(headers, h.class, data@.len())),
        r matches Ok(v) ==> forall|k: int|
            0 <= k < v@.len() ==> {
                &&& (#[trigger] v@[k]).index < spec_section_headers(data@)->Ok_0.len()
                &&& holds_relocations(spec_section_headers(data@)->Ok_0[v@[k].index as int])
                &&& agrees_with_bytes(
                    data@,
                    spec_section_headers(data@)->Ok_0[v@[k].index as int],
                    spec_file_header(data@)->Ok_0.class,
                    spec_file_header(data@)->Ok_0.order,
                    v@[k]@.records,
                )
                &&& record_count(v@[k]@.records) * spec_record_size(
                    spec_section_headers(data@)->Ok_0[v@[k].index as int].sh_type,
                    spec_file_header(data@)->Ok_0.class,
                ) == spec_section_headers(data@)->Ok_0[v@[k].index as int].sh_size
            },
{
    let header = decode_file_header(data)?;
    let headers = decode_section_headers(data)?;
    let mut out: Vec<RelocationSection> = Vec::new();
    let mut i: usize = 0;
    proof {
        assert(section_views(out@) =~= Seq::<RelocationSectionModel>::empty());
    }
    while i < headers.len()
        invariant
            i <= headers.len(),
            ident_error(data@) is None,
            spec_file_header(data@) == Ok::<FileHeader, ElfError>(header),
            spec_section_headers(data@) == Ok::<Seq<SectionHeader>, ElfError>(headers@),
            spec_relocations_upto(data@, headers@, header.class, header.order, i as int) == Ok::<
                Seq<RelocationSectionModel>,
                ElfError,
            >(section_views(out@)),
            forall|j: int|
                0 <= j < i && holds_relocations(#[trigger] headers@[j]) ==> well_placed(
                    headers@[j],
                    header.class,
                    data@.len(),
                ),
            forall|k: int|
                0 <= k < out@.len() ==> {
                    &&& (#[trigger] out@[k]).index < headers@.len()
                    &&& holds_relocations(headers@[out@[k].index as int])
                    &&& agrees_with_bytes(
                        data@,
                        headers@[out@[k].index as int],
                        header.class,
                        header.order,
                        out@[k]@.records,
                    )
                    &&& record_count(out@[k]@.records) * spec_record_size(
                        headers@[out@[k].index as int].sh_type,
                        header.class,
                    ) == headers@[out@[k].index as int].sh_size
                },
        decreases headers.len() - i,
    {
        let sh_type = headers[i].sh_type;
        if sh_type == 9 || sh_type == 4 {
            let size = record_size(sh_type, header.class);
            if !section_fits(&headers[i], data.len() as u64) || headers[i].sh_size % size != 0 {
                proof {
                    relocations_error_stays(
                        data@,
                        headers@,
                        header.class,
                        header.order,
                        i + 1,
                        headers.len() as int,
                    );
                    assert(!well_placed(headers@[i as int], header.class, data@.len()));
                }
                return Err(ElfError::TruncatedTable);
            }
            let records = if sh_type == 9 {
                match stream_rels(data, i) {
                    Ok(records) => Relocations::Rel(records),
                    Err(e) => {
                        return Err(decode_error(data.len(), &e));
                    },
                }
            } else {
                match stream_relas(data, i) {
                    Ok(records) => Relocations::Rela(records),
                    Err(e) => {
                        return Err(decode_error(data.len(), &e));
                    },
                }
            };
            proof {
                let q = headers@[i as int].sh_size as int / size as int;
                assert(record_count(records@) == q);
                assert(q * size == headers@[i as int].sh_size) by (nonlinear_arith)
                    requires
                        q == headers@[i as int].sh_size as int / size as int,
                        headers@[i as int].sh_size as int % size as int == 0,
                        size > 0,
                ;
            }
            let agree = match section_range(data, &headers[i]) {
                Some(blob) => splits_agree(&records, blob, size as usize, header.class, header.order),
                None => false,
            };
            if !agree {
                proof {
                    relocations_error_stays(
                        data@,
                        headers@,
                        header.class,
                        header.order,
                        i + 1,
                        headers.len() as int,
                    );
                }
                return Err(ElfError::InvalidBitfield);
            }
            let section = RelocationSection { index: i, records };
            proof {
                assert(section_views(out@.push(section)) =~= section_views(out@).push(section@));
            }
            out.push(section);
        }
        i += 1;
    }
    Ok(out)
}

} // verus!
