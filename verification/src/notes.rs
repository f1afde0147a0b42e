//! Notes, from every note section of a file.

use crate::error::ElfError;
use crate::fields::{spec_u32_at, u32_at};
use crate::header::{
    decode_error, decode_file_header, ident_error, spec_decode_error, spec_file_header,
    spec_section_headers,
};
use crate::model::{ByteOrder, FileHeader, Note, SectionHeader};
use crate::outside::{note_records, stream_notes};
use crate::sections::{
    decode_section_table, section_range, spec_section_names, spec_section_range, texts,
};
use vstd::arithmetic::div_mod::{lemma_fundamental_div_mod, lemma_mod_bound};
use vstd::prelude::*;

verus! {

/// The notes of one note section.
#[derive(Clone, Debug, PartialEq, Eq)]
pub struct NoteSection {
    /// The section's index in the section table.
    pub index: usize,
    /// The section's name.
    pub name: String,
    /// Its notes, in the order in which they are stored.
    pub notes: Vec<Note>,
}

/// The mathematical value of a `NoteSection`.
pub struct NoteSectionModel {
    pub index: int,
    pub name: Seq<char>,
    pub notes: Seq<Note>,
}

impl View for NoteSection {
    type V = NoteSectionModel;

    open spec fn view(&self) -> NoteSectionModel {
        NoteSectionModel { index: self.index as int, name: self.name@, notes: self.notes@ }
    }
}

/// The views of a sequence of note sections.
pub open spec fn note_views(sections: Seq<NoteSection>) -> Seq<NoteSectionModel> {
    Seq::new(sections.len(), |i: int| sections[i]@)
}

/// The next multiple of `align` at or above `offset`.
pub open spec fn round_up(offset: int, align: int) -> int {
    if align <= 0 || offset % align == 0 {
        offset
    } else {
        offset + (align - offset % align)
    }
}

/// The number of note records that tile a note section from `offset` on, if
/// records do tile it.
///
/// A record is a head of three 32-bit words, of which the first two give the
/// sizes of the name and of the descriptor; then the name; then, from the
/// next multiple of the alignment on, the descriptor. The next record starts
/// at the next multiple of the alignment behind the descriptor. Records tile
/// the section when each head and each descriptor ends inside it; behind the
/// last record at most padding is left.
pub open spec fn framed_notes(blob: Seq<u8>, order: ByteOrder, align: int, offset: int) -> Option<
    nat,
>
    decreases blob.len() - offset,
{
    if offset >= blob.len() {
        Some(0)
    } else if align <= 0 || offset < 0 || offset + 12 > blob.len() {
        None
    } else {
        let name_end = offset + 12 + spec_u32_at(blob, offset, order);
        let desc_end = round_up(name_end, align) + spec_u32_at(blob, offset + 4, order);
        let next = round_up(desc_end, align);
        if desc_end > blob.len() || next <= offset {
            None
        } else if next >= blob.len() {
            Some(1)
        } else {
            match framed_notes(blob, order, align, next) {
                None => None,
                Some(n) => Some(n + 1),
            }
        }
    }
}

/// The offsets at which the note records that tile a note section from
/// `offset` on start, if records do tile it: the records that `framed_notes`
/// counts.
pub open spec fn note_offsets(blob: Seq<u8>, order: ByteOrder, align: int, offset: int) -> Option<
    Seq<int>,
>
    decreases blob.len() - offset,
{
    if offset >= blob.len() {
        Some(Seq::empty())
    } else if align <= 0 || offset < 0 || offset + 12 > blob.len() {
        None
    } else {
        let name_end = offset + 12 + spec_u32_at(blob, offset, order);
        let desc_end = round_up(name_end, align) + spec_u32_at(blob, offset + 4, order);
        let next = round_up(desc_end, align);
        if desc_end > blob.len() || next <= offset {
            None
        } else if next >= blob.len() {
            Some(seq![offset])
        } else {
            match note_offsets(blob, order, align, next) {
                None => None,
                Some(rest) => Some(seq![offset] + rest),
            }
        }
    }
}

/// Whether an alignment can be used for notes: a multiple of 4 above 0.
pub open spec fn spec_alignment_is_usable(align: u64) -> bool {
    align > 0 && align % 4 == 0
}

/// Rounding up to a multiple of an alignment that is a multiple of 4 gives a
/// multiple of 4 that is at least the number rounded.
pub proof fn round_up_is_a_multiple_of_four(x: int, align: int)
    requires
        0 <= x,
        align > 0,
        align % 4 == 0,
    ensures
        round_up(x, align) >= x,
        round_up(x, align) % 4 == 0,
{
    let r = round_up(x, align);
    lemma_mod_bound(x, align);
    lemma_fundamental_div_mod(x, align);
    let q = if x % align == 0 {
        x / align
    } else {
        x / align + 1
    };
    assert(r == align * q) by (nonlinear_arith)
        requires
            x == align * (x / align) + x % align,
            q == (if x % align == 0 {
                x / align
            } else {
                x / align + 1
            }),
            r == (if x % align == 0 {
                x
            } else {
                x + (align - x % align)
            }),
    ;
    let k = align / 4;
    assert(r == 4 * (k * q)) by (nonlinear_arith)
        requires
            r == align * q,
            align == 4 * k,
    ;
}

/// The records that tile a note section are as many as `framed_notes` counts.
/// They start at multiples of 4, each at least 12 bytes behind the one
/// before, and each has its head inside the section: so there are at most a
/// twelfth of the section's length of them.
pub proof fn note_records_start_at_multiples_of_four(
    blob: Seq<u8>,
    order: ByteOrder,
    align: int,
    offset: int,
)
    requires
        0 <= offset,
        offset % 4 == 0,
        align > 0,
        align % 4 == 0,
    ensures
        note_offsets(blob, order, align, offset) is Some <==> framed_notes(
            blob,
            order,
            align,
            offset,
        ) is Some,
        note_offsets(blob, order, align, offset) matches Some(at) ==> {
            &&& framed_notes(blob, order, align, offset) == Some(at.len())
            &&& forall|i: int| 0 <= i < at.len() ==> at[i] % 4 == 0 && offset <= at[i] && at[i] + 12
                <= blob.len()
            &&& forall|i: int, j: int| 0 <= i < j < at.len() ==> at[i] + 12 <= at[j]
            &&& at.len() * 12 <= blob.len() - offset || at.len() == 0
        },
    decreases blob.len() - offset,
{
    if offset < blob.len() && offset + 12 <= blob.len() {
        let name_end = offset + 12 + spec_u32_at(blob, offset, order);
        round_up_is_a_multiple_of_four(name_end, align);
        let desc_end = round_up(name_end, align) + spec_u32_at(blob, offset + 4, order);
        round_up_is_a_multiple_of_four(desc_end, align);
        let next = round_up(desc_end, align);
        if desc_end <= blob.len() && next > offset && next < blob.len() {
            note_records_start_at_multiples_of_four(blob, order, align, next);
            let rest = note_offsets(blob, order, align, next);
            if rest is Some {
                let at = seq![offset] + rest->Some_0;
                assert(at[0] == offset);
                assert forall|i: int| 0 <= i < at.len() implies at[i] % 4 == 0 && offset <= at[i]
                    && at[i] + 12 <= blob.len() by {
                    if i > 0 {
                        assert(at[i] == rest->Some_0[i - 1]);
                    }
                }
                assert forall|i: int, j: int| 0 <= i < j < at.len() implies at[i] + 12
                    <= at[j] by {
                    assert(at[j] == rest->Some_0[j - 1]);
                    if i > 0 {
                        assert(at[i] == rest->Some_0[i - 1]);
                    }
                }
            }
        }
    }
}

/// A count that may be there, as a number.
pub open spec fn opt_count(r: Option<usize>) -> Option<nat> {
    match r {
        Some(n) => Some(n as nat),
        None => None,
    }
}

/// `count` more than a count that may be there.
pub open spec fn counted(count: nat, rest: Option<nat>) -> Option<nat> {
    match rest {
        Some(n) => Some(count + n),
        None => None,
    }
}

/// Rounds `x` up to the next multiple of `align`, if that is at most `limit`.
fn round_up_within(x: usize, align: u64, limit: usize) -> (r: Option<usize>)
    requires
        x <= limit,
        align > 0,
    ensures
        round_up(x as int, align as int) >= x,
        r matches Some(y) ==> y == round_up(x as int, align as int) && y <= limit,
        r is None ==> round_up(x as int, align as int) > limit,
{
    proof {
        lemma_mod_bound(x as int, align as int);
    }
    let rem = (x as u64) % align;
    if rem == 0 {
        return Some(x);
    }
    let pad = align - rem;
    if pad > (limit - x) as u64 {
        None
    } else {
        Some(x + pad as usize)
    }
}

/// Counts the note records that tile a note section, if records do tile it.
/// Every record is at least 12 bytes long, so the walk ends.
pub fn count_framed_notes(blob: &[u8], order: ByteOrder, align: u64) -> (r: Option<usize>)
    ensures
        opt_count(r) == framed_notes(blob@, order, align as int, 0),
{
    let len = blob.len();
    let mut offset: usize = 0;
    let mut count: usize = 0;
    while offset < len
        invariant
            len == blob@.len(),
            offset <= len,
            count * 12 <= offset,
            framed_notes(blob@, order, align as int, 0) == counted(
                count as nat,
                framed_notes(blob@, order, align as int, offset as int),
            ),
        decreases len - offset,
    {
        if align == 0 || len - offset < 12 {
            return None;
        }
        let (namesz, descsz) = match (u32_at(blob, offset, order), u32_at(blob, offset + 4, order)) {
            (Some(namesz), Some(descsz)) => (namesz, descsz),
            _ => {
                return None;
            },
        };
        proof {
            lemma_mod_bound(offset + 12 + namesz, align as int);
        }
        if namesz as usize > len - offset - 12 {
            return None;
        }
        let name_end = offset + 12 + namesz as usize;
        let desc_start = match round_up_within(name_end, align, len) {
            Some(desc_start) => desc_start,
            None => {
                return None;
            },
        };
        if descsz as usize > len - desc_start {
            return None;
        }
        let desc_end = desc_start + descsz as usize;
        let next = match round_up_within(desc_end, align, len) {
            Some(next) => next,
            None => len,
        };
        proof {
            let real_next = round_up(desc_end as int, align as int);
            assert(real_next >= desc_end);
            assert(real_next >= len ==> next == len);
            assert(framed_notes(blob@, order, align as int, len as int) == Some(0nat));
        }
        count = count + 1;
        offset = next;
    }
    Some(count)
}

/// The note sections among the first `n` sections, in table order, each with
/// its name and notes; or the error of the first one that cannot be read.
///
/// A note section whose alignment is no multiple of 4 above 0 is an invalid
/// field. One that reaches beyond the file, or that note records do not
/// tile, is a truncated table. One whose records are not all decoded, since a
/// name is no text or a recognised descriptor is too short, is an invalid
/// field.
pub open spec fn spec_notes_upto(
    data: Seq<u8>,
    headers: Seq<SectionHeader>,
    names: Seq<Seq<char>>,
    order: ByteOrder,
    n: int,
) -> Result<Seq<NoteSectionModel>, ElfError>
    decreases n,
{
    if n <= 0 {
        Ok(Seq::empty())
    } else {
        match spec_notes_upto(data, headers, names, order, n - 1) {
            Err(e) => Err(e),
            Ok(found) => if headers[n - 1].sh_type != 7 {
                Ok(found)
            } else if !spec_alignment_is_usable(headers[n - 1].sh_addralign) {
                Err(ElfError::InvalidBitfield)
            } else {
                match spec_section_range(data, headers[n - 1]) {
                    None => Err(ElfError::TruncatedTable),
                    Some(blob) => match framed_notes(
                        blob,
                        order,
                        headers[n - 1].sh_addralign as int,
                        0,
                    ) {
                        None => Err(ElfError::TruncatedTable),
                        Some(count) => match note_records(data, n - 1) {
                            Err(e) => Err(spec_decode_error(data.len(), e)),
                            Ok(notes) => if notes.len() != count {
                                Err(ElfError::InvalidBitfield)
                            } else {
                                Ok(
                                    found.push(
                                        NoteSectionModel { index: n - 1, name: names[n - 1], notes },
                                    ),
                                )
                            },
                        },
                    },
                }
            },
        }
    }
}

/// The note sections of a file with these bytes.
pub open spec fn spec_notes(data: Seq<u8>) -> Result<Seq<NoteSectionModel>, ElfError> {
    match spec_section_names(data) {
        Err(e) => Err(e),
        Ok(names) => match (spec_section_headers(data), spec_file_header(data)) {
            (Ok(headers), Ok(h)) => spec_notes_upto(
                data,
                headers,
                names,
                h.order,
                headers.len() as int,
            ),
            (Err(e), _) => Err(e),
            (_, Err(e)) => Err(e),
        },
    }
}

/// A result that holds note sections, each taken by its view.
pub open spec fn notes_view(r: Result<Vec<NoteSection>, ElfError>) -> Result<
    Seq<NoteSectionModel>,
    ElfError,
> {
    match r {
        Ok(v) => Ok(note_views(v@)),
        Err(e) => Err(e),
    }
}

/// Once the sections up to some point cannot all be read, no longer prefix
/// can: the error stays.
pub proof fn notes_error_stays(
    data: Seq<u8>,
    headers: Seq<SectionHeader>,
    names: Seq<Seq<char>>,
    order: ByteOrder,
    m: int,
    n: int,
)
    requires
        0 <= m <= n,
        spec_notes_upto(data, headers, names, order, m) is Err,
    ensures
        spec_notes_upto(data, headers, names, order, n) == spec_notes_upto(
            data,
            headers,
            names,
            order,
            m,
        ),
    decreases n - m,
{
    if m < n {
        notes_error_stays(data, headers, names, order, m, n - 1);
    }
}

/// Decodes the notes of every section of type 7, in the order of the section
/// table, each section with its name.
///
/// A note section must have an alignment that is a multiple of 4 above 0:
/// any other is an invalid field. It must end inside the file and be tiled by
/// note records, each padded to the section's alignment, so that every
/// record starts at a multiple of 4: a record that the end of the section
/// cuts off is a truncated table. Every record of the section is among the
/// notes returned: a section with a record that cannot be decoded is an
/// invalid field.
pub fn decode_notes(data: &[u8]) -> (r: Result<Vec<NoteSection>, ElfError>)
    ensures
        notes_view(r) == spec_notes(data@),
        ident_error(data@) matches Some(e) ==> r == Err::<Vec<NoteSection>, ElfError>(e),
        r matches Ok(v) ==> forall|k: int|
            0 <= k < v@.len() ==> {
                &&& (#[trigger] v@[k]).index < spec_section_headers(data@)->Ok_0.len()
                &&& spec_section_headers(data@)->Ok_0[v@[k].index as int].sh_type == 7
                &&& spec_alignment_is_usable(
                    spec_section_headers(data@)->Ok_0[v@[k].index as int].sh_addralign,
                )
                &&& spec_section_range(
                    data@,
                    spec_section_headers(data@)->Ok_0[v@[k].index as int],
                ) matches Some(blob) && framed_notes(
                    blob,
                    spec_file_header(data@)->Ok_0.order,
                    spec_section_headers(data@)->Ok_0[v@[k].index as int].sh_addralign as int,
                    0,
                ) == Some(v@[k].notes@.len())
            },
{
    let table = decode_section_table(data)?;
    let header = decode_file_header(data)?;
    let mut out: Vec<NoteSection> = Vec::new();
    let mut i: usize = 0;
    proof {
        assert(note_views(out@) =~= Seq::<NoteSectionModel>::empty());
    }
    while i < table.headers.len()
        invariant
            i <= table.headers.len(),
            ident_error(data@) is None,
            table.well_formed(),
            spec_file_header(data@) == Ok::<FileHeader, ElfError>(header),
            spec_section_headers(data@) == Ok::<Seq<SectionHeader>, ElfError>(table.headers@),
            spec_section_names(data@) == Ok::<Seq<Seq<char>>, ElfError>(texts(table.names@)),
            spec_notes_upto(data@, table.headers@, texts(table.names@), header.order, i as int)
                == Ok::<Seq<NoteSectionModel>, ElfError>(note_views(out@)),
            forall|k: int|
                0 <= k < out@.len() ==> {
                    &&& (#[trigger] out@[k]).index < table.headers@.len()
                    &&& table.headers@[out@[k].index as int].sh_type == 7
                    &&& spec_alignment_is_usable(table.headers@[out@[k].index as int].sh_addralign)
                    &&& spec_section_range(
                        data@,
                        table.headers@[out@[k].index as int],
                    ) matches Some(blob) && framed_notes(
                        blob,
                        header.order,
                        table.headers@[out@[k].index as int].sh_addralign as int,
                        0,
                    ) == Some(out@[k].notes@.len())
                },
        decreases table.headers.len() - i,
    {
        if table.headers[i].sh_type == 7 {
            let align = table.headers[i].sh_addralign;
            if align == 0 || align % 4 != 0 {
                proof {
                    notes_error_stays(
                        data@,
                        table.headers@,
                        texts(table.names@),
                        header.order,
                        i + 1,
                        table.headers.len() as int,
                    );
                }
                return Err(ElfError::InvalidBitfield);
            }
            let framed = match section_range(data, &table.headers[i]) {
                None => None,
                Some(blob) => count_framed_notes(blob, header.order, table.headers[i].sh_addralign),
            };
            let count = match framed {
                Some(count) => count,
                None => {
                    proof {
                        notes_error_stays(
                            data@,
                            table.headers@,
                            texts(table.names@),
                            header.order,
                            i + 1,
                            table.headers.len() as int,
                        );
                    }
                    return Err(ElfError::TruncatedTable);
                },
            };
            let notes = match stream_notes(data, i) {
                Ok(notes) => notes,
                Err(e) => {
                    proof {
                        notes_error_stays(
                            data@,
                            table.headers@,
                            texts(table.names@),
                            header.order,
                            i + 1,
                            table.headers.len() as int,
                        );
                    }
                    return Err(decode_error(data.len(), &e));
                },
            };
            if notes.len() != count {
                proof {
                    notes_error_stays(
                        data@,
                        table.headers@,
                        texts(table.names@),
                        header.order,
                        i + 1,
                        table.headers.len() as int,
                    );
                }
                return Err(ElfError::InvalidBitfield);
            }
            let section = NoteSection { index: i, name: table.names[i].clone(), notes };
            proof {
                assert(note_views(out@.push(section)) =~= note_views(out@).push(section@));
            }
            out.push(section);
        }
        i += 1;
    }
    Ok(out)
}

} // verus!
