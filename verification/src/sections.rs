//! The section table with its names, and the bytes of a section.

use crate::error::ElfError;
use crate::header::{
    decode_error, decode_file_header, decode_section_headers, ident_error, spec_decode_error,
    spec_file_header, spec_section_headers,
};
use crate::model::{FileHeader, SectionHeader};
use crate::outside::{has_type, section_contents, stored_plainly, stream_section_data};
use crate::strtab::{offset_zero_is_the_empty_name, resolve, spec_resolve, valid_string_table};
use vstd::prelude::*;
use vstd::slice::slice_subrange;

verus! {

/// The views of a sequence of strings.
pub open spec fn texts(names: Seq<String>) -> Seq<Seq<char>> {
    Seq::new(names.len(), |i: int| names[i]@)
}

/// The names at the given offsets of a string table, in order; or the error
/// of the first offset that does not resolve.
pub open spec fn spec_resolve_all(blob: Seq<u8>, offsets: Seq<u32>) -> Result<
    Seq<Seq<char>>,
    ElfError,
>
    decreases offsets.len(),
{
    if offsets.len() == 0 {
        Ok(Seq::empty())
    } else {
        match spec_resolve_all(blob, offsets.drop_last()) {
            Err(e) => Err(e),
            Ok(names) => match spec_resolve(blob, offsets.last() as int) {
                Err(e) => Err(e),
                Ok(name) => Ok(names.push(name)),
            },
        }
    }
}

/// A result that holds a vector of strings, with each string taken by its
/// view.
pub open spec fn texts_view(r: Result<Vec<String>, ElfError>) -> Result<Seq<Seq<char>>, ElfError> {
    match r {
        Ok(v) => Ok(texts(v@)),
        Err(e) => Err(e),
    }
}

/// Resolves every offset against one string table, in order, and fails with
/// the error of the first that does not resolve.
pub fn resolve_all(blob: &[u8], offsets: &Vec<u32>) -> (r: Result<Vec<String>, ElfError>)
    ensures
        texts_view(r) == spec_resolve_all(blob@, offsets@),
{
    let mut names: Vec<String> = Vec::new();
    let mut i: usize = 0;
    proof {
        assert(texts(names@) =~= Seq::<Seq<char>>::empty());
    }
    while i < offsets.len()
        invariant
            i <= offsets.len(),
            spec_resolve_all(blob@, offsets@.take(i as int)) == Ok::<Seq<Seq<char>>, ElfError>(
                texts(names@),
            ),
        decreases offsets.len() - i,
    {
        proof {
            assert(offsets@.take(i + 1).drop_last() =~= offsets@.take(i as int));
        }
        match resolve(blob, offsets[i] as usize) {
            Ok(name) => {
                proof {
                    assert(texts(names@.push(name)) =~= texts(names@).push(name@));
                }
                names.push(name);
            },
            Err(e) => {
                proof {
                    resolve_all_fails_on(blob@, offsets@, i as int);
                }
                return Err(e);
            },
        }
        i += 1;
    }
    proof {
        assert(offsets@.take(i as int) =~= offsets@);
    }
    Ok(names)
}

/// Once a prefix of the offsets fails to resolve, every longer list fails
/// with the same error.
pub proof fn resolve_all_fails_on(blob: Seq<u8>, offsets: Seq<u32>, i: int)
    requires
        0 <= i < offsets.len(),
        spec_resolve_all(blob, offsets.take(i)) is Ok,
        spec_resolve(blob, offsets[i] as int) is Err,
    ensures
        spec_resolve_all(blob, offsets) == Err::<Seq<Seq<char>>, ElfError>(
            spec_resolve(blob, offsets[i] as int)->Err_0,
        ),
    decreases offsets.len(),
{
    if i == offsets.len() - 1 {
        assert(offsets.drop_last() =~= offsets.take(i));
    } else {
        assert(offsets.drop_last().take(i) =~= offsets.take(i));
        resolve_all_fails_on(blob, offsets.drop_last(), i);
    }
}

/// Where every offset resolves, each name is what its own offset resolves to.
pub proof fn resolve_all_each(blob: Seq<u8>, offsets: Seq<u32>, i: int)
    requires
        0 <= i < offsets.len(),
        spec_resolve_all(blob, offsets) is Ok,
    ensures
        spec_resolve_all(blob, offsets)->Ok_0.len() == offsets.len(),
        spec_resolve(blob, offsets[i] as int) == Ok::<Seq<char>, ElfError>(
            spec_resolve_all(blob, offsets)->Ok_0[i],
        ),
    decreases offsets.len(),
{
    resolve_all_len(blob, offsets);
    resolve_all_len(blob, offsets.drop_last());
    if i < offsets.len() - 1 {
        resolve_all_each(blob, offsets.drop_last(), i);
    }
}

/// In a table whose names were resolved against a valid string table, every
/// entry with name offset 0 has the empty name.
pub proof fn offset_zero_entries_have_the_empty_name(blob: Seq<u8>, offsets: Seq<u32>, i: int)
    requires
        valid_string_table(blob),
        0 <= i < offsets.len(),
        offsets[i] == 0,
        spec_resolve_all(blob, offsets) is Ok,
    ensures
        spec_resolve_all(blob, offsets)->Ok_0[i] == Seq::<char>::empty(),
{
    resolve_all_each(blob, offsets, i);
    offset_zero_is_the_empty_name(blob);
}

/// The range of the file that a section's header names: the bytes from its
/// offset on, as many as its size, where they end inside the file.
pub open spec fn spec_section_range(data: Seq<u8>, s: SectionHeader) -> Option<Seq<u8>> {
    if s.sh_offset + s.sh_size <= data.len() {
        Some(data.subrange(s.sh_offset as int, s.sh_offset + s.sh_size))
    } else {
        None
    }
}

/// A slice that may be there, taken by its view.
pub open spec fn opt_slice_view(r: Option<&[u8]>) -> Option<Seq<u8>> {
    match r {
        Some(bytes) => Some(bytes@),
        None => None,
    }
}

/// Takes the range of the file that a section's header names, where it ends
/// inside the file.
pub fn section_range<'a>(data: &'a [u8], s: &SectionHeader) -> (r: Option<&'a [u8]>)
    ensures
        opt_slice_view(r) == spec_section_range(data@, *s),
{
    let len = data.len() as u64;
    if s.sh_size > len || s.sh_offset > len - s.sh_size {
        return None;
    }
    Some(slice_subrange(data, s.sh_offset as usize, (s.sh_offset + s.sh_size) as usize))
}

/// The bytes of the section at `index`, where the file has such a section.
pub open spec fn spec_section_bytes(data: Seq<u8>, index: int) -> Result<Seq<u8>, ElfError> {
    match spec_section_headers(data) {
        Err(e) => Err(e),
        Ok(headers) => if index >= headers.len() {
            Err(ElfError::OutOfBounds)
        } else if headers[index].sh_type != 8 && headers[index].sh_offset + headers[index].sh_size
            > data.len() {
            Err(ElfError::TruncatedTable)
        } else {
            match section_contents(data, index) {
                Ok(bytes) => Ok(bytes),
                Err(e) => Err(spec_decode_error(data.len(), e)),
            }
        },
    }
}

/// A result that holds a vector, with the vector taken by its view.
pub open spec fn bytes_view(r: Result<Vec<u8>, ElfError>) -> Result<Seq<u8>, ElfError> {
    match r {
        Ok(v) => Ok(v@),
        Err(e) => Err(e),
    }
}

/// Reads the bytes of the section at `index` of the section table.
///
/// An index beyond the table is out of bounds. A section with file content
/// whose extent reaches beyond the file is a truncated table. A section
/// without file content is empty, and one that is stored uncompressed is
/// exactly its range of the file.
pub fn section_bytes(data: &[u8], index: usize) -> (r: Result<Vec<u8>, ElfError>)
    ensures
        bytes_view(r) == spec_section_bytes(data@, index as int),
        ident_error(data@) matches Some(e) ==> r == Err::<Vec<u8>, ElfError>(e),
        r matches Ok(v) ==> {
            &&& spec_section_headers(data@) matches Ok(headers)
            &&& index < headers.len()
            &&& headers[index as int].sh_type == 8 ==> v@.len() == 0
            &&& stored_plainly(data@.len(), headers[index as int]) ==> v@ == data@.subrange(
                headers[index as int].sh_offset as int,
                headers[index as int].sh_offset + headers[index as int].sh_size,
            )
        },
{
    let headers = decode_section_headers(data)?;
    if index >= headers.len() {
        return Err(ElfError::OutOfBounds);
    }
    let h = &headers[index];
    let len = data.len() as u64;
    if h.sh_type != 8 && (h.sh_size > len || h.sh_offset > len - h.sh_size) {
        return Err(ElfError::TruncatedTable);
    }
    match stream_section_data(data, index) {
        Ok(v) => Ok(v),
        Err(e) => Err(decode_error(data.len(), &e)),
    }
}

/// The index of the first section of the given type, where there is one.
pub open spec fn first_of_type(headers: Seq<SectionHeader>, sh_type: u32) -> int
    recommends
        has_type(headers, sh_type),
{
    choose|i: int|
        0 <= i < headers.len() && (#[trigger] headers[i]).sh_type == sh_type && forall|j: int|
            0 <= j < i ==> (#[trigger] headers[j]).sh_type != sh_type
}

/// Finds the first section that has the given type tag.
pub fn find_by_type(headers: &Vec<SectionHeader>, sh_type: u32) -> (r: Option<usize>)
    ensures
        r is Some <==> has_type(headers@, sh_type),
        r matches Some(i) ==> {
            &&& i < headers.len()
            &&& i == first_of_type(headers@, sh_type)
            &&& headers[i as int].sh_type == sh_type
            &&& forall|j: int| 0 <= j < i ==> headers[j].sh_type != sh_type
        },
        r is None ==> forall|j: int| 0 <= j < headers.len() ==> headers[j].sh_type != sh_type,
{
    let mut i: usize = 0;
    while i < headers.len()
        invariant
            i <= headers.len(),
            forall|j: int| 0 <= j < i ==> headers[j].sh_type != sh_type,
        decreases headers.len() - i,
    {
        if headers[i].sh_type == sh_type {
            proof {
                assert(headers@[i as int].sh_type == sh_type);
                assert(has_type(headers@, sh_type));
                let k = first_of_type(headers@, sh_type);
                assert(k == i) by {
                    if k < i {
                        assert(headers@[k].sh_type != sh_type);
                    }
                }
            }
            return Some(i);
        }
        i += 1;
    }
    None
}

/// The section table with the name of each section.
#[derive(Clone, Debug, PartialEq, Eq)]
pub struct SectionTable {
    /// The headers, in file order: a section's index is its place here.
    pub headers: Vec<SectionHeader>,
    /// The name of each section, in the same order.
    pub names: Vec<String>,
}

impl SectionTable {
    /// Every section has a name.
    pub open spec fn well_formed(&self) -> bool {
        self.names.len() == self.headers.len()
    }

    /// The index of the first section that bears this name.
    pub fn find_by_name(&self, name: &str) -> (r: Option<usize>)
        requires
            self.well_formed(),
        ensures
            r matches Some(i) ==> {
                &&& i < self.headers.len()
                &&& self.names[i as int]@ == name@
                &&& forall|j: int| 0 <= j < i ==> self.names[j]@ != name@
            },
            r is None ==> forall|j: int| 0 <= j < self.names.len() ==> self.names[j]@ != name@,
    {
        let wanted = name.to_owned();
        let mut i: usize = 0;
        while i < self.names.len()
            invariant
                i <= self.names.len(),
                self.names.len() == self.headers.len(),
                wanted@ == name@,
                forall|j: int| 0 <= j < i ==> self.names[j]@ != name@,
            decreases self.names.len() - i,
        {
            if self.names[i] == wanted {
                return Some(i);
            }
            i += 1;
        }
        None
    }
}

/// The index of the section that holds the section names, if the header
/// designates one: the header's own field, or, where that field holds the
/// escape value, the link field of the first section.
pub open spec fn name_table_index(h: FileHeader, headers: Seq<SectionHeader>) -> Option<int> {
    if headers.len() == 0 || h.e_shstrndx == 0 {
        None
    } else if h.e_shstrndx == 0xffff {
        Some(headers[0].sh_link as int)
    } else {
        Some(h.e_shstrndx as int)
    }
}

/// The name offsets of the headers, in order.
pub open spec fn name_offsets(headers: Seq<SectionHeader>) -> Seq<u32> {
    Seq::new(headers.len(), |i: int| headers[i].sh_name)
}

/// The names of the sections: resolved against the designated string table,
/// or all empty where the header designates none.
pub open spec fn spec_section_names(data: Seq<u8>) -> Result<Seq<Seq<char>>, ElfError> {
    match (spec_file_header(data), spec_section_headers(data)) {
        (Ok(h), Ok(headers)) => match name_table_index(h, headers) {
            None => Ok(Seq::new(headers.len(), |i: int| Seq::<char>::empty())),
            Some(index) => match spec_section_bytes(data, index) {
                Err(e) => Err(e),
                Ok(blob) => spec_resolve_all(blob, name_offsets(headers)),
            },
        },
        (Err(e), _) => Err(e),
        (_, Err(e)) => Err(e),
    }
}

/// Collects the name offsets of the headers.
fn collect_name_offsets(headers: &Vec<SectionHeader>) -> (r: Vec<u32>)
    ensures
        r@ == name_offsets(headers@),
{
    let mut offsets: Vec<u32> = Vec::new();
    let mut i: usize = 0;
    while i < headers.len()
        invariant
            i <= headers.len(),
            offsets@ == name_offsets(headers@).take(i as int),
        decreases headers.len() - i,
    {
        offsets.push(headers[i].sh_name);
        i += 1;
    }
    offsets
}

/// As many empty names as asked for.
fn empty_names(n: usize) -> (r: Vec<String>)
    ensures
        r.len() == n,
        texts(r@) == Seq::new(n as nat, |i: int| Seq::<char>::empty()),
{
    let mut names: Vec<String> = Vec::new();
    let mut i: usize = 0;
    while i < n
        invariant
            i <= n,
            names.len() == i,
            forall|j: int| 0 <= j < i ==> names[j]@ == Seq::<char>::empty(),
        decreases n - i,
    {
        names.push(String::new());
        i += 1;
    }
    proof {
        assert(texts(names@) =~= Seq::new(n as nat, |i: int| Seq::<char>::empty()));
    }
    names
}

/// What holds of the outcome of decoding the section table of these bytes: a
/// table has the file's headers and the names they resolve to; an error is
/// the one that the names fail with.
pub open spec fn decodes_to(data: Seq<u8>, r: Result<SectionTable, ElfError>) -> bool {
    match r {
        Ok(t) => {
            &&& t.well_formed()
            &&& spec_section_headers(data) == Ok::<Seq<SectionHeader>, ElfError>(t.headers@)
            &&& spec_section_names(data) == Ok::<Seq<Seq<char>>, ElfError>(texts(t.names@))
        },
        Err(e) => spec_section_names(data) == Err::<Seq<Seq<char>>, ElfError>(e),
    }
}

/// Decoding the section table of the same bytes twice gives the same
/// outcome: the same headers and the same names, or the same error.
pub proof fn section_table_is_repeatable(
    data: Seq<u8>,
    first: Result<SectionTable, ElfError>,
    second: Result<SectionTable, ElfError>,
)
    requires
        decodes_to(data, first),
        decodes_to(data, second),
    ensures
        first is Ok <==> second is Ok,
        first matches Ok(a) ==> second matches Ok(b) && a.headers@ == b.headers@ && texts(a.names@)
            == texts(b.names@),
        first matches Err(e) ==> second == Err::<SectionTable, ElfError>(e),
{
}

/// Decodes the section table and the name of every section.
///
/// The names come from the string table that the header designates; a name
/// offset that does not resolve there fails the whole table. A file without
/// sections gives an empty table, and one that designates no string table
/// gives every section the empty name.
pub fn decode_section_table(data: &[u8]) -> (r: Result<SectionTable, ElfError>)
    ensures
        decodes_to(data@, r),
        ident_error(data@) matches Some(e) ==> r == Err::<SectionTable, ElfError>(e),
        r matches Ok(t) ==> (spec_file_header(data@) matches Ok(h) && h.e_shoff == 0
            ==> t.headers@.len() == 0 && t.names@.len() == 0),
{
    let h = decode_file_header(data)?;
    let headers = decode_section_headers(data)?;
    if headers.len() == 0 || h.e_shstrndx == 0 {
        let names = empty_names(headers.len());
        proof {
            assert(name_table_index(h, headers@) is None);
            assert(spec_file_header(data@) == Ok::<FileHeader, ElfError>(h));
            assert(spec_section_headers(data@) == Ok::<Seq<SectionHeader>, ElfError>(headers@));
        }
        return Ok(SectionTable { headers, names });
    }
    let index: usize = if h.e_shstrndx == 0xffff {
        headers[0].sh_link as usize
    } else {
        h.e_shstrndx as usize
    };
    let blob = section_bytes(data, index)?;
    let offsets = collect_name_offsets(&headers);
    let names = resolve_all(blob.as_slice(), &offsets)?;
    proof {
        resolve_all_len(blob@, offsets@);
    }
    Ok(SectionTable { headers, names })
}

/// Where every offset resolves, there are as many names as offsets.
pub proof fn resolve_all_len(blob: Seq<u8>, offsets: Seq<u32>)
    ensures
        spec_resolve_all(blob, offsets) matches Ok(names) ==> names.len() == offsets.len(),
    decreases offsets.len(),
{
    if offsets.len() > 0 {
        resolve_all_len(blob, offsets.drop_last());
    }
}

} // verus!
