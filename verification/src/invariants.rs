//! What a well-formed file keeps true of its header, sections and segments.
//! The decoders hand out what a file says; these checks tell whether it is
//! consistent.

use crate::model::{FileHeader, ProgramHeader, SectionHeader};
use vstd::prelude::*;

verus! {

/// Both header tables end inside a file of `len` bytes: each offset plus the
/// entry count times the entry size is at most `len`.
pub open spec fn spec_tables_fit(h: FileHeader, len: nat) -> bool {
    &&& h.e_phoff + h.e_phnum * h.e_phentsize <= len
    &&& h.e_shoff + h.e_shnum * h.e_shentsize <= len
}

/// Whether a table of `count` entries of `size` bytes at `offset` ends inside
/// `len` bytes.
pub fn table_fits(offset: u64, count: u16, size: u16, len: u64) -> (r: bool)
    ensures
        r == (offset + count * size <= len),
{
    assert(count * size <= 0xffff * 0xffff) by (nonlinear_arith)
        requires
            count <= 0xffff,
            size <= 0xffff,
    ;
    let extent: u64 = count as u64 * size as u64;
    extent <= len && offset <= len - extent
}

/// Tells whether both header tables end inside a file of `len` bytes.
pub fn tables_fit(h: &FileHeader, len: u64) -> (r: bool)
    ensures
        r == spec_tables_fit(*h, len as nat),
{
    table_fits(h.e_phoff, h.e_phnum, h.e_phentsize, len) && table_fits(
        h.e_shoff,
        h.e_shnum,
        h.e_shentsize,
        len,
    )
}

/// A section's bytes end inside a file of `len` bytes, unless the section has
/// no file content.
pub open spec fn spec_section_fits(s: SectionHeader, len: nat) -> bool {
    s.sh_type == 8 || s.sh_offset + s.sh_size <= len
}

/// Tells whether a section's bytes end inside a file of `len` bytes.
pub fn section_fits(s: &SectionHeader, len: u64) -> (r: bool)
    ensures
        r == spec_section_fits(*s, len as nat),
{
    s.sh_type == 8 || (s.sh_size <= len && s.sh_offset <= len - s.sh_size)
}

/// The section types whose link field names another section: symbol tables,
/// relocation sections, the dynamic section, hash tables, groups, extended
/// index tables, and the three kinds of version section.
pub open spec fn spec_link_is_meaningful(sh_type: u32) -> bool {
    ||| sh_type == 2
    ||| sh_type == 4
    ||| sh_type == 5
    ||| sh_type == 6
    ||| sh_type == 9
    ||| sh_type == 11
    ||| sh_type == 17
    ||| sh_type == 18
    ||| sh_type == 0x6ffffffd
    ||| sh_type == 0x6ffffffe
    ||| sh_type == 0x6fffffff
}

/// A section's link, where it names another section, names one of the
/// `count` sections of the table.
pub open spec fn spec_link_is_valid(s: SectionHeader, count: nat) -> bool {
    spec_link_is_meaningful(s.sh_type) ==> s.sh_link < count
}

/// Tells whether a section's link, where it names another section, names one
/// of the `count` sections of the table.
pub fn link_is_valid(s: &SectionHeader, count: usize) -> (r: bool)
    ensures
        r == spec_link_is_valid(*s, count as nat),
{
    let t = s.sh_type;
    let meaningful = t == 2 || t == 4 || t == 5 || t == 6 || t == 9 || t == 11 || t == 17 || t == 18
        || t == 0x6ffffffd || t == 0x6ffffffe || t == 0x6fffffff;
    !meaningful || (s.sh_link as u64) < (count as u64)
}

/// The index of the first section that breaks one of the two rules: its bytes
/// end inside the file, and its link is valid.
pub fn first_inconsistent_section(headers: &Vec<SectionHeader>, len: u64) -> (r: Option<usize>)
    ensures
        r matches Some(i) ==> {
            &&& i < headers.len()
            &&& !(spec_section_fits(headers[i as int], len as nat) && spec_link_is_valid(
                headers[i as int],
                headers.len() as nat,
            ))
            &&& forall|j: int|
                0 <= j < i ==> spec_section_fits(headers[j], len as nat) && spec_link_is_valid(
                    headers[j],
                    headers.len() as nat,
                )
        },
        r is None ==> forall|j: int|
            0 <= j < headers.len() ==> spec_section_fits(headers[j], len as nat)
                && spec_link_is_valid(headers[j], headers.len() as nat),
{
    let mut i: usize = 0;
    while i < headers.len()
        invariant
            i <= headers.len(),
            forall|j: int|
                0 <= j < i ==> spec_section_fits(headers[j], len as nat) && spec_link_is_valid(
                    headers[j],
                    headers.len() as nat,
                ),
        decreases headers.len() - i,
    {
        if !(section_fits(&headers[i], len) && link_is_valid(&headers[i], headers.len())) {
            return Some(i);
        }
        i += 1;
    }
    None
}

/// Whether a number is a power of two: 1, or twice a power of two.
pub open spec fn spec_power_of_two(n: nat) -> bool
    decreases n,
{
    n == 1 || (n > 1 && n % 2 == 0 && spec_power_of_two(n / 2))
}

/// Tells whether a number is a power of two.
pub fn is_power_of_two(n: u64) -> (r: bool)
    ensures
        r == spec_power_of_two(n as nat),
{
    let mut m = n;
    while m > 1 && m % 2 == 0
        invariant
            spec_power_of_two(m as nat) == spec_power_of_two(n as nat),
        decreases m,
    {
        m = m / 2;
    }
    m == 1
}

/// A segment is consistent: it takes at least as much memory as it has bytes
/// in the file; its alignment is zero or a power of two; and where the
/// alignment is above 1, its address and its file offset leave the same
/// remainder by it.
pub open spec fn spec_segment_is_consistent(p: ProgramHeader) -> bool {
    &&& p.p_memsz >= p.p_filesz
    &&& p.p_align == 0 || spec_power_of_two(p.p_align as nat)
    &&& p.p_align > 1 ==> p.p_vaddr % p.p_align == p.p_offset % p.p_align
}

/// Tells whether a segment is consistent.
pub fn segment_is_consistent(p: &ProgramHeader) -> (r: bool)
    ensures
        r == spec_segment_is_consistent(*p),
{
    if p.p_memsz < p.p_filesz {
        return false;
    }
    if p.p_align != 0 && !is_power_of_two(p.p_align) {
        return false;
    }
    p.p_align <= 1 || p.p_vaddr % p.p_align == p.p_offset % p.p_align
}

} // verus!
