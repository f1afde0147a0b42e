//! The linked lists of the GNU version tables, checked before they are
//! walked.
//!
//! A version table is a chain of entries, each with a chain of auxiliary
//! records of its own. Every link is a distance in bytes from the record that
//! holds it. A chain is sound when each of the records that its counts
//! promise lies inside the table and every link but the last leads forward.

use crate::fields::{spec_u16_at, spec_u32_at, u16_at, u32_at};
use crate::model::{ByteOrder, SectionHeader};
use crate::sections::{section_range, spec_section_range};
use vstd::prelude::*;

verus! {

/// Where the fields of a version table's records lie.
#[derive(Clone, Copy, Debug, PartialEq, Eq, Structural)]
pub struct ChainLayout {
    /// The size of an entry.
    pub head: usize,
    /// Where an entry holds the number of its auxiliary records, 16 bits.
    pub count_at: usize,
    /// Where an entry holds the distance to its first auxiliary record.
    pub aux_at: usize,
    /// Where an entry holds the distance to the next entry.
    pub next_at: usize,
    /// The size of an auxiliary record.
    pub aux_size: usize,
    /// Where an auxiliary record holds the distance to the next one.
    pub aux_next_at: usize,
}

impl ChainLayout {
    /// Every field lies inside its record, and the records are small.
    pub open spec fn well_formed(&self) -> bool {
        &&& 2 <= self.head <= 64
        &&& self.aux_size <= 64
        &&& self.count_at + 2 <= self.head
        &&& self.aux_at + 4 <= self.head
        &&& self.next_at + 4 <= self.head
        &&& self.aux_next_at + 4 <= self.aux_size
    }
}

/// The layout of the table of needed versions: entries of 16 bytes with
/// auxiliary records of 16 bytes.
pub open spec fn spec_needs_layout() -> ChainLayout {
    ChainLayout { head: 16, count_at: 2, aux_at: 8, next_at: 12, aux_size: 16, aux_next_at: 12 }
}

/// The layout of the table of defined versions: entries of 20 bytes with
/// auxiliary records of 8 bytes.
pub open spec fn spec_definitions_layout() -> ChainLayout {
    ChainLayout { head: 20, count_at: 6, aux_at: 12, next_at: 16, aux_size: 8, aux_next_at: 4 }
}

/// The layout of the table of needed versions.
pub fn needs_layout() -> (r: ChainLayout)
    ensures
        r == spec_needs_layout(),
        r.well_formed(),
{
    ChainLayout { head: 16, count_at: 2, aux_at: 8, next_at: 12, aux_size: 16, aux_next_at: 12 }
}

/// The layout of the table of defined versions.
pub fn definitions_layout() -> (r: ChainLayout)
    ensures
        r == spec_definitions_layout(),
        r.well_formed(),
{
    ChainLayout { head: 20, count_at: 6, aux_at: 12, next_at: 16, aux_size: 8, aux_next_at: 4 }
}

/// Whether `remaining` auxiliary records can be walked from `offset`: each
/// lies inside the blob, its link leads to a place inside the blob, and each
/// but the last holds a link that is not 0.
pub open spec fn aux_sound(
    blob: Seq<u8>,
    order: ByteOrder,
    layout: ChainLayout,
    offset: int,
    remaining: nat,
) -> bool
    decreases remaining,
{
    remaining == 0 || {
        &&& 0 <= offset
        &&& offset + layout.aux_size <= blob.len()
        &&& offset + spec_u32_at(blob, offset + layout.aux_next_at, order) <= blob.len()
        &&& remaining == 1 || {
            &&& spec_u32_at(blob, offset + layout.aux_next_at, order) != 0
            &&& aux_sound(
                blob,
                order,
                layout,
                offset + spec_u32_at(blob, offset + layout.aux_next_at, order),
                (remaining - 1) as nat,
            )
        }
    }
}

/// Whether `remaining` entries can be walked from `offset`: each lies inside
/// the blob and bears the structure version 1; its link and the distance to
/// its auxiliary records lead to places inside the blob, whether or not it
/// counts any; its auxiliary records can be walked; and each but the last
/// holds a link that is not 0. No offset of such a walk exceeds the length of
/// the blob.
pub open spec fn chain_sound(
    blob: Seq<u8>,
    order: ByteOrder,
    layout: ChainLayout,
    offset: int,
    remaining: nat,
) -> bool
    decreases remaining,
{
    remaining == 0 || {
        &&& 0 <= offset
        &&& offset + layout.head <= blob.len()
        &&& spec_u16_at(blob, offset, order) == 1
        &&& offset + spec_u32_at(blob, offset + layout.aux_at, order) <= blob.len()
        &&& offset + spec_u32_at(blob, offset + layout.next_at, order) <= blob.len()
        &&& aux_sound(
            blob,
            order,
            layout,
            offset + spec_u32_at(blob, offset + layout.aux_at, order),
            spec_u16_at(blob, offset + layout.count_at, order) as nat,
        )
        &&& remaining == 1 || {
            &&& spec_u32_at(blob, offset + layout.next_at, order) != 0
            &&& chain_sound(
                blob,
                order,
                layout,
                offset + spec_u32_at(blob, offset + layout.next_at, order),
                (remaining - 1) as nat,
            )
        }
    }
}

/// Walks `count` auxiliary records from `start` and tells whether the walk
/// stays inside the blob. The walk takes at most `count` hops.
pub fn aux_is_sound(blob: &[u8], order: ByteOrder, layout: &ChainLayout, start: usize, count: u16) -> (r:
    bool)
    requires
        layout.well_formed(),
    ensures
        r == aux_sound(blob@, order, *layout, start as int, count as nat),
{
    let mut offset = start;
    let mut remaining = count;
    while remaining > 0
        invariant
            layout.well_formed(),
            aux_sound(blob@, order, *layout, start as int, count as nat) == aux_sound(
                blob@,
                order,
                *layout,
                offset as int,
                remaining as nat,
            ),
        decreases remaining,
    {
        if blob.len() < layout.aux_size || offset > blob.len() - layout.aux_size {
            return false;
        }
        let next = match u32_at(blob, offset + layout.aux_next_at, order) {
            Some(next) => next,
            None => {
                return false;
            },
        };
        if next as usize > blob.len() - offset {
            return false;
        }
        if remaining == 1 {
            return true;
        }
        if next == 0 {
            return false;
        }
        offset = offset + next as usize;
        remaining = remaining - 1;
    }
    true
}

/// Walks `count` entries of a version table from its start, and the
/// auxiliary records of each, and tells whether every walk stays inside the
/// blob. The walk takes at most `count` hops, whatever the links hold.
pub fn chain_is_sound(blob: &[u8], order: ByteOrder, layout: &ChainLayout, count: u32) -> (r: bool)
    requires
        layout.well_formed(),
    ensures
        r == chain_sound(blob@, order, *layout, 0, count as nat),
{
    let mut offset: usize = 0;
    let mut remaining = count;
    while remaining > 0
        invariant
            layout.well_formed(),
            chain_sound(blob@, order, *layout, 0, count as nat) == chain_sound(
                blob@,
                order,
                *layout,
                offset as int,
                remaining as nat,
            ),
        decreases remaining,
    {
        if blob.len() < layout.head || offset > blob.len() - layout.head {
            return false;
        }
        let version = u16_at(blob, offset, order);
        let records = u16_at(blob, offset + layout.count_at, order);
        let aux = u32_at(blob, offset + layout.aux_at, order);
        let next = u32_at(blob, offset + layout.next_at, order);
        let (version, records, aux, next) = match (version, records, aux, next) {
            (Some(version), Some(records), Some(aux), Some(next)) => (version, records, aux, next),
            _ => {
                return false;
            },
        };
        if version != 1 {
            return false;
        }
        if aux as usize > blob.len() - offset || next as usize > blob.len() - offset {
            return false;
        }
        if !aux_is_sound(blob, order, layout, offset + aux as usize, records) {
            return false;
        }
        if remaining == 1 {
            return true;
        }
        if next == 0 {
            return false;
        }
        offset = offset + next as usize;
        remaining = remaining - 1;
    }
    true
}

/// The layout of the version table that a section of this type holds.
pub open spec fn layout_of(sh_type: u32) -> ChainLayout {
    if sh_type == 0x6ffffffe {
        spec_needs_layout()
    } else {
        spec_definitions_layout()
    }
}

/// Whether a section holds one of the two chained version tables: the needed
/// versions, type 0x6ffffffe, or the defined versions, type 0x6ffffffd.
pub open spec fn holds_chain(s: SectionHeader) -> bool {
    s.sh_type == 0x6ffffffe || s.sh_type == 0x6ffffffd
}

/// Whether the version table in the section at `index`, if the section holds
/// one, is sound: the section ends inside the file, and the chain of as many
/// entries as the section's info field counts can be walked inside it.
pub open spec fn section_chain_sound(
    data: Seq<u8>,
    headers: Seq<SectionHeader>,
    order: ByteOrder,
    index: int,
) -> bool {
    holds_chain(headers[index]) ==> match spec_section_range(data, headers[index]) {
        None => false,
        Some(blob) => chain_sound(
            blob,
            order,
            layout_of(headers[index].sh_type),
            0,
            headers[index].sh_info as nat,
        ),
    }
}

/// Whether the version tables in the first `n` sections are sound.
pub open spec fn chains_sound_upto(
    data: Seq<u8>,
    headers: Seq<SectionHeader>,
    order: ByteOrder,
    n: int,
) -> bool
    decreases n,
{
    n <= 0 || (chains_sound_upto(data, headers, order, n - 1) && section_chain_sound(
        data,
        headers,
        order,
        n - 1,
    ))
}

/// Once the tables up to some point are not all sound, no longer prefix is.
pub proof fn unsound_chain_stays(
    data: Seq<u8>,
    headers: Seq<SectionHeader>,
    order: ByteOrder,
    m: int,
    n: int,
)
    requires
        0 <= m <= n,
        !chains_sound_upto(data, headers, order, m),
    ensures
        !chains_sound_upto(data, headers, order, n),
    decreases n - m,
{
    if m < n {
        unsound_chain_stays(data, headers, order, m, n - 1);
    }
}

/// Checks every chained version table among the sections of a file.
pub fn chains_are_sound(data: &[u8], headers: &Vec<SectionHeader>, order: ByteOrder) -> (r: bool)
    ensures
        r == chains_sound_upto(data@, headers@, order, headers@.len() as int),
{
    let mut i: usize = 0;
    while i < headers.len()
        invariant
            i <= headers.len(),
            chains_sound_upto(data@, headers@, order, i as int),
        decreases headers.len() - i,
    {
        let sh_type = headers[i].sh_type;
        if sh_type == 0x6ffffffe || sh_type == 0x6ffffffd {
            let layout = if sh_type == 0x6ffffffe {
                needs_layout()
            } else {
                definitions_layout()
            };
            let sound = match section_range(data, &headers[i]) {
                None => false,
                Some(blob) => chain_is_sound(blob, order, &layout, headers[i].sh_info),
            };
            if !sound {
                proof {
                    assert(!section_chain_sound(data@, headers@, order, i as int));
                    unsound_chain_stays(data@, headers@, order, i + 1, headers@.len() as int);
                }
                return false;
            }
        }
        i += 1;
    }
    true
}

} // verus!
