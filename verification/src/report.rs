//! The decoded tables as rows of text, one cell for each column.

use crate::model::{
    ByteOrder, Class, DynamicEntry, FileHeader, Note, ProgramHeader, Rel, Rela, SectionHeader,
    Symbol,
};
use crate::outside::{
    abi_tag_os_name, abi_tag_os_text, e_machine_name, e_machine_text, e_osabi_name, e_osabi_text,
    e_type_name, e_type_text, p_flags_name, p_flags_text, p_type_name, p_type_text, sh_type_name,
    sh_type_text, st_bind_name, st_bind_text, st_symtype_name, st_symtype_text, st_vis_name,
    st_vis_text,
};
use crate::sections::{texts, SectionTable};
use crate::symbols::NamedSymbol;
use crate::text::{
    bytes_hex, decimal, hex, hex_bits, push_byte_hex, spec_bits, spec_byte_hex, spec_bytes_hex,
    spec_decimal, spec_hex,
};
use crate::versions::VersionedSymbol;
use vstd::prelude::*;
use vstd::string::StringExecFns;

verus! {

/// A piece of fixed text as an owned string.
fn text(s: &str) -> (r: String)
    ensures
        r@ == s@,
{
    s.to_owned()
}

/// The name of a class.
pub open spec fn spec_class_text(class: Class) -> Seq<char> {
    match class {
        Class::Elf32 => "32-bit"@,
        Class::Elf64 => "64-bit"@,
    }
}

/// The name of a byte order.
pub open spec fn spec_order_text(order: ByteOrder) -> Seq<char> {
    match order {
        ByteOrder::Little => "little-endian"@,
        ByteOrder::Big => "big-endian"@,
    }
}

/// The one-line summary of a file header.
pub open spec fn spec_file_header_line(h: FileHeader) -> Seq<char> {
    "File Header for "@ + spec_class_text(h.class) + " "@ + spec_order_text(h.order) + " Elf "@
        + e_type_text(h.e_type) + " for "@ + e_osabi_text(h.osabi) + " "@ + e_machine_text(
        h.e_machine,
    )
}

/// Writes the one-line summary of a file header: its class, byte order, file
/// type, OS ABI and machine.
pub fn file_header_line(h: &FileHeader) -> (r: String)
    ensures
        r@ == spec_file_header_line(*h),
{
    let mut s = text("File Header for ");
    match h.class {
        Class::Elf32 => s.append("32-bit"),
        Class::Elf64 => s.append("64-bit"),
    }
    s.append(" ");
    match h.order {
        ByteOrder::Little => s.append("little-endian"),
        ByteOrder::Big => s.append("big-endian"),
    }
    s.append(" Elf ");
    s.append(e_type_name(h.e_type).as_str());
    s.append(" for ");
    s.append(e_osabi_name(h.osabi).as_str());
    s.append(" ");
    s.append(e_machine_name(h.e_machine).as_str());
    s
}

/// The column titles of the program header table.
pub open spec fn spec_program_header_titles() -> Seq<Seq<char>> {
    seq![
        "p_type"@,
        "p_offset"@,
        "p_vaddr"@,
        "p_paddr"@,
        "p_filesz"@,
        "p_memsz"@,
        "p_align"@,
        "p_flags"@,
    ]
}

/// The column titles of the program header table.
pub fn program_header_titles() -> (r: Vec<String>)
    ensures
        texts(r@) == spec_program_header_titles(),
{
    let r = vec![
        text("p_type"),
        text("p_offset"),
        text("p_vaddr"),
        text("p_paddr"),
        text("p_filesz"),
        text("p_memsz"),
        text("p_align"),
        text("p_flags"),
    ];
    proof {
        assert(texts(r@) =~= spec_program_header_titles());
    }
    r
}

/// The cells of one program header: its type by name, its offset, addresses
/// and sizes in hexadecimal, its alignment in decimal, its flags by name.
pub open spec fn spec_program_header_row(p: ProgramHeader) -> Seq<Seq<char>> {
    seq![
        p_type_text(p.p_type),
        spec_hex(p.p_offset as nat, false),
        spec_hex(p.p_vaddr as nat, false),
        spec_hex(p.p_paddr as nat, false),
        spec_hex(p.p_filesz as nat, false),
        spec_hex(p.p_memsz as nat, false),
        spec_decimal(p.p_align as nat),
        p_flags_text(p.p_flags),
    ]
}

/// Lays out one program header.
pub fn program_header_row(p: &ProgramHeader) -> (r: Vec<String>)
    ensures
        texts(r@) == spec_program_header_row(*p),
{
    let r = vec![
        p_type_name(p.p_type),
        hex(p.p_offset, false),
        hex(p.p_vaddr, false),
        hex(p.p_paddr, false),
        hex(p.p_filesz, false),
        hex(p.p_memsz, false),
        decimal(p.p_align),
        p_flags_name(p.p_flags),
    ];
    proof {
        assert(texts(r@) =~= spec_program_header_row(*p));
    }
    r
}

/// Lays out the program header table, one row for each segment, in order.
pub fn program_header_rows(segments: &Vec<ProgramHeader>) -> (r: Vec<Vec<String>>)
    ensures
        r.len() == segments.len(),
        forall|i: int|
            0 <= i < r.len() ==> texts(#[trigger] r[i]@) == spec_program_header_row(segments[i]),
{
    let mut rows: Vec<Vec<String>> = Vec::new();
    let mut i: usize = 0;
    while i < segments.len()
        invariant
            i <= segments.len(),
            rows.len() == i,
            forall|j: int|
                0 <= j < i ==> texts(#[trigger] rows[j]@) == spec_program_header_row(segments[j]),
        decreases segments.len() - i,
    {
        rows.push(program_header_row(&segments[i]));
        i += 1;
    }
    rows
}

/// The column titles of the section table.
pub open spec fn spec_section_titles() -> Seq<Seq<char>> {
    seq![
        "index"@,
        "name"@,
        "sh_type"@,
        "sh_addr"@,
        "sh_offset"@,
        "sh_size"@,
        "sh_entsize"@,
        "sh_flags"@,
        "sh_link"@,
        "sh_info"@,
        "sh_addralign"@,
    ]
}

/// The column titles of the section table.
pub fn section_titles() -> (r: Vec<String>)
    ensures
        texts(r@) == spec_section_titles(),
{
    let r = vec![
        text("index"),
        text("name"),
        text("sh_type"),
        text("sh_addr"),
        text("sh_offset"),
        text("sh_size"),
        text("sh_entsize"),
        text("sh_flags"),
        text("sh_link"),
        text("sh_info"),
        text("sh_addralign"),
    ];
    proof {
        assert(texts(r@) =~= spec_section_titles());
    }
    r
}

/// The cells of one section: its index, name, type by name, then its
/// address, offset, size and flags in hexadecimal and its entry size, link,
/// info and alignment in decimal.
pub open spec fn spec_section_row(index: nat, name: Seq<char>, s: SectionHeader) -> Seq<Seq<char>> {
    seq![
        spec_decimal(index),
        name,
        sh_type_text(s.sh_type),
        spec_hex(s.sh_addr as nat, false),
        spec_hex(s.sh_offset as nat, false),
        spec_hex(s.sh_size as nat, false),
        spec_decimal(s.sh_entsize as nat),
        spec_hex(s.sh_flags as nat, false),
        spec_decimal(s.sh_link as nat),
        spec_decimal(s.sh_info as nat),
        spec_decimal(s.sh_addralign as nat),
    ]
}

/// Lays out one section.
pub fn section_row(index: usize, name: &String, s: &SectionHeader) -> (r: Vec<String>)
    ensures
        texts(r@) == spec_section_row(index as nat, name@, *s),
{
    let r = vec![
        decimal(index as u64),
        name.clone(),
        sh_type_name(s.sh_type),
        hex(s.sh_addr, false),
        hex(s.sh_offset, false),
        hex(s.sh_size, false),
        decimal(s.sh_entsize),
        hex(s.sh_flags, false),
        decimal(s.sh_link as u64),
        decimal(s.sh_info as u64),
        decimal(s.sh_addralign),
    ];
    proof {
        assert(texts(r@) =~= spec_section_row(index as nat, name@, *s));
    }
    r
}

/// Lays out the section table, one row for each section, in order.
pub fn section_rows(table: &SectionTable) -> (r: Vec<Vec<String>>)
    requires
        table.well_formed(),
    ensures
        r.len() == table.headers.len(),
        forall|i: int|
            0 <= i < r.len() ==> texts(#[trigger] r[i]@) == spec_section_row(
                i as nat,
                table.names[i]@,
                table.headers[i],
            ),
{
    let mut rows: Vec<Vec<String>> = Vec::new();
    let mut i: usize = 0;
    while i < table.headers.len()
        invariant
            i <= table.headers.len(),
            table.well_formed(),
            rows.len() == i,
            forall|j: int|
                0 <= j < i ==> texts(#[trigger] rows[j]@) == spec_section_row(
                    j as nat,
                    table.names[j]@,
                    table.headers[j],
                ),
        decreases table.headers.len() - i,
    {
        rows.push(section_row(i, &table.names[i], &table.headers[i]));
        i += 1;
    }
    rows
}

/// The column titles of a symbol table.
pub open spec fn spec_symbol_titles() -> Seq<Seq<char>> {
    seq!["ndx"@, "value"@, "size"@, "type"@, "bind"@, "visibility"@, "shndx"@, "name"@]
}

/// The column titles of a symbol table.
pub fn symbol_titles() -> (r: Vec<String>)
    ensures
        texts(r@) == spec_symbol_titles(),
{
    let r = vec![
        text("ndx"),
        text("value"),
        text("size"),
        text("type"),
        text("bind"),
        text("visibility"),
        text("shndx"),
        text("name"),
    ];
    proof {
        assert(texts(r@) =~= spec_symbol_titles());
    }
    r
}

/// The cells of one symbol, up to its section index: its index in the table,
/// its value in hexadecimal, its size in decimal, its type, binding and
/// visibility by name, its section index in decimal.
pub open spec fn spec_symbol_cells(index: nat, s: Symbol) -> Seq<Seq<char>> {
    seq![
        spec_decimal(index),
        spec_hex(s.st_value as nat, false),
        spec_decimal(s.st_size as nat),
        st_symtype_text(s.st_symtype),
        st_bind_text(s.st_bind),
        st_vis_text(s.st_vis),
        spec_decimal(s.st_shndx as nat),
    ]
}

/// The cells of one symbol: those of `spec_symbol_cells`, then its name.
pub open spec fn spec_symbol_row(index: nat, name: Seq<char>, s: Symbol) -> Seq<Seq<char>> {
    spec_symbol_cells(index, s).push(name)
}

/// Lays out the cells that every symbol table shows of a symbol.
fn symbol_cells(index: usize, s: &Symbol) -> (r: Vec<String>)
    ensures
        texts(r@) == spec_symbol_cells(index as nat, *s),
{
    let r = vec![
        decimal(index as u64),
        hex(s.st_value, false),
        decimal(s.st_size),
        st_symtype_name(s.st_symtype),
        st_bind_name(s.st_bind),
        st_vis_name(s.st_vis),
        decimal(s.st_shndx as u64),
    ];
    proof {
        assert(texts(r@) =~= spec_symbol_cells(index as nat, *s));
    }
    r
}

/// Lays out one symbol.
pub fn symbol_row(index: usize, entry: &NamedSymbol) -> (r: Vec<String>)
    ensures
        texts(r@) == spec_symbol_row(index as nat, entry.name@, entry.symbol),
{
    let mut r = symbol_cells(index, &entry.symbol);
    let name = entry.name.clone();
    proof {
        assert(texts(r@.push(name)) =~= texts(r@).push(name@));
    }
    r.push(name);
    r
}

/// Lays out a symbol table, one row for each symbol, in order.
pub fn symbol_rows(table: &Vec<NamedSymbol>) -> (r: Vec<Vec<String>>)
    ensures
        r.len() == table.len(),
        forall|i: int|
            0 <= i < r.len() ==> texts(#[trigger] r[i]@) == spec_symbol_row(
                i as nat,
                table[i].name@,
                table[i].symbol,
            ),
{
    let mut rows: Vec<Vec<String>> = Vec::new();
    let mut i: usize = 0;
    while i < table.len()
        invariant
            i <= table.len(),
            rows.len() == i,
            forall|j: int|
                0 <= j < i ==> texts(#[trigger] rows[j]@) == spec_symbol_row(
                    j as nat,
                    table[j].name@,
                    table[j].symbol,
                ),
        decreases table.len() - i,
    {
        rows.push(symbol_row(i, &table[i]));
        i += 1;
    }
    rows
}

/// The column titles of the dynamic symbol table.
pub open spec fn spec_dynamic_symbol_titles() -> Seq<Seq<char>> {
    seq![
        "ndx"@,
        "value"@,
        "size"@,
        "type"@,
        "bind"@,
        "visibility"@,
        "shndx"@,
        "needs version"@,
        "name"@,
    ]
}

/// The column titles of the dynamic symbol table.
pub fn dynamic_symbol_titles() -> (r: Vec<String>)
    ensures
        texts(r@) == spec_dynamic_symbol_titles(),
{
    let r = vec![
        text("ndx"),
        text("value"),
        text("size"),
        text("type"),
        text("bind"),
        text("visibility"),
        text("shndx"),
        text("needs version"),
        text("name"),
    ];
    proof {
        assert(texts(r@) =~= spec_dynamic_symbol_titles());
    }
    r
}

/// The cell that says which version a dynamic symbol needs: the version's
/// name for an undefined symbol that is bound to one, `None` for any other.
pub open spec fn spec_needs_cell(entry: VersionedSymbol) -> Seq<char> {
    match entry.version {
        Some(v) => if entry.symbol.st_shndx == 0 {
            v.name@
        } else {
            "None"@
        },
        None => "None"@,
    }
}

/// The cells of one dynamic symbol: those of `spec_symbol_cells`, the version
/// it needs, then its name.
pub open spec fn spec_dynamic_symbol_row(index: nat, entry: VersionedSymbol) -> Seq<Seq<char>> {
    spec_symbol_cells(index, entry.symbol).push(spec_needs_cell(entry)).push(entry.name@)
}

/// Lays out one dynamic symbol.
pub fn dynamic_symbol_row(index: usize, entry: &VersionedSymbol) -> (r: Vec<String>)
    ensures
        texts(r@) == spec_dynamic_symbol_row(index as nat, *entry),
{
    let mut r = symbol_cells(index, &entry.symbol);
    let needs = match &entry.version {
        Some(v) => if entry.symbol.st_shndx == 0 {
            v.name.clone()
        } else {
            text("None")
        },
        None => text("None"),
    };
    let name = entry.name.clone();
    proof {
        assert(texts(r@.push(needs).push(name)) =~= texts(r@).push(needs@).push(name@));
    }
    r.push(needs);
    r.push(name);
    r
}

/// Lays out the dynamic symbol table, one row for each symbol, in order.
pub fn dynamic_symbol_rows(table: &Vec<VersionedSymbol>) -> (r: Vec<Vec<String>>)
    ensures
        r.len() == table.len(),
        forall|i: int|
            0 <= i < r.len() ==> texts(#[trigger] r[i]@) == spec_dynamic_symbol_row(
                i as nat,
                table[i],
            ),
{
    let mut rows: Vec<Vec<String>> = Vec::new();
    let mut i: usize = 0;
    while i < table.len()
        invariant
            i <= table.len(),
            rows.len() == i,
            forall|j: int|
                0 <= j < i ==> texts(#[trigger] rows[j]@) == spec_dynamic_symbol_row(
                    j as nat,
                    table[j],
                ),
        decreases table.len() - i,
    {
        rows.push(dynamic_symbol_row(i, &table[i]));
        i += 1;
    }
    rows
}

/// The column titles of the dynamic table.
pub open spec fn spec_dynamic_titles() -> Seq<Seq<char>> {
    seq!["d_tag"@, "d_ptr/d_val"@]
}

/// The column titles of the dynamic table.
pub fn dynamic_titles() -> (r: Vec<String>)
    ensures
        texts(r@) == spec_dynamic_titles(),
{
    let r = vec![text("d_tag"), text("d_ptr/d_val")];
    proof {
        assert(texts(r@) =~= spec_dynamic_titles());
    }
    r
}

/// The cells of one dynamic entry: its tag and its value, both as upper-case
/// hexadecimal, a negative tag as its 64 bits.
pub open spec fn spec_dynamic_row(d: DynamicEntry) -> Seq<Seq<char>> {
    seq![spec_hex(spec_bits(d.d_tag), true), spec_hex(d.d_val as nat, true)]
}

/// Lays out one dynamic entry.
pub fn dynamic_row(d: &DynamicEntry) -> (r: Vec<String>)
    ensures
        texts(r@) == spec_dynamic_row(*d),
{
    let r = vec![hex_bits(d.d_tag, true), hex(d.d_val, true)];
    proof {
        assert(texts(r@) =~= spec_dynamic_row(*d));
    }
    r
}

/// Lays out the dynamic table, one row for each entry, in order.
pub fn dynamic_rows(entries: &Vec<DynamicEntry>) -> (r: Vec<Vec<String>>)
    ensures
        r.len() == entries.len(),
        forall|i: int| 0 <= i < r.len() ==> texts(#[trigger] r[i]@) == spec_dynamic_row(entries[i]),
{
    let mut rows: Vec<Vec<String>> = Vec::new();
    let mut i: usize = 0;
    while i < entries.len()
        invariant
            i <= entries.len(),
            rows.len() == i,
            forall|j: int|
                0 <= j < i ==> texts(#[trigger] rows[j]@) == spec_dynamic_row(entries[j]),
        decreases entries.len() - i,
    {
        rows.push(dynamic_row(&entries[i]));
        i += 1;
    }
    rows
}

/// The column titles of a table of relocations without addend.
pub open spec fn spec_rel_titles() -> Seq<Seq<char>> {
    seq!["r_type"@, "r_sym"@, "r_offset"@]
}

/// The column titles of a table of relocations with addend.
pub open spec fn spec_rela_titles() -> Seq<Seq<char>> {
    seq!["r_type"@, "r_sym"@, "r_offset"@, "r_addend"@]
}

/// The column titles of a table of relocations without addend.
pub fn rel_titles() -> (r: Vec<String>)
    ensures
        texts(r@) == spec_rel_titles(),
{
    let r = vec![text("r_type"), text("r_sym"), text("r_offset")];
    proof {
        assert(texts(r@) =~= spec_rel_titles());
    }
    r
}

/// The column titles of a table of relocations with addend.
pub fn rela_titles() -> (r: Vec<String>)
    ensures
        texts(r@) == spec_rela_titles(),
{
    let r = vec![text("r_type"), text("r_sym"), text("r_offset"), text("r_addend")];
    proof {
        assert(texts(r@) =~= spec_rela_titles());
    }
    r
}

/// The cells of one relocation without addend: its type, symbol and offset,
/// as upper-case hexadecimal.
pub open spec fn spec_rel_row(x: Rel) -> Seq<Seq<char>> {
    seq![
        spec_hex(x.r_type as nat, true),
        spec_hex(x.r_sym as nat, true),
        spec_hex(x.r_offset as nat, true),
    ]
}

/// The cells of one relocation with addend: those of one without, then the
/// addend as the upper-case hexadecimal of its 64 bits.
pub open spec fn spec_rela_row(x: Rela) -> Seq<Seq<char>> {
    seq![
        spec_hex(x.r_type as nat, true),
        spec_hex(x.r_sym as nat, true),
        spec_hex(x.r_offset as nat, true),
        spec_hex(spec_bits(x.r_addend), true),
    ]
}

/// Lays out one relocation without addend.
pub fn rel_row(x: &Rel) -> (r: Vec<String>)
    ensures
        texts(r@) == spec_rel_row(*x),
{
    let r = vec![hex(x.r_type as u64, true), hex(x.r_sym as u64, true), hex(x.r_offset, true)];
    proof {
        assert(texts(r@) =~= spec_rel_row(*x));
    }
    r
}

/// Lays out one relocation with addend.
pub fn rela_row(x: &Rela) -> (r: Vec<String>)
    ensures
        texts(r@) == spec_rela_row(*x),
{
    let r = vec![
        hex(x.r_type as u64, true),
        hex(x.r_sym as u64, true),
        hex(x.r_offset, true),
        hex_bits(x.r_addend, true),
    ];
    proof {
        assert(texts(r@) =~= spec_rela_row(*x));
    }
    r
}

/// Lays out the records of a section without addends, in order.
pub fn rel_rows(records: &Vec<Rel>) -> (r: Vec<Vec<String>>)
    ensures
        r.len() == records.len(),
        forall|i: int| 0 <= i < r.len() ==> texts(#[trigger] r[i]@) == spec_rel_row(records[i]),
{
    let mut rows: Vec<Vec<String>> = Vec::new();
    let mut i: usize = 0;
    while i < records.len()
        invariant
            i <= records.len(),
            rows.len() == i,
            forall|j: int| 0 <= j < i ==> texts(#[trigger] rows[j]@) == spec_rel_row(records[j]),
        decreases records.len() - i,
    {
        rows.push(rel_row(&records[i]));
        i += 1;
    }
    rows
}

/// Lays out the records of a section with addends, in order.
pub fn rela_rows(records: &Vec<Rela>) -> (r: Vec<Vec<String>>)
    ensures
        r.len() == records.len(),
        forall|i: int| 0 <= i < r.len() ==> texts(#[trigger] r[i]@) == spec_rela_row(records[i]),
{
    let mut rows: Vec<Vec<String>> = Vec::new();
    let mut i: usize = 0;
    while i < records.len()
        invariant
            i <= records.len(),
            rows.len() == i,
            forall|j: int| 0 <= j < i ==> texts(#[trigger] rows[j]@) == spec_rela_row(records[j]),
        decreases records.len() - i,
    {
        rows.push(rela_row(&records[i]));
        i += 1;
    }
    rows
}

/// The bytes of a descriptor as a bracketed list: each byte as two upper-case
/// hexadecimal digits, a comma and a space between two bytes.
pub open spec fn spec_byte_list_inner(bytes: Seq<u8>) -> Seq<char>
    decreases bytes.len(),
{
    if bytes.len() == 0 {
        Seq::empty()
    } else if bytes.len() == 1 {
        spec_byte_hex(bytes[0], true)
    } else {
        spec_byte_list_inner(bytes.drop_last()) + ", "@ + spec_byte_hex(bytes.last(), true)
    }
}

/// The bracketed list of `spec_byte_list_inner`.
pub open spec fn spec_byte_list(bytes: Seq<u8>) -> Seq<char> {
    "["@ + spec_byte_list_inner(bytes) + "]"@
}

/// Writes the bytes of a descriptor as a bracketed list.
pub fn byte_list(bytes: &[u8]) -> (r: String)
    ensures
        r@ == spec_byte_list(bytes@),
{
    let mut s = text("[");
    let mut i: usize = 0;
    proof {
        assert(s@ =~= "["@ + spec_byte_list_inner(bytes@.take(0)));
    }
    while i < bytes.len()
        invariant
            i <= bytes.len(),
            s@ == "["@ + spec_byte_list_inner(bytes@.take(i as int)),
        decreases bytes.len() - i,
    {
        proof {
            assert(bytes@.take(i + 1).drop_last() =~= bytes@.take(i as int));
        }
        if i > 0 {
            s.append(", ");
        }
        push_byte_hex(&mut s, bytes[i], true);
        proof {
            assert(s@ =~= "["@ + spec_byte_list_inner(bytes@.take(i + 1)));
        }
        i += 1;
    }
    proof {
        assert(bytes@.take(i as int) =~= bytes@);
    }
    s.append("]");
    s
}

/// How a note is shown: the two recognised forms as a line of text, the
/// generic form as the cells of a row.
#[derive(Clone, Debug, PartialEq, Eq)]
pub enum NoteText {
    Line(String),
    Row(Vec<String>),
}

/// The mathematical value of a `NoteText`.
pub enum NoteTextModel {
    Line(Seq<char>),
    Row(Seq<Seq<char>>),
}

impl View for NoteText {
    type V = NoteTextModel;

    open spec fn view(&self) -> NoteTextModel {
        match self {
            NoteText::Line(s) => NoteTextModel::Line(s@),
            NoteText::Row(cells) => NoteTextModel::Row(texts(cells@)),
        }
    }
}

/// The column titles of a generic note.
pub open spec fn spec_note_titles() -> Seq<Seq<char>> {
    seq!["type"@, "name"@, "desc"@]
}

/// The column titles of a generic note.
pub fn note_titles() -> (r: Vec<String>)
    ensures
        texts(r@) == spec_note_titles(),
{
    let r = vec![text("type"), text("name"), text("desc")];
    proof {
        assert(texts(r@) =~= spec_note_titles());
    }
    r
}

/// The name of the OS of an ABI-tag note: the one the decoder knows, or the
/// number in decimal.
pub open spec fn spec_os_text(os: u32) -> Seq<char> {
    match abi_tag_os_text(os) {
        Some(name) => name,
        None => spec_decimal(os as nat),
    }
}

/// How a note is shown. An ABI tag is a line with the OS and the three parts
/// of the version; a build identifier is a line with its bytes in lower-case
/// hexadecimal; any other note is a row of its type in decimal, its name, and
/// its descriptor as a list of bytes.
pub open spec fn spec_note_text(note: Note) -> NoteTextModel {
    match note {
        Note::AbiTag { os, major, minor, subminor } => NoteTextModel::Line(
            "    OS: "@ + spec_os_text(os) + ", ABI: "@ + spec_decimal(major as nat) + "."@
                + spec_decimal(minor as nat) + "."@ + spec_decimal(subminor as nat),
        ),
        Note::BuildId { id } => NoteTextModel::Line("    Build ID: "@ + spec_bytes_hex(id@, false)),
        Note::Generic { n_type, name, desc } => NoteTextModel::Row(
            seq![spec_decimal(n_type as nat), name@, spec_byte_list(desc@)],
        ),
    }
}

/// Lays out one note.
pub fn note_text(note: &Note) -> (r: NoteText)
    ensures
        r@ == spec_note_text(*note),
{
    match note {
        Note::AbiTag { os, major, minor, subminor } => {
            let mut s = text("    OS: ");
            match abi_tag_os_name(*os) {
                Some(name) => s.append(name.as_str()),
                None => s.append(decimal(*os as u64).as_str()),
            }
            s.append(", ABI: ");
            s.append(decimal(*major as u64).as_str());
            s.append(".");
            s.append(decimal(*minor as u64).as_str());
            s.append(".");
            s.append(decimal(*subminor as u64).as_str());
            NoteText::Line(s)
        },
        Note::BuildId { id } => {
            let mut s = text("    Build ID: ");
            s.append(bytes_hex(id.as_slice(), false).as_str());
            NoteText::Line(s)
        },
        Note::Generic { n_type, name, desc } => {
            let cells = vec![decimal(*n_type), name.clone(), byte_list(desc.as_slice())];
            proof {
                assert(texts(cells@) =~= seq![
                    spec_decimal(*n_type as nat),
                    name@,
                    spec_byte_list(desc@),
                ]);
            }
            NoteText::Row(cells)
        },
    }
}

/// The line above the notes of a section.
pub open spec fn spec_notes_heading(section: Seq<char>) -> Seq<char> {
    "Displaying notes found in: "@ + section
}

/// Writes the line above the notes of a section.
pub fn notes_heading(section: &String) -> (r: String)
    ensures
        r@ == spec_notes_heading(section@),
{
    let mut s = text("Displaying notes found in: ");
    s.append(section.as_str());
    s
}

} // verus!
