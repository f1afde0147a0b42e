//! Symbol tables: the static one and the dynamic one.

use crate::error::ElfError;
use crate::header::{
    decode_error, decode_file_header, decode_section_headers, ident_error, size_by_class,
    spec_class, spec_decode_error, spec_section_headers, spec_size_by_class,
};
use crate::invariants::{section_fits, spec_section_fits};
use crate::model::{Class, SectionHeader, Symbol};
use crate::outside::{
    dynamic_symbols, has_type, static_symbols, stream_dynamic_symbol_table, stream_symbol_table,
};
use crate::sections::{
    find_by_type, first_of_type, resolve_all, resolve_all_len, section_bytes, section_range,
    spec_resolve_all, spec_section_bytes, spec_section_range, texts,
};
use elf::ParseError;
use vstd::prelude::*;

verus! {

/// Which of the two symbol tables of a file is meant.
#[derive(Clone, Copy, Debug, PartialEq, Eq, Structural)]
pub enum SymbolTableKind {
    /// The static table, in the section of type 2.
    Static,
    /// The dynamic table, in the section of type 11.
    Dynamic,
}

impl SymbolTableKind {
    /// The type tag of the section that holds the table.
    pub open spec fn section_type(self) -> u32 {
        match self {
            SymbolTableKind::Static => 2,
            SymbolTableKind::Dynamic => 11,
        }
    }
}

/// What a symbol's section index field stands for.
#[derive(Clone, Copy, Debug, PartialEq, Eq, Structural)]
pub enum SectionIndex {
    /// The symbol is undefined: it is imported.
    Undefined,
    /// The symbol's value is absolute.
    Absolute,
    /// The symbol is a common block not yet allocated.
    Common,
    /// Another value of the reserved range.
    Reserved(u16),
    /// The index of a section.
    Section(u16),
}

/// The binding that an info byte packs: its high four bits.
pub open spec fn spec_bind(info: u8) -> u8 {
    info >> 4
}

/// The symbol type that an info byte packs: its low four bits.
pub open spec fn spec_symtype(info: u8) -> u8 {
    info & 0xf
}

/// The visibility that an "other" byte packs: its low two bits.
pub open spec fn spec_visibility(other: u8) -> u8 {
    other & 0x3
}

/// Takes the binding out of a symbol's info byte.
pub fn bind_of(info: u8) -> (r: u8)
    ensures
        r == spec_bind(info),
        r == info / 16,
        r < 16,
{
    assert(info >> 4 == info / 16 && (info >> 4) < 16) by (bit_vector);
    info >> 4
}

/// Takes the symbol type out of a symbol's info byte.
pub fn symtype_of(info: u8) -> (r: u8)
    ensures
        r == spec_symtype(info),
        r == info % 16,
        r < 16,
{
    assert(info & 0xf == info % 16 && (info & 0xf) < 16) by (bit_vector);
    info & 0xf
}

/// Takes the visibility out of a symbol's "other" byte.
pub fn visibility_of(other: u8) -> (r: u8)
    ensures
        r == spec_visibility(other),
        r == other % 4,
        r < 4,
{
    assert(other & 0x3 == other % 4 && (other & 0x3) < 4) by (bit_vector);
    other & 0x3
}

/// Whether a section index field holds a reserved value: 0, or one from
/// 0xff00 up.
pub open spec fn is_reserved(shndx: u16) -> bool {
    shndx == 0 || shndx >= 0xff00
}

/// What a section index field stands for.
pub open spec fn spec_section_index(shndx: u16) -> SectionIndex {
    if shndx == 0 {
        SectionIndex::Undefined
    } else if shndx == 0xfff1 {
        SectionIndex::Absolute
    } else if shndx == 0xfff2 {
        SectionIndex::Common
    } else if shndx >= 0xff00 {
        SectionIndex::Reserved(shndx)
    } else {
        SectionIndex::Section(shndx)
    }
}

/// Classifies a symbol's section index field.
pub fn section_index(shndx: u16) -> (r: SectionIndex)
    ensures
        r == spec_section_index(shndx),
        r is Section <==> !is_reserved(shndx),
{
    if shndx == 0 {
        SectionIndex::Undefined
    } else if shndx == 0xfff1 {
        SectionIndex::Absolute
    } else if shndx == 0xfff2 {
        SectionIndex::Common
    } else if shndx >= 0xff00 {
        SectionIndex::Reserved(shndx)
    } else {
        SectionIndex::Section(shndx)
    }
}

/// The section that a symbol is defined in: the one its index field names,
/// unless the field holds a reserved value or points beyond the table.
pub open spec fn spec_symbol_section(sym: Symbol, headers: Seq<SectionHeader>) -> Option<
    SectionHeader,
> {
    match spec_section_index(sym.st_shndx) {
        SectionIndex::Section(i) => if i < headers.len() {
            Some(headers[i as int])
        } else {
            None
        },
        _ => None,
    }
}

/// Looks up the section that a symbol is defined in. The table is indexed
/// only where the symbol's index field is no reserved value.
pub fn symbol_section(sym: &Symbol, headers: &Vec<SectionHeader>) -> (r: Option<SectionHeader>)
    ensures
        r == spec_symbol_section(*sym, headers@),
        is_reserved(sym.st_shndx) ==> r is None,
{
    match section_index(sym.st_shndx) {
        SectionIndex::Section(i) => {
            if (i as usize) < headers.len() {
                Some(headers[i as usize])
            } else {
                None
            }
        },
        _ => None,
    }
}

/// A symbol whose section index field holds a reserved value is defined in no
/// section, whatever the section table holds.
pub proof fn reserved_index_names_no_section(sym: Symbol, headers: Seq<SectionHeader>)
    requires
        is_reserved(sym.st_shndx),
    ensures
        spec_symbol_section(sym, headers) is None,
{
}

/// A symbol with its name.
#[derive(Clone, Debug, PartialEq, Eq)]
pub struct NamedSymbol {
    pub name: String,
    pub symbol: Symbol,
}

/// The symbols that the decoder yields for the table of this kind.
pub open spec fn raw_symbols(data: Seq<u8>, kind: SymbolTableKind) -> Result<
    Option<Seq<Symbol>>,
    ParseError,
> {
    match kind {
        SymbolTableKind::Static => static_symbols(data),
        SymbolTableKind::Dynamic => dynamic_symbols(data),
    }
}

/// The name offsets of the symbols, in order.
pub open spec fn symbol_name_offsets(symbols: Seq<Symbol>) -> Seq<u32> {
    Seq::new(symbols.len(), |i: int| symbols[i].st_name)
}

/// The names of the symbols of a table: resolved against the string table
/// that the table's section links to.
pub open spec fn spec_symbol_names(data: Seq<u8>, kind: SymbolTableKind, symbols: Seq<Symbol>) -> Result<
    Seq<Seq<char>>,
    ElfError,
> {
    match spec_section_headers(data) {
        Err(e) => Err(e),
        Ok(headers) => {
            let link = headers[first_of_type(headers, kind.section_type())].sh_link;
            match spec_section_bytes(data, link as int) {
                Err(e) => Err(e),
                Ok(blob) => spec_resolve_all(blob, symbol_name_offsets(symbols)),
            }
        },
    }
}

/// The symbols of a decoded table, without their names.
pub open spec fn symbols_of(table: Seq<NamedSymbol>) -> Seq<Symbol> {
    Seq::new(table.len(), |i: int| table[i].symbol)
}

/// The names of a decoded table.
pub open spec fn names_of(table: Seq<NamedSymbol>) -> Seq<Seq<char>> {
    Seq::new(table.len(), |i: int| table[i].name@)
}

/// Collects the name offsets of the symbols.
fn collect_symbol_offsets(symbols: &Vec<Symbol>) -> (r: Vec<u32>)
    ensures
        r@ == symbol_name_offsets(symbols@),
{
    let mut offsets: Vec<u32> = Vec::new();
    let mut i: usize = 0;
    while i < symbols.len()
        invariant
            i <= symbols.len(),
            offsets@ == symbol_name_offsets(symbols@).take(i as int),
        decreases symbols.len() - i,
    {
        offsets.push(symbols[i].st_name);
        i += 1;
    }
    offsets
}

/// Pairs each symbol with its name, in order.
pub fn pair_names(symbols: &Vec<Symbol>, names: &Vec<String>) -> (r: Vec<NamedSymbol>)
    requires
        names.len() == symbols.len(),
    ensures
        symbols_of(r@) == symbols@,
        names_of(r@) == texts(names@),
{
    let mut table: Vec<NamedSymbol> = Vec::new();
    let mut i: usize = 0;
    while i < symbols.len()
        invariant
            i <= symbols.len(),
            names.len() == symbols.len(),
            table.len() == i,
            forall|j: int| 0 <= j < i ==> table[j].symbol == symbols[j],
            forall|j: int| 0 <= j < i ==> table[j].name@ == names[j]@,
        decreases symbols.len() - i,
    {
        table.push(NamedSymbol { name: names[i].clone(), symbol: symbols[i] });
        i += 1;
    }
    proof {
        assert(symbols_of(table@) =~= symbols@);
        assert(names_of(table@) =~= texts(names@));
    }
    table
}

/// Where a symbol keeps its info byte: behind the name in a 64-bit file,
/// behind name, value and size in a 32-bit file. The "other" byte follows it.
pub open spec fn spec_info_at(class: Class) -> int {
    if class == Class::Elf64 {
        4
    } else {
        12
    }
}

/// Whether a symbol's binding, type and visibility are what the two packed
/// bytes of the record at `base` unpack to.
pub open spec fn unpacked_from(symbol: Symbol, blob: Seq<u8>, base: int, class: Class) -> bool {
    &&& symbol.st_bind == spec_bind(blob[base + spec_info_at(class)])
    &&& symbol.st_symtype == spec_symtype(blob[base + spec_info_at(class)])
    &&& symbol.st_vis == spec_visibility(blob[base + spec_info_at(class) + 1])
}

/// Whether every symbol is unpacked from its record in the blob, the records
/// lying one behind the other from the start.
pub open spec fn all_unpacked(symbols: Seq<Symbol>, blob: Seq<u8>, class: Class) -> bool {
    forall|i: int|
        0 <= i < symbols.len() ==> unpacked_from(
            #[trigger] symbols[i],
            blob,
            i * spec_size_by_class(class, 16, 24),
            class,
        )
}

/// Holds the decoded symbols against the bytes of their section: tells
/// whether the binding, type and visibility of each are what its info byte
/// and its "other" byte unpack to.
pub fn bitfields_agree(symbols: &Vec<Symbol>, blob: &[u8], class: Class) -> (r: bool)
    requires
        symbols@.len() * spec_size_by_class(class, 16, 24) <= blob@.len(),
    ensures
        r == all_unpacked(symbols@, blob@, class),
{
    let size = size_by_class(class, 16, 24) as usize;
    let info_at: usize = match class {
        Class::Elf64 => 4,
        Class::Elf32 => 12,
    };
    let mut i: usize = 0;
    let mut base: usize = 0;
    while i < symbols.len()
        invariant
            i <= symbols.len(),
            size == spec_size_by_class(class, 16, 24),
            info_at == spec_info_at(class),
            base == i * size,
            symbols@.len() * size <= blob@.len(),
            forall|j: int|
                0 <= j < i ==> unpacked_from(#[trigger] symbols@[j], blob@, j * size, class),
        decreases symbols.len() - i,
    {
        proof {
            assert((i + 1) * size <= symbols@.len() * size) by (nonlinear_arith)
                requires
                    i + 1 <= symbols@.len(),
                    size >= 0,
            ;
            assert((i + 1) * size == i * size + size) by (nonlinear_arith);
        }
        let info = blob[base + info_at];
        let other = blob[base + info_at + 1];
        let symbol = symbols[i];
        if symbol.st_bind != bind_of(info) || symbol.st_symtype != symtype_of(info)
            || symbol.st_vis != visibility_of(other) {
            proof {
                assert(!unpacked_from(symbols@[i as int], blob@, i * size, class));
            }
            return false;
        }
        base = base + size;
        i += 1;
    }
    true
}

/// The symbol table of the given kind of a file with these bytes: its symbols
/// and their names.
///
/// A file without a section of the table's type has no such table. A table
/// whose section reaches beyond the file, or whose size is no multiple of the
/// size of a symbol (16 bytes in a 32-bit file, 24 in a 64-bit file), is
/// truncated. Otherwise the symbols are those that the decoder yields, held
/// against the bytes of the section: a table in which the binding, type or
/// visibility of a symbol is not what its two packed bytes unpack to is an
/// invalid field. The names are those that the name offsets resolve to in the
/// string table that the section links to.
pub open spec fn spec_symbol_table(data: Seq<u8>, kind: SymbolTableKind) -> Result<
    Option<(Seq<Symbol>, Seq<Seq<char>>)>,
    ElfError,
> {
    match spec_section_headers(data) {
        Err(e) => Err(e),
        Ok(headers) => if !has_type(headers, kind.section_type()) {
            Ok(None)
        } else if !spec_section_fits(
            headers[first_of_type(headers, kind.section_type())],
            data.len(),
        ) || headers[first_of_type(headers, kind.section_type())].sh_size as int
            % spec_size_by_class(spec_class(data), 16, 24) != 0 {
            Err(ElfError::TruncatedTable)
        } else {
            match raw_symbols(data, kind) {
                Err(e) => Err(spec_decode_error(data.len(), e)),
                Ok(None) => Ok(None),
                Ok(Some(symbols)) => if !all_unpacked(
                    symbols,
                    spec_section_range(
                        data,
                        headers[first_of_type(headers, kind.section_type())],
                    )->Some_0,
                    spec_class(data),
                ) {
                    Err(ElfError::InvalidBitfield)
                } else {
                    match spec_symbol_names(data, kind, symbols) {
                        Err(e) => Err(e),
                        Ok(names) => Ok(Some((symbols, names))),
                    }
                },
            }
        },
    }
}

/// The outcome of decoding a symbol table, with the table taken as its
/// symbols and their names.
pub open spec fn table_model(r: Result<Option<Vec<NamedSymbol>>, ElfError>) -> Result<
    Option<(Seq<Symbol>, Seq<Seq<char>>)>,
    ElfError,
> {
    match r {
        Ok(Some(table)) => Ok(Some((symbols_of(table@), names_of(table@)))),
        Ok(None) => Ok(None),
        Err(e) => Err(e),
    }
}

/// Decodes the symbol table of the given kind, with the name of each symbol.
///
/// A file without a section of the table's type has no such table: that is
/// `None`, not an error, and it is the only way to get `None`. A table whose
/// section reaches beyond the file or ends in a part of a symbol is a
/// truncated table. The binding, type and visibility of every symbol are
/// what the info byte and the "other" byte of its record unpack to: the
/// decoded symbols are held against the bytes. Otherwise each
/// symbol's name is resolved against the string table that the table's
/// section links to, and a name that does not resolve fails the whole table.
pub fn decode_symbol_table(data: &[u8], kind: SymbolTableKind) -> (r: Result<
    Option<Vec<NamedSymbol>>,
    ElfError,
>)
    ensures
        table_model(r) == spec_symbol_table(data@, kind),
        ident_error(data@) matches Some(e) ==> r == Err::<Option<Vec<NamedSymbol>>, ElfError>(e),
        r matches Ok(None) <==> (spec_section_headers(data@) matches Ok(headers) && !has_type(
            headers,
            kind.section_type(),
        )),
        r matches Ok(Some(table)) ==> forall|i: int| 0 <= i < table.len() ==> {
            &&& (#[trigger] table[i]).symbol.st_bind < 16
            &&& table[i].symbol.st_symtype < 16
            &&& table[i].symbol.st_vis < 4
        },
        r matches Ok(Some(table)) ==> all_unpacked(
            symbols_of(table@),
            spec_section_range(
                data@,
                spec_section_headers(data@)->Ok_0[first_of_type(
                    spec_section_headers(data@)->Ok_0,
                    kind.section_type(),
                )],
            )->Some_0,
            spec_class(data@),
        ),
        r matches Ok(Some(table)) ==> table@.len() * spec_size_by_class(spec_class(data@), 16, 24)
            == spec_section_headers(data@)->Ok_0[first_of_type(
            spec_section_headers(data@)->Ok_0,
            kind.section_type(),
        )].sh_size,
{
    let section_type: u32 = match kind {
        SymbolTableKind::Static => 2,
        SymbolTableKind::Dynamic => 11,
    };
    let headers = decode_section_headers(data)?;
    let at = match find_by_type(&headers, section_type) {
        Some(at) => at,
        None => {
            return Ok(None);
        },
    };
    let header = decode_file_header(data)?;
    if !section_fits(&headers[at], data.len() as u64) || headers[at].sh_size % size_by_class(
        header.class,
        16,
        24,
    ) != 0 {
        return Err(ElfError::TruncatedTable);
    }
    let read = match kind {
        SymbolTableKind::Static => stream_symbol_table(data),
        SymbolTableKind::Dynamic => stream_dynamic_symbol_table(data),
    };
    let symbols = match read {
        Err(e) => {
            return Err(decode_error(data.len(), &e));
        },
        Ok(None) => {
            return Ok(None);
        },
        Ok(Some(symbols)) => symbols,
    };
    let records = match section_range(data, &headers[at]) {
        Some(records) => records,
        None => {
            return Err(ElfError::TruncatedTable);
        },
    };
    proof {
        let size = spec_size_by_class(header.class, 16, 24);
        let total = headers@[at as int].sh_size as int;
        assert((total / size) * size == total) by (nonlinear_arith)
            requires
                total % size == 0,
                size > 0,
        ;
    }
    if !bitfields_agree(&symbols, records, header.class) {
        return Err(ElfError::InvalidBitfield);
    }
    let link = headers[at].sh_link as usize;
    let blob = section_bytes(data, link)?;
    let offsets = collect_symbol_offsets(&symbols);
    let names = resolve_all(blob.as_slice(), &offsets)?;
    proof {
        resolve_all_len(blob@, offsets@);
    }
    let table = pair_names(&symbols, &names);
    proof {
        let size = spec_size_by_class(header.class, 16, 24);
        let total = headers@[at as int].sh_size as int;
        assert(symbols_of(table@).len() == table@.len());
        assert((total / size) * size == total) by (nonlinear_arith)
            requires
                total % size == 0,
                size > 0,
        ;
    }
    proof {
        assert forall|i: int| 0 <= i < table.len() implies {
            &&& (#[trigger] table[i]).symbol.st_bind < 16
            &&& table[i].symbol.st_symtype < 16
            &&& table[i].symbol.st_vis < 4
        } by {
            assert(symbols_of(table@)[i] == table[i].symbol);
            assert(symbols@[i].st_bind < 16);
        }
    }
    Ok(Some(table))
}

} // verus!
