//! GNU symbol versions of the dynamic symbols.

use crate::error::ElfError;
use crate::model::{Symbol, VersionName, VersionNameModel};
use crate::outside::{
    answer_view, defined_version, has_type, names_view, required_version, stream_definition,
    stream_requirement,
};
use crate::sections::find_by_type;
use crate::symbols::{
    decode_symbol_table, names_of, spec_symbol_table, symbols_of, NamedSymbol, SymbolTableKind,
};
use crate::chains::{chains_are_sound, chains_sound_upto};
use crate::header::{
    decode_file_header, decode_section_headers, ident_error, spec_file_header,
    spec_section_headers,
};
use elf::ParseError;
use vstd::prelude::*;

verus! {

/// A dynamic symbol with its name and the version it is bound to, if any.
#[derive(Clone, Debug, PartialEq, Eq)]
pub struct VersionedSymbol {
    pub name: String,
    pub symbol: Symbol,
    pub version: Option<VersionName>,
}

/// What a requirement lookup in the decoder means to this library: a lookup
/// that fails is a malformed version chain; a file without version tables and
/// a symbol without an entry both leave the symbol unversioned.
pub open spec fn requirement_of(raw: Result<Option<Option<(Seq<char>, bool)>>, ParseError>) -> Result<
    Option<VersionNameModel>,
    ElfError,
> {
    match raw {
        Err(_) => Err(ElfError::MalformedVersionChain),
        Ok(None) => Ok(None),
        Ok(Some(None)) => Ok(None),
        Ok(Some(Some((name, hidden)))) => Ok(Some(VersionNameModel { name, hidden })),
    }
}

/// The name of a version definition: the first of the names it lists. The
/// names behind it are those of the versions it inherits from. A definition
/// that lists no name names no version.
pub open spec fn spec_definition_name(names: Seq<Seq<char>>) -> Option<Seq<char>> {
    if names.len() == 0 {
        None
    } else {
        Some(names[0])
    }
}

/// What a definition lookup in the decoder means to this library: as for a
/// requirement, with the definition's own name as the version's name.
pub open spec fn definition_of(
    raw: Result<Option<Option<(Seq<Seq<char>>, bool)>>, ParseError>,
) -> Result<Option<VersionNameModel>, ElfError> {
    match raw {
        Err(_) => Err(ElfError::MalformedVersionChain),
        Ok(None) => Ok(None),
        Ok(Some(None)) => Ok(None),
        Ok(Some(Some((names, hidden)))) => match spec_definition_name(names) {
            None => Ok(None),
            Some(name) => Ok(Some(VersionNameModel { name, hidden })),
        },
    }
}

/// The version of the dynamic symbol at `index`.
///
/// A file whose section table does not decode has no versions to look up. A
/// file without a version index table, a section of type 0x6fffffff, leaves
/// every symbol unversioned. Otherwise the version is the
/// one the symbol requires where it is undefined, the one it is defined with
/// where it is not. A file in which a chain of needed or defined versions
/// leaves its section, or stops before the entries it counts, has a malformed
/// version chain: no table of such a file is walked.
pub open spec fn spec_symbol_version(data: Seq<u8>, index: int, symbol: Symbol) -> Result<
    Option<VersionNameModel>,
    ElfError,
> {
    match spec_section_headers(data) {
        Err(e) => Err(e),
        Ok(headers) => match spec_file_header(data) {
            Err(e) => Err(e),
            Ok(h) => if !has_type(headers, 0x6fffffff) {
                Ok(None)
            } else if !chains_sound_upto(data, headers, h.order, headers.len() as int) {
                Err(ElfError::MalformedVersionChain)
            } else if symbol.st_shndx == 0 {
                requirement_of(required_version(data, index))
            } else {
                definition_of(defined_version(data, index))
            },
        },
    }
}

/// A version that may be there, taken by its view.
pub open spec fn opt_version_view(v: Option<VersionName>) -> Option<VersionNameModel> {
    match v {
        Some(v) => Some(v@),
        None => None,
    }
}

/// A lookup's outcome, with the version taken by its view.
pub open spec fn version_view(r: Result<Option<VersionName>, ElfError>) -> Result<
    Option<VersionNameModel>,
    ElfError,
> {
    match r {
        Ok(v) => Ok(opt_version_view(v)),
        Err(e) => Err(e),
    }
}

/// A name that may be there, taken by its view.
pub open spec fn opt_name_view(name: Option<String>) -> Option<Seq<char>> {
    match name {
        Some(name) => Some(name@),
        None => None,
    }
}

/// Picks the name of a version definition out of the names it lists: the
/// first. A definition that lists no name names no version.
pub fn definition_name(names: &Vec<String>) -> (r: Option<String>)
    ensures
        opt_name_view(r) == spec_definition_name(Seq::new(names@.len(), |i: int| names@[i]@)),
{
    if names.len() == 0 {
        None
    } else {
        Some(names[0].clone())
    }
}

/// Maps what a requirement lookup in the decoder gave.
pub fn version_from_requirement(raw: Result<Option<Option<(String, bool)>>, ParseError>) -> (r:
    Result<Option<VersionName>, ElfError>)
    ensures
        version_view(r) == requirement_of(answer_view(raw)),
{
    match raw {
        Err(_) => Err(ElfError::MalformedVersionChain),
        Ok(None) => Ok(None),
        Ok(Some(None)) => Ok(None),
        Ok(Some(Some((name, hidden)))) => Ok(Some(VersionName { name, hidden })),
    }
}

/// Maps what a definition lookup in the decoder gave.
pub fn version_from_definition(raw: Result<Option<Option<(Vec<String>, bool)>>, ParseError>) -> (r:
    Result<Option<VersionName>, ElfError>)
    ensures
        version_view(r) == definition_of(names_view(raw)),
{
    match raw {
        Err(_) => Err(ElfError::MalformedVersionChain),
        Ok(None) => Ok(None),
        Ok(Some(None)) => Ok(None),
        Ok(Some(Some((names, hidden)))) => match definition_name(&names) {
            None => Ok(None),
            Some(name) => Ok(Some(VersionName { name, hidden })),
        },
    }
}

/// Looks up the version of the dynamic symbol at `index`.
///
/// A file without a version index table gives `None` for every symbol, and
/// so does a symbol without an entry. An undefined symbol is looked up among
/// the versions that the file needs, any other among those it defines. A
/// file whose section table does not decode fails with that error. Before a
/// table is walked, every chain of the file's version tables is checked with
/// a bounded number of hops: a chain that leaves its section or stops before
/// its count is a malformed version chain, as is any lookup that the decoder
/// cannot carry out.
pub fn symbol_version(data: &[u8], index: usize, symbol: &Symbol) -> (r: Result<
    Option<VersionName>,
    ElfError,
>)
    ensures
        version_view(r) == spec_symbol_version(data@, index as int, *symbol),
        ident_error(data@) matches Some(e) ==> r == Err::<Option<VersionName>, ElfError>(e),
        r matches Err(e) ==> spec_section_headers(data@) is Ok ==> e
            == ElfError::MalformedVersionChain,
        spec_section_headers(data@) matches Ok(headers) ==> (!has_type(headers, 0x6fffffff) ==> r
            == Ok::<Option<VersionName>, ElfError>(None)),
{
    let headers = decode_section_headers(data)?;
    let header = decode_file_header(data)?;
    if find_by_type(&headers, 0x6fffffff).is_none() {
        return Ok(None);
    }
    if !chains_are_sound(data, &headers, header.order) {
        return Err(ElfError::MalformedVersionChain);
    }
    if symbol.st_shndx == 0 {
        version_from_requirement(stream_requirement(data, index))
    } else {
        version_from_definition(stream_definition(data, index))
    }
}

/// The versions of the first `n` symbols, in order; or the error of the first
/// lookup that fails.
pub open spec fn spec_versions_upto(data: Seq<u8>, symbols: Seq<Symbol>, n: int) -> Result<
    Seq<Option<VersionNameModel>>,
    ElfError,
>
    decreases n,
{
    if n <= 0 {
        Ok(Seq::empty())
    } else {
        match spec_versions_upto(data, symbols, n - 1) {
            Err(e) => Err(e),
            Ok(found) => match spec_symbol_version(data, n - 1, symbols[n - 1]) {
                Err(e) => Err(e),
                Ok(v) => Ok(found.push(v)),
            },
        }
    }
}

/// Once the versions up to some point cannot all be looked up, no longer
/// prefix can: the error stays.
pub proof fn versions_error_stays(data: Seq<u8>, symbols: Seq<Symbol>, m: int, n: int)
    requires
        0 <= m <= n,
        spec_versions_upto(data, symbols, m) is Err,
    ensures
        spec_versions_upto(data, symbols, n) == spec_versions_upto(data, symbols, m),
    decreases n - m,
{
    if m < n {
        versions_error_stays(data, symbols, m, n - 1);
    }
}

/// The symbols of a versioned table.
pub open spec fn versioned_symbols(table: Seq<VersionedSymbol>) -> Seq<Symbol> {
    Seq::new(table.len(), |i: int| table[i].symbol)
}

/// The names of a versioned table.
pub open spec fn versioned_names(table: Seq<VersionedSymbol>) -> Seq<Seq<char>> {
    Seq::new(table.len(), |i: int| table[i].name@)
}

/// The versions of a versioned table.
pub open spec fn versions_of(table: Seq<VersionedSymbol>) -> Seq<Option<VersionNameModel>> {
    Seq::new(table.len(), |i: int| opt_version_view(table[i].version))
}

/// The dynamic symbols of a decoded table with the version of each, in order;
/// or the error of the first lookup that fails.
pub fn attach_versions(data: &[u8], table: Vec<NamedSymbol>) -> (r: Result<
    Vec<VersionedSymbol>,
    ElfError,
>)
    ensures
        match spec_versions_upto(data@, symbols_of(table@), table@.len() as int) {
            Err(e) => r == Err::<Vec<VersionedSymbol>, ElfError>(e),
            Ok(versions) => r matches Ok(out) && versioned_symbols(out@) == symbols_of(table@)
                && versioned_names(out@) == names_of(table@) && versions_of(out@) == versions,
        },
{
    let mut out: Vec<VersionedSymbol> = Vec::new();
    let mut i: usize = 0;
    proof {
        assert(versions_of(out@) =~= Seq::<Option<VersionNameModel>>::empty());
    }
    while i < table.len()
        invariant
            i <= table.len(),
            out.len() == i,
            forall|j: int| 0 <= j < i ==> out[j].symbol == table[j].symbol,
            forall|j: int| 0 <= j < i ==> out[j].name@ == table[j].name@,
            spec_versions_upto(data@, symbols_of(table@), i as int) == Ok::<
                Seq<Option<VersionNameModel>>,
                ElfError,
            >(versions_of(out@)),
        decreases table.len() - i,
    {
        let symbol = table[i].symbol;
        proof {
            assert(symbols_of(table@)[i as int] == symbol);
        }
        match symbol_version(data, i, &symbol) {
            Err(e) => {
                proof {
                    versions_error_stays(data@, symbols_of(table@), i + 1, table@.len() as int);
                }
                return Err(e);
            },
            Ok(version) => {
                let entry = VersionedSymbol { name: table[i].name.clone(), symbol, version };
                proof {
                    assert(versions_of(out@.push(entry)) =~= versions_of(out@).push(
                        opt_version_view(version),
                    ));
                }
                out.push(entry);
            },
        }
        i += 1;
    }
    proof {
        assert(versioned_symbols(out@) =~= symbols_of(table@));
        assert(versioned_names(out@) =~= names_of(table@));
    }
    Ok(out)
}

/// The dynamic symbols of a file with these bytes, with their names and
/// versions: the dynamic symbol table, and for each of its symbols the
/// version that `spec_symbol_version` gives.
pub open spec fn spec_dynamic_symbols(data: Seq<u8>) -> Result<
    Option<(Seq<Symbol>, Seq<Seq<char>>, Seq<Option<VersionNameModel>>)>,
    ElfError,
> {
    match spec_symbol_table(data, SymbolTableKind::Dynamic) {
        Err(e) => Err(e),
        Ok(None) => Ok(None),
        Ok(Some((symbols, names))) => match spec_versions_upto(
            data,
            symbols,
            symbols.len() as int,
        ) {
            Err(e) => Err(e),
            Ok(versions) => Ok(Some((symbols, names, versions))),
        },
    }
}

/// The outcome of decoding the dynamic symbols, with the table taken as its
/// symbols, their names and their versions.
pub open spec fn versioned_model(r: Result<Option<Vec<VersionedSymbol>>, ElfError>) -> Result<
    Option<(Seq<Symbol>, Seq<Seq<char>>, Seq<Option<VersionNameModel>>)>,
    ElfError,
> {
    match r {
        Ok(Some(table)) => Ok(
            Some((versioned_symbols(table@), versioned_names(table@), versions_of(table@))),
        ),
        Ok(None) => Ok(None),
        Err(e) => Err(e),
    }
}

/// Decodes the dynamic symbol table and looks up the version of every symbol.
///
/// A file without a dynamic symbol table gives `None`. A file without version
/// tables gives every symbol no version: that is no error.
pub fn decode_dynamic_symbols(data: &[u8]) -> (r: Result<Option<Vec<VersionedSymbol>>, ElfError>)
    ensures
        versioned_model(r) == spec_dynamic_symbols(data@),
        ident_error(data@) matches Some(e) ==> r == Err::<Option<Vec<VersionedSymbol>>, ElfError>(e),
{
    match decode_symbol_table(data, SymbolTableKind::Dynamic)? {
        None => Ok(None),
        Some(table) => {
            proof {
                assert(symbols_of(table@).len() == table@.len());
            }
            match attach_versions(data, table) {
                Ok(out) => Ok(Some(out)),
                Err(e) => Err(e),
            }
        },
    }
}

} // verus!
