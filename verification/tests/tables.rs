use readelf::error::ElfError;
use readelf::header::decode_section_headers;
use readelf::model::Symbol;
use readelf::fields::{u16_at, u32_at, u64_at};
use readelf::model::Class;
use readelf::model::ByteOrder;
use readelf::sections::{
    decode_section_table, find_by_type, resolve_all, section_bytes, section_range,
};
use readelf::strtab::resolve;
use readelf::symbols::{
    bind_of, bitfields_agree, decode_symbol_table, pair_names, section_index, symbol_section,
    symtype_of, visibility_of, NamedSymbol, SectionIndex, SymbolTableKind,
};

/// One section of a synthetic file: its header fields and its bytes.
struct Sec {
    name: u32,
    kind: u32,
    flags: u64,
    link: u32,
    info: u32,
    align: u64,
    entsize: u64,
    data: Vec<u8>,
}

fn sec(name: u32, kind: u32, link: u32, entsize: u64, data: Vec<u8>) -> Sec {
    Sec { name, kind, flags: 0, link, info: 0, align: 1, entsize, data }
}

/// A 64-bit little-endian file: the header, the sections' bytes, then the
/// section header table, whose entry 0 is the null section.
fn build64(secs: &[Sec], shstrndx: u16) -> Vec<u8> {
    let mut body: Vec<u8> = Vec::new();
    let mut offsets: Vec<u64> = Vec::new();
    for s in secs {
        offsets.push(64 + body.len() as u64);
        body.extend_from_slice(&s.data);
    }
    let shoff = 64 + body.len() as u64;
    let mut v: Vec<u8> = vec![0x7f, b'E', b'L', b'F', 2, 1, 1, 0, 0, 0, 0, 0, 0, 0, 0, 0];
    v.extend_from_slice(&3u16.to_le_bytes());
    v.extend_from_slice(&62u16.to_le_bytes());
    v.extend_from_slice(&1u32.to_le_bytes());
    v.extend_from_slice(&0u64.to_le_bytes());
    v.extend_from_slice(&0u64.to_le_bytes());
    v.extend_from_slice(&shoff.to_le_bytes());
    v.extend_from_slice(&0u32.to_le_bytes());
    v.extend_from_slice(&64u16.to_le_bytes());
    v.extend_from_slice(&56u16.to_le_bytes());
    v.extend_from_slice(&0u16.to_le_bytes());
    v.extend_from_slice(&64u16.to_le_bytes());
    v.extend_from_slice(&(secs.len() as u16 + 1).to_le_bytes());
    v.extend_from_slice(&shstrndx.to_le_bytes());
    v.extend_from_slice(&body);
    v.extend_from_slice(&[0u8; 64]);
    for (s, off) in secs.iter().zip(offsets.iter()) {
        v.extend_from_slice(&s.name.to_le_bytes());
        v.extend_from_slice(&s.kind.to_le_bytes());
        v.extend_from_slice(&s.flags.to_le_bytes());
        v.extend_from_slice(&0u64.to_le_bytes());
        v.extend_from_slice(&off.to_le_bytes());
        v.extend_from_slice(&(s.data.len() as u64).to_le_bytes());
        v.extend_from_slice(&s.link.to_le_bytes());
        v.extend_from_slice(&s.info.to_le_bytes());
        v.extend_from_slice(&s.align.to_le_bytes());
        v.extend_from_slice(&s.entsize.to_le_bytes());
    }
    v
}

fn sym64(name: u32, info: u8, other: u8, shndx: u16, value: u64, size: u64) -> Vec<u8> {
    let mut v: Vec<u8> = Vec::new();
    v.extend_from_slice(&name.to_le_bytes());
    v.push(info);
    v.push(other);
    v.extend_from_slice(&shndx.to_le_bytes());
    v.extend_from_slice(&value.to_le_bytes());
    v.extend_from_slice(&size.to_le_bytes());
    v
}

/// Sections: 1 `.shstrtab`, 2 `.strtab`, 3 `.symtab` with three symbols.
fn file_with_symbols() -> Vec<u8> {
    let shstr = b"\0.shstrtab\0.strtab\0.symtab\0".to_vec();
    let strs = b"\0main\0counter\0".to_vec();
    let mut syms: Vec<u8> = Vec::new();
    syms.extend(sym64(0, 0, 0, 0, 0, 0));
    syms.extend(sym64(1, 0x12, 0, 1, 0x401000, 42));
    syms.extend(sym64(6, 0x21, 2, 0xfff2, 8, 4));
    build64(
        &[sec(1, 3, 0, 0, shstr), sec(11, 3, 0, 0, strs), sec(19, 2, 2, 24, syms)],
        1,
    )
}

#[test]
fn name_at_offset_zero_is_empty() {
    assert_eq!(resolve(b"\0main\0", 0), Ok(String::new()));
    assert_eq!(resolve(b"\0", 0), Ok(String::new()));
}

#[test]
fn names_end_at_the_next_zero_byte() {
    let blob = b"\0main\0counter\0";
    assert_eq!(resolve(blob, 1), Ok("main".to_string()));
    assert_eq!(resolve(blob, 3), Ok("in".to_string()));
    assert_eq!(resolve(blob, 6), Ok("counter".to_string()));
    assert_eq!(resolve(blob, 5), Ok(String::new()));
}

#[test]
fn offsets_outside_the_blob_are_out_of_bounds() {
    let blob = b"\0main\0";
    assert_eq!(resolve(blob, 6), Err(ElfError::OutOfBounds));
    assert_eq!(resolve(blob, 7), Err(ElfError::OutOfBounds));
    assert_eq!(resolve(blob, 700), Err(ElfError::OutOfBounds));
    assert_eq!(resolve(b"", 0), Err(ElfError::OutOfBounds));
}

#[test]
fn name_without_terminator_is_out_of_bounds() {
    assert_eq!(resolve(b"\0main", 1), Err(ElfError::OutOfBounds));
}

#[test]
fn name_that_is_not_text_is_an_invalid_field() {
    assert_eq!(resolve(b"\0\xff\xfe\0", 1), Err(ElfError::InvalidBitfield));
}

#[test]
fn multi_byte_names_are_decoded() {
    assert_eq!(resolve("\0größe\0".as_bytes(), 1), Ok("größe".to_string()));
}

#[test]
fn resolve_all_keeps_order_and_stops_at_the_first_failure() {
    let blob = b"\0ab\0c\0";
    assert_eq!(
        resolve_all(blob, &vec![4, 0, 1]),
        Ok(vec!["c".to_string(), String::new(), "ab".to_string()])
    );
    assert_eq!(resolve_all(blob, &vec![]), Ok(vec![]));
    assert_eq!(resolve_all(blob, &vec![1, 99, 4]), Err(ElfError::OutOfBounds));
}

#[test]
fn section_table_has_names() {
    let file = file_with_symbols();
    let table = decode_section_table(&file).unwrap();
    assert_eq!(table.headers.len(), 4);
    assert_eq!(table.names, vec!["", ".shstrtab", ".strtab", ".symtab"]);
    assert_eq!(table.headers[3].sh_type, 2);
    assert_eq!(table.headers[3].sh_link, 2);
    assert_eq!(table.headers[3].sh_entsize, 24);
    assert_eq!(table.headers[3].sh_size, 72);
    assert_eq!(table.find_by_name(".strtab"), Some(2));
    assert_eq!(table.find_by_name(""), Some(0));
    assert_eq!(table.find_by_name(".text"), None);
    assert_eq!(find_by_type(&table.headers, 3), Some(1));
    assert_eq!(find_by_type(&table.headers, 2), Some(3));
    assert_eq!(find_by_type(&table.headers, 11), None);
}

#[test]
fn section_table_twice_is_the_same() {
    let file = file_with_symbols();
    assert_eq!(decode_section_table(&file), decode_section_table(&file));
}

#[test]
fn file_without_name_table_gives_empty_names() {
    let file = build64(&[sec(1, 1, 0, 0, vec![1, 2, 3])], 0);
    let table = decode_section_table(&file).unwrap();
    assert_eq!(table.names, vec!["", ""]);
}

#[test]
fn name_table_index_beyond_the_table_is_out_of_bounds() {
    let file = build64(&[sec(1, 1, 0, 0, vec![1, 2, 3])], 9);
    assert_eq!(decode_section_table(&file), Err(ElfError::OutOfBounds));
}

#[test]
fn section_name_that_does_not_resolve_fails_the_table() {
    let file = build64(&[sec(40, 3, 0, 0, b"\0.shstrtab\0".to_vec())], 1);
    assert_eq!(decode_section_table(&file), Err(ElfError::OutOfBounds));
}

#[test]
fn section_bytes_are_the_range_of_the_file() {
    let file = file_with_symbols();
    assert_eq!(section_bytes(&file, 2), Ok(b"\0main\0counter\0".to_vec()));
    assert_eq!(section_bytes(&file, 0), Ok(vec![]));
    assert_eq!(section_bytes(&file, 4), Err(ElfError::OutOfBounds));
}

#[test]
fn section_without_file_content_is_empty() {
    let mut bss = sec(0, 8, 0, 0, vec![]);
    bss.data = vec![];
    let mut file = build64(&[bss], 0);
    // give the zero-fill section a size that no file content backs
    let shoff = file.len() - 64;
    file[shoff + 32..shoff + 40].copy_from_slice(&0x10000u64.to_le_bytes());
    assert_eq!(decode_section_headers(&file).unwrap()[1].sh_size, 0x10000);
    assert_eq!(section_bytes(&file, 1), Ok(vec![]));
}

#[test]
fn section_that_reaches_beyond_the_file_is_truncated() {
    let mut file = build64(&[sec(0, 1, 0, 0, vec![1, 2, 3, 4])], 0);
    let shoff = file.len() - 64;
    file[shoff + 32..shoff + 40].copy_from_slice(&0x10000u64.to_le_bytes());
    assert_eq!(section_bytes(&file, 1), Err(ElfError::TruncatedTable));
}

#[test]
fn symbols_are_decoded_with_names_and_bitfields() {
    let file = file_with_symbols();
    let table = decode_symbol_table(&file, SymbolTableKind::Static).unwrap().unwrap();
    assert_eq!(table.len(), 3);
    assert_eq!(table[0].name, "");
    assert_eq!(table[1].name, "main");
    assert_eq!(table[2].name, "counter");
    assert_eq!(
        table[1].symbol,
        Symbol {
            st_name: 1,
            st_shndx: 1,
            st_bind: 1,
            st_symtype: 2,
            st_vis: 0,
            st_value: 0x401000,
            st_size: 42
        }
    );
    assert_eq!(table[2].symbol.st_bind, 2);
    assert_eq!(table[2].symbol.st_symtype, 1);
    assert_eq!(table[2].symbol.st_vis, 2);
    assert_eq!(table[2].symbol.st_shndx, 0xfff2);
}

#[test]
fn missing_symbol_table_is_none() {
    let file = file_with_symbols();
    assert_eq!(decode_symbol_table(&file, SymbolTableKind::Dynamic), Ok(None));
    let bare = build64(&[], 0);
    assert_eq!(decode_symbol_table(&bare, SymbolTableKind::Static), Ok(None));
}

#[test]
fn symbol_name_that_does_not_resolve_is_out_of_bounds() {
    let shstr = b"\0.shstrtab\0".to_vec();
    let strs = b"\0main\0".to_vec();
    let syms = sym64(77, 0x12, 0, 1, 0, 0);
    let file = build64(&[sec(1, 3, 0, 0, shstr), sec(0, 3, 0, 0, strs), sec(0, 11, 2, 24, syms)], 1);
    assert_eq!(decode_symbol_table(&file, SymbolTableKind::Dynamic), Err(ElfError::OutOfBounds));
}

#[test]
fn symbol_table_with_wrong_entry_size_is_an_invalid_field() {
    let strs = b"\0main\0".to_vec();
    let syms = sym64(1, 0x12, 0, 1, 0, 0);
    let file = build64(&[sec(0, 3, 0, 0, strs), sec(0, 2, 1, 16, syms)], 0);
    assert_eq!(decode_symbol_table(&file, SymbolTableKind::Static), Err(ElfError::InvalidBitfield));
}

#[test]
fn info_and_other_bytes_unpack() {
    assert_eq!(bind_of(0x12), 1);
    assert_eq!(symtype_of(0x12), 2);
    assert_eq!(bind_of(0xa6), 10);
    assert_eq!(symtype_of(0xa6), 6);
    assert_eq!(bind_of(0xff), 15);
    assert_eq!(symtype_of(0xff), 15);
    assert_eq!(bind_of(0x0f), 0);
    assert_eq!(symtype_of(0xf0), 0);
    assert_eq!(visibility_of(0x00), 0);
    assert_eq!(visibility_of(0x03), 3);
    assert_eq!(visibility_of(0xfe), 2);
    assert_eq!(visibility_of(0x05), 1);
}

#[test]
fn reserved_section_indices_are_classified() {
    assert_eq!(section_index(0), SectionIndex::Undefined);
    assert_eq!(section_index(0xfff1), SectionIndex::Absolute);
    assert_eq!(section_index(0xfff2), SectionIndex::Common);
    assert_eq!(section_index(0xff00), SectionIndex::Reserved(0xff00));
    assert_eq!(section_index(0xffff), SectionIndex::Reserved(0xffff));
    assert_eq!(section_index(1), SectionIndex::Section(1));
    assert_eq!(section_index(0xfeff), SectionIndex::Section(0xfeff));
}

#[test]
fn reserved_section_index_is_never_looked_up() {
    let file = file_with_symbols();
    let headers = decode_section_headers(&file).unwrap();
    let mut sym = Symbol {
        st_name: 0,
        st_shndx: 3,
        st_bind: 1,
        st_symtype: 2,
        st_vis: 0,
        st_value: 0,
        st_size: 0,
    };
    assert_eq!(symbol_section(&sym, &headers), Some(headers[3]));
    sym.st_shndx = 4;
    assert_eq!(symbol_section(&sym, &headers), None);
    for reserved in [0u16, 0xfff1, 0xfff2, 0xff00, 0xffff] {
        sym.st_shndx = reserved;
        assert_eq!(symbol_section(&sym, &headers), None);
    }
}

#[test]
fn decoded_bitfields_are_the_unpacked_bytes() {
    let strs = b"\0".to_vec();
    let mut syms: Vec<u8> = Vec::new();
    for byte in 0..=255u8 {
        syms.extend(sym64(0, byte, byte, 1, 0, 0));
    }
    let file = build64(&[sec(0, 3, 0, 0, strs), sec(0, 2, 1, 24, syms)], 0);
    let table = decode_symbol_table(&file, SymbolTableKind::Static).unwrap().unwrap();
    assert_eq!(table.len(), 256);
    for byte in 0..=255u8 {
        let symbol = table[byte as usize].symbol;
        assert_eq!(symbol.st_bind, bind_of(byte));
        assert_eq!(symbol.st_symtype, symtype_of(byte));
        assert_eq!(symbol.st_vis, visibility_of(byte));
        assert_eq!(symbol.st_bind, byte >> 4);
        assert_eq!(symbol.st_symtype, byte & 0xf);
        assert_eq!(symbol.st_vis, byte & 0x3);
    }
}

#[test]
fn name_offset_zero_is_the_empty_name_in_a_decoded_table() {
    let file = file_with_symbols();
    let table = decode_symbol_table(&file, SymbolTableKind::Static).unwrap().unwrap();
    for entry in &table {
        if entry.symbol.st_name == 0 {
            assert_eq!(entry.name, "");
        }
    }
    assert_eq!(table[0].symbol.st_name, 0);
}

#[test]
fn names_are_paired_with_symbols_in_order() {
    let a = Symbol {
        st_name: 1,
        st_shndx: 1,
        st_bind: 1,
        st_symtype: 2,
        st_vis: 0,
        st_value: 8,
        st_size: 4,
    };
    let b = Symbol { st_name: 6, st_value: 16, ..a };
    assert_eq!(
        pair_names(&vec![a, b], &vec!["main".to_string(), "counter".to_string()]),
        vec![
            NamedSymbol { name: "main".to_string(), symbol: a },
            NamedSymbol { name: "counter".to_string(), symbol: b },
        ]
    );
    assert_eq!(pair_names(&vec![], &vec![]), vec![]);
}

#[test]
fn symbol_table_beyond_the_file_is_truncated() {
    let strs = b"\0main\0".to_vec();
    let mut file = build64(&[sec(0, 3, 0, 0, strs), sec(0, 2, 1, 24, sym64(1, 0x12, 0, 1, 0, 0))], 0);
    let shoff = file.len() - 64;
    file[shoff + 32..shoff + 40].copy_from_slice(&0x10000u64.to_le_bytes());
    assert_eq!(decode_symbol_table(&file, SymbolTableKind::Static), Err(ElfError::TruncatedTable));
}

#[test]
fn symbol_table_whose_link_names_no_section_is_out_of_bounds() {
    let file = build64(&[sec(0, 2, 9, 24, sym64(0, 0x12, 0, 1, 0, 0))], 0);
    assert_eq!(decode_symbol_table(&file, SymbolTableKind::Static), Err(ElfError::OutOfBounds));
}

#[test]
fn fields_are_read_in_the_byte_order_of_the_file() {
    let data = [0x12u8, 0x34, 0x56, 0x78, 0x9a];
    assert_eq!(u16_at(&data, 0, ByteOrder::Little), Some(0x3412));
    assert_eq!(u16_at(&data, 0, ByteOrder::Big), Some(0x1234));
    assert_eq!(u16_at(&data, 3, ByteOrder::Big), Some(0x789a));
    assert_eq!(u16_at(&data, 4, ByteOrder::Big), None);
    assert_eq!(u16_at(&data, usize::MAX, ByteOrder::Big), None);
    assert_eq!(u32_at(&data, 0, ByteOrder::Little), Some(0x78563412));
    assert_eq!(u32_at(&data, 1, ByteOrder::Big), Some(0x3456789a));
    assert_eq!(u32_at(&data, 2, ByteOrder::Big), None);
    assert_eq!(u32_at(&[0xff; 4], 0, ByteOrder::Little), Some(u32::MAX));
    assert_eq!(u16_at(&[], 0, ByteOrder::Little), None);
}

#[test]
fn section_range_is_the_range_its_header_names() {
    let file = file_with_symbols();
    let headers = decode_section_headers(&file).unwrap();
    assert_eq!(section_range(&file, &headers[2]), Some(&b"\0main\0counter\0"[..]));
    assert_eq!(section_range(&file, &headers[0]), Some(&[][..]));
    let mut beyond = headers[2];
    beyond.sh_size = file.len() as u64;
    assert_eq!(section_range(&file, &beyond), None);
    beyond.sh_offset = u64::MAX;
    beyond.sh_size = 2;
    assert_eq!(section_range(&file, &beyond), None);
}

#[test]
fn symbol_table_that_ends_in_a_part_of_a_symbol_is_truncated() {
    let strs = b"\0main\0".to_vec();
    let mut syms = sym64(1, 0x12, 0, 1, 0, 0);
    syms.extend_from_slice(&[0u8; 23]);
    let file = build64(&[sec(0, 3, 0, 0, strs), sec(0, 2, 1, 24, syms)], 0);
    assert_eq!(decode_symbol_table(&file, SymbolTableKind::Static), Err(ElfError::TruncatedTable));
}

#[test]
fn wide_fields_are_read_in_the_byte_order_of_the_file() {
    let data = [1u8, 2, 3, 4, 5, 6, 7, 8, 9];
    assert_eq!(u64_at(&data, 0, ByteOrder::Little), Some(0x0807060504030201));
    assert_eq!(u64_at(&data, 1, ByteOrder::Big), Some(0x0203040506070809));
    assert_eq!(u64_at(&data, 2, ByteOrder::Big), None);
    assert_eq!(u64_at(&[0xff; 8], 0, ByteOrder::Big), Some(u64::MAX));
    assert_eq!(u64_at(&[], 0, ByteOrder::Little), None);
}

#[test]
fn section_that_reaches_beyond_the_file_fails_the_section_table() {
    let mut file = build64(&[sec(0, 1, 0, 0, vec![1, 2, 3, 4])], 0);
    let shoff = file.len() - 64;
    file[shoff + 32..shoff + 40].copy_from_slice(&0x10000u64.to_le_bytes());
    assert_eq!(decode_section_headers(&file), Err(ElfError::TruncatedTable));
    assert_eq!(decode_section_table(&file), Err(ElfError::TruncatedTable));
}

#[test]
fn link_that_names_no_section_fails_the_section_table() {
    let file = build64(&[sec(0, 2, 9, 24, sym64(0, 0x12, 0, 1, 0, 0))], 0);
    assert_eq!(decode_section_headers(&file), Err(ElfError::OutOfBounds));
    // a link that names no section where it means none is no fault
    let file = build64(&[sec(0, 1, 9, 0, vec![1])], 0);
    assert_eq!(decode_section_headers(&file).unwrap().len(), 2);
}

#[test]
fn header_that_counts_no_sections_has_an_empty_table_whatever_its_offset() {
    let mut file = file_with_symbols();
    file[60..62].copy_from_slice(&0u16.to_le_bytes());
    assert_eq!(decode_section_headers(&file), Ok(vec![]));
    assert_eq!(decode_section_table(&file).unwrap().headers.len(), 0);
    assert_eq!(decode_symbol_table(&file, SymbolTableKind::Static), Ok(None));
}

#[test]
fn decoded_symbols_are_held_against_their_packed_bytes() {
    let a = Symbol {
        st_name: 0,
        st_shndx: 1,
        st_bind: 1,
        st_symtype: 2,
        st_vis: 3,
        st_value: 0,
        st_size: 0,
    };
    let wide = sym64(0, 0x12, 0xff, 1, 0, 0);
    assert!(bitfields_agree(&vec![a], &wide, Class::Elf64));
    assert!(bitfields_agree(&vec![], &wide, Class::Elf64));
    assert!(!bitfields_agree(&vec![Symbol { st_bind: 2, ..a }], &wide, Class::Elf64));
    assert!(!bitfields_agree(&vec![Symbol { st_symtype: 1, ..a }], &wide, Class::Elf64));
    assert!(!bitfields_agree(&vec![Symbol { st_vis: 0, ..a }], &wide, Class::Elf64));
    let mut two = wide.clone();
    two.extend(sym64(0, 0x21, 0, 0, 0, 0));
    let b = Symbol { st_bind: 2, st_symtype: 1, st_vis: 0, ..a };
    assert!(bitfields_agree(&vec![a, b], &two, Class::Elf64));
    assert!(!bitfields_agree(&vec![b, a], &two, Class::Elf64));
    let mut narrow = vec![0u8; 16];
    narrow[12] = 0x12;
    narrow[13] = 0x03;
    assert!(bitfields_agree(&vec![a], &narrow, Class::Elf32));
    narrow[12] = 0x13;
    assert!(!bitfields_agree(&vec![a], &narrow, Class::Elf32));
}
