use readelf::model::{
    ByteOrder, Class, DynamicEntry, FileHeader, Note, ProgramHeader, Rel, Rela, SectionHeader,
    Symbol, VersionName,
};
use readelf::report::{
    byte_list, dynamic_row, dynamic_rows, dynamic_symbol_row, dynamic_symbol_rows,
    dynamic_symbol_titles, dynamic_titles, file_header_line, rel_titles, rela_titles, note_text, note_titles, notes_heading,
    program_header_row, program_header_rows, program_header_titles, rel_row, rel_rows, rela_row,
    rela_rows, section_row, section_rows, section_titles, symbol_row, symbol_rows, symbol_titles,
    NoteText,
};
use readelf::sections::SectionTable;
use readelf::symbols::NamedSymbol;
use readelf::text::{bytes_hex, decimal, digit, hex, hex_bits};
use readelf::versions::VersionedSymbol;

#[test]
fn hexadecimal_has_a_prefix_and_no_leading_zeros() {
    assert_eq!(hex(0, false), "0x0");
    assert_eq!(hex(9, false), "0x9");
    assert_eq!(hex(10, false), "0xa");
    assert_eq!(hex(10, true), "0xA");
    assert_eq!(hex(255, false), "0xff");
    assert_eq!(hex(256, false), "0x100");
    assert_eq!(hex(0x401000, false), "0x401000");
    assert_eq!(hex(0xdead_beef, true), "0xDEADBEEF");
    assert_eq!(hex(u64::MAX, false), "0xffffffffffffffff");
}

#[test]
fn hexadecimal_is_what_the_formatter_writes() {
    for n in [0u64, 1, 15, 16, 17, 0x1000, 0x6fff_fffe, u64::MAX - 1, u64::MAX, 1 << 63] {
        assert_eq!(hex(n, false), format!("{:#x}", n));
        assert_eq!(hex(n, true), format!("{:#X?}", n));
    }
}

#[test]
fn signed_numbers_are_written_as_their_bits() {
    assert_eq!(hex_bits(-4, true), "0xFFFFFFFFFFFFFFFC");
    assert_eq!(hex_bits(-1, false), "0xffffffffffffffff");
    assert_eq!(hex_bits(0, true), "0x0");
    assert_eq!(hex_bits(7, true), "0x7");
    assert_eq!(hex_bits(i64::MIN, true), "0x8000000000000000");
    assert_eq!(hex_bits(i64::MAX, true), "0x7FFFFFFFFFFFFFFF");
    for v in [-4i64, -1, 0, 1, 0x6fff_fff0, i64::MIN, i64::MAX, -0x1000] {
        assert_eq!(hex_bits(v, true), format!("{:#X?}", v));
    }
}

#[test]
fn decimal_has_no_leading_zeros() {
    assert_eq!(decimal(0), "0");
    assert_eq!(decimal(7), "7");
    assert_eq!(decimal(10), "10");
    assert_eq!(decimal(4096), "4096");
    assert_eq!(decimal(u64::MAX), "18446744073709551615");
    for n in [0u64, 9, 10, 99, 100, 65535, u64::MAX] {
        assert_eq!(decimal(n), n.to_string());
    }
}

#[test]
fn digits_cover_both_cases() {
    let lower: String = (0u8..16).map(|d| digit(d, false)).collect();
    let upper: String = (0u8..16).map(|d| digit(d, true)).collect();
    assert_eq!(lower, "0123456789abcdef");
    assert_eq!(upper, "0123456789ABCDEF");
}

#[test]
fn bytes_are_written_two_digits_each() {
    assert_eq!(bytes_hex(&[], false), "");
    assert_eq!(bytes_hex(&[0], false), "00");
    assert_eq!(bytes_hex(&[0xde, 0xad, 0x0b, 0xef, 0x01], false), "dead0bef01");
    assert_eq!(bytes_hex(&[0xde, 0xad], true), "DEAD");
}

#[test]
fn byte_lists_are_bracketed() {
    assert_eq!(byte_list(&[]), "[]");
    assert_eq!(byte_list(&[1]), "[01]");
    assert_eq!(byte_list(&[1, 0xab, 0]), "[01, AB, 00]");
    for bytes in [vec![], vec![7u8], vec![0u8, 255, 16, 9]] {
        assert_eq!(byte_list(&bytes), format!("{:02X?}", bytes));
    }
}

fn header() -> FileHeader {
    FileHeader {
        class: Class::Elf64,
        order: ByteOrder::Little,
        version: 1,
        osabi: 3,
        abiversion: 0,
        e_type: 3,
        e_machine: 62,
        e_entry: 0,
        e_phoff: 0,
        e_shoff: 0,
        e_flags: 0,
        e_ehsize: 64,
        e_phentsize: 56,
        e_phnum: 0,
        e_shentsize: 64,
        e_shnum: 0,
        e_shstrndx: 0,
    }
}

#[test]
fn file_header_line_names_the_constants() {
    assert_eq!(
        file_header_line(&header()),
        "File Header for 64-bit little-endian Elf ET_DYN for ELFOSABI_LINUX EM_X86_64"
    );
    let mut h = header();
    h.class = Class::Elf32;
    h.order = ByteOrder::Big;
    h.e_type = 0x1234;
    h.osabi = 0;
    h.e_machine = 8;
    assert_eq!(
        file_header_line(&h),
        "File Header for 32-bit big-endian Elf e_type(0x1234) for ELFOSABI_SYSV EM_MIPS"
    );
}

#[test]
fn program_header_row_has_eight_cells() {
    let p = ProgramHeader {
        p_type: 1,
        p_offset: 0x1000,
        p_vaddr: 0x401000,
        p_paddr: 0x401000,
        p_filesz: 0x2a5,
        p_memsz: 0x2a5,
        p_flags: 5,
        p_align: 0x1000,
    };
    assert_eq!(
        program_header_row(&p),
        vec!["PT_LOAD", "0x1000", "0x401000", "0x401000", "0x2a5", "0x2a5", "4096", "R E"]
    );
    let q = ProgramHeader { p_type: 0x6474e551, p_flags: 6, ..p };
    let rows = program_header_rows(&vec![p, q]);
    assert_eq!(rows.len(), 2);
    assert_eq!(rows[0][0], "PT_LOAD");
    assert_eq!(rows[1][0], "PT_GNU_STACK");
    assert_eq!(rows[1][7], "RW ");
    assert_eq!(program_header_rows(&vec![]), Vec::<Vec<String>>::new());
    assert_eq!(
        program_header_titles(),
        vec![
            "p_type", "p_offset", "p_vaddr", "p_paddr", "p_filesz", "p_memsz", "p_align",
            "p_flags"
        ]
    );
}

#[test]
fn section_row_has_eleven_cells() {
    let s = SectionHeader {
        sh_name: 27,
        sh_type: 1,
        sh_flags: 6,
        sh_addr: 0x401000,
        sh_offset: 0x1000,
        sh_size: 0x1b,
        sh_link: 0,
        sh_info: 0,
        sh_addralign: 16,
        sh_entsize: 0,
    };
    assert_eq!(
        section_row(12, &".text".to_string(), &s),
        vec![
            "12", ".text", "SHT_PROGBITS", "0x401000", "0x1000", "0x1b", "0", "0x6", "0", "0",
            "16"
        ]
    );
    let null = SectionHeader { sh_type: 0, sh_name: 0, sh_flags: 0, sh_addr: 0, ..s };
    let table =
        SectionTable { headers: vec![null, s], names: vec![String::new(), ".text".to_string()] };
    let rows = section_rows(&table);
    assert_eq!(rows.len(), 2);
    assert_eq!(rows[0][0], "0");
    assert_eq!(rows[0][1], "");
    assert_eq!(rows[0][2], "SHT_NULL");
    assert_eq!(rows[1][0], "1");
    assert_eq!(rows[1][1], ".text");
    assert_eq!(section_titles().len(), 11);
    assert_eq!(section_titles()[0], "index");
    assert_eq!(section_titles()[10], "sh_addralign");
}

fn main_symbol() -> Symbol {
    Symbol {
        st_name: 1,
        st_shndx: 14,
        st_bind: 1,
        st_symtype: 2,
        st_vis: 0,
        st_value: 0x401126,
        st_size: 38,
    }
}

#[test]
fn symbol_row_has_eight_cells() {
    let entry = NamedSymbol { name: "main".to_string(), symbol: main_symbol() };
    assert_eq!(
        symbol_row(3, &entry),
        vec!["3", "0x401126", "38", "STT_FUNC", "STB_GLOBAL", "STV_DEFAULT", "14", "main"]
    );
    let odd = NamedSymbol {
        name: String::new(),
        symbol: Symbol { st_bind: 7, st_symtype: 9, st_vis: 2, st_shndx: 0xfff1, ..main_symbol() },
    };
    let rows = symbol_rows(&vec![entry, odd]);
    assert_eq!(rows.len(), 2);
    assert_eq!(rows[0][0], "0");
    assert_eq!(rows[1][0], "1");
    assert_eq!(rows[1][3], "st_symtype(0x9)");
    assert_eq!(rows[1][4], "st_bind(0x7)");
    assert_eq!(rows[1][5], "STV_HIDDEN");
    assert_eq!(rows[1][6], "65521");
    assert_eq!(rows[1][7], "");
    assert_eq!(
        symbol_titles(),
        vec!["ndx", "value", "size", "type", "bind", "visibility", "shndx", "name"]
    );
}

#[test]
fn dynamic_symbol_row_shows_the_version_an_import_needs() {
    let version = Some(VersionName { name: "GLIBC_2.2.5".to_string(), hidden: false });
    let import = VersionedSymbol {
        name: "memset".to_string(),
        symbol: Symbol { st_shndx: 0, st_value: 0, st_size: 0, ..main_symbol() },
        version: version.clone(),
    };
    assert_eq!(
        dynamic_symbol_row(1, &import),
        vec!["1", "0x0", "0", "STT_FUNC", "STB_GLOBAL", "STV_DEFAULT", "0", "GLIBC_2.2.5", "memset"]
    );
    let export = VersionedSymbol { name: "api".to_string(), symbol: main_symbol(), version };
    assert_eq!(dynamic_symbol_row(2, &export)[7], "None");
    let plain = VersionedSymbol {
        name: "puts".to_string(),
        symbol: Symbol { st_shndx: 0, ..main_symbol() },
        version: None,
    };
    let rows = dynamic_symbol_rows(&vec![import, export, plain]);
    assert_eq!(rows.len(), 3);
    assert_eq!(rows[0][7], "GLIBC_2.2.5");
    assert_eq!(rows[1][7], "None");
    assert_eq!(rows[2][7], "None");
    assert_eq!(rows[2][8], "puts");
    assert_eq!(dynamic_symbol_titles().len(), 9);
    assert_eq!(dynamic_symbol_titles()[7], "needs version");
}

#[test]
fn dynamic_row_is_upper_case_hexadecimal() {
    assert_eq!(dynamic_row(&DynamicEntry { d_tag: 1, d_val: 0x2a }), vec!["0x1", "0x2A"]);
    assert_eq!(
        dynamic_row(&DynamicEntry { d_tag: 0x6ffffffe, d_val: 0x4004c0 }),
        vec!["0x6FFFFFFE", "0x4004C0"]
    );
    assert_eq!(
        dynamic_row(&DynamicEntry { d_tag: -2, d_val: 0 }),
        vec!["0xFFFFFFFFFFFFFFFE", "0x0"]
    );
    let rows = dynamic_rows(&vec![
        DynamicEntry { d_tag: 5, d_val: 16 },
        DynamicEntry { d_tag: 0, d_val: 0 },
    ]);
    assert_eq!(rows, vec![vec!["0x5", "0x10"], vec!["0x0", "0x0"]]);
}

#[test]
fn relocation_rows_are_upper_case_hexadecimal() {
    let rel = Rel { r_offset: 0x2000, r_sym: 0xab, r_type: 0x2a };
    assert_eq!(rel_row(&rel), vec!["0x2A", "0xAB", "0x2000"]);
    let rela = Rela { r_offset: 0x1000, r_sym: 3, r_type: 7, r_addend: -4 };
    assert_eq!(rela_row(&rela), vec!["0x7", "0x3", "0x1000", "0xFFFFFFFFFFFFFFFC"]);
    assert_eq!(rel_rows(&vec![rel, rel]).len(), 2);
    assert_eq!(rela_rows(&vec![rela])[0][3], "0xFFFFFFFFFFFFFFFC");
    assert_eq!(rela_rows(&vec![]), Vec::<Vec<String>>::new());
}

#[test]
fn recognised_notes_are_lines_and_others_rows() {
    assert_eq!(
        note_text(&Note::AbiTag { os: 0, major: 2, minor: 6, subminor: 32 }),
        NoteText::Line("    OS: Linux, ABI: 2.6.32".to_string())
    );
    assert_eq!(
        note_text(&Note::AbiTag { os: 77, major: 1, minor: 0, subminor: 0 }),
        NoteText::Line("    OS: 77, ABI: 1.0.0".to_string())
    );
    assert_eq!(
        note_text(&Note::BuildId { id: vec![0xde, 0xad, 0x0b, 0x01] }),
        NoteText::Line("    Build ID: dead0b01".to_string())
    );
    assert_eq!(
        note_text(&Note::Generic { n_type: 3, name: "stapsdt".to_string(), desc: vec![1, 0xab] }),
        NoteText::Row(vec!["3".to_string(), "stapsdt".to_string(), "[01, AB]".to_string()])
    );
    assert_eq!(note_titles(), vec!["type", "name", "desc"]);
    assert_eq!(
        notes_heading(&".note.gnu.build-id".to_string()),
        "Displaying notes found in: .note.gnu.build-id"
    );
}

#[test]
fn dynamic_and_relocation_tables_have_titles() {
    assert_eq!(dynamic_titles(), vec!["d_tag", "d_ptr/d_val"]);
    assert_eq!(rel_titles(), vec!["r_type", "r_sym", "r_offset"]);
    assert_eq!(rela_titles(), vec!["r_type", "r_sym", "r_offset", "r_addend"]);
}
