use readelf::invariants::{
    first_inconsistent_section, is_power_of_two, link_is_valid, section_fits,
    segment_is_consistent, tables_fit,
};
use readelf::model::{
    ByteOrder, Class, FileHeader, Note, ProgramHeader, SectionHeader, Symbol,
};
use readelf::report::{
    file_header_line, note_text, program_header_row, section_row, symbol_row, NoteText,
};
use readelf::symbols::NamedSymbol;

fn header(phoff: u64, phnum: u16, shoff: u64, shnum: u16) -> FileHeader {
    FileHeader {
        class: Class::Elf64,
        order: ByteOrder::Little,
        version: 1,
        osabi: 0,
        abiversion: 0,
        e_type: 2,
        e_machine: 62,
        e_entry: 0,
        e_phoff: phoff,
        e_shoff: shoff,
        e_flags: 0,
        e_ehsize: 64,
        e_phentsize: 56,
        e_phnum: phnum,
        e_shentsize: 64,
        e_shnum: shnum,
        e_shstrndx: 0,
    }
}

#[test]
fn header_tables_must_end_inside_the_file() {
    assert!(tables_fit(&header(64, 2, 176, 3), 368));
    assert!(!tables_fit(&header(64, 2, 176, 3), 367));
    assert!(!tables_fit(&header(64, 3, 0, 0), 231));
    assert!(tables_fit(&header(64, 3, 0, 0), 232));
    assert!(tables_fit(&header(0, 0, 0, 0), 0));
    assert!(!tables_fit(&header(u64::MAX, 1, 0, 0), u64::MAX));
    assert!(tables_fit(&header(u64::MAX, 0, 0, 0), u64::MAX));
    assert!(!tables_fit(&header(0, 0xffff, 0, 0), 1000));
}

fn section(sh_type: u32, offset: u64, size: u64, link: u32) -> SectionHeader {
    SectionHeader {
        sh_name: 0,
        sh_type,
        sh_flags: 0,
        sh_addr: 0,
        sh_offset: offset,
        sh_size: size,
        sh_link: link,
        sh_info: 0,
        sh_addralign: 1,
        sh_entsize: 0,
    }
}

#[test]
fn section_bytes_must_end_inside_the_file_unless_there_are_none() {
    assert!(section_fits(&section(1, 100, 28, 0), 128));
    assert!(!section_fits(&section(1, 100, 29, 0), 128));
    assert!(section_fits(&section(8, 100, 1 << 40, 0), 128));
    assert!(!section_fits(&section(1, u64::MAX, 2, 0), u64::MAX));
    assert!(section_fits(&section(1, 0, 0, 0), 0));
}

#[test]
fn links_must_name_a_section_where_they_mean_one() {
    assert!(link_is_valid(&section(2, 0, 0, 4), 5));
    assert!(!link_is_valid(&section(2, 0, 0, 5), 5));
    assert!(!link_is_valid(&section(11, 0, 0, 9), 5));
    assert!(!link_is_valid(&section(0x6ffffffe, 0, 0, 5), 5));
    assert!(link_is_valid(&section(1, 0, 0, 77), 5));
    assert!(link_is_valid(&section(3, 0, 0, 77), 0));
}

#[test]
fn first_inconsistent_section_is_found() {
    let good = section(1, 0, 10, 0);
    let long = section(1, 5, 10, 0);
    let lost = section(4, 0, 0, 9);
    assert_eq!(first_inconsistent_section(&vec![], 10), None);
    assert_eq!(first_inconsistent_section(&vec![good, good], 10), None);
    assert_eq!(first_inconsistent_section(&vec![good, long, lost], 10), Some(1));
    assert_eq!(first_inconsistent_section(&vec![good, lost, long], 10), Some(1));
    assert_eq!(first_inconsistent_section(&vec![lost], 10), Some(0));
}

#[test]
fn powers_of_two_are_recognised() {
    for k in 0..64 {
        assert!(is_power_of_two(1u64 << k));
    }
    for n in [0u64, 3, 5, 6, 7, 9, 12, 0x1001, u64::MAX, (1 << 40) + 1, 3 << 20] {
        assert!(!is_power_of_two(n));
    }
}

fn segment(offset: u64, vaddr: u64, filesz: u64, memsz: u64, align: u64) -> ProgramHeader {
    ProgramHeader {
        p_type: 1,
        p_offset: offset,
        p_vaddr: vaddr,
        p_paddr: vaddr,
        p_filesz: filesz,
        p_memsz: memsz,
        p_flags: 5,
        p_align: align,
    }
}

#[test]
fn segments_are_held_to_their_three_rules() {
    assert!(segment_is_consistent(&segment(0x1000, 0x401000, 0x200, 0x300, 0x1000)));
    assert!(segment_is_consistent(&segment(0x1234, 0x405234, 0x200, 0x200, 0x1000)));
    assert!(!segment_is_consistent(&segment(0x1000, 0x401000, 0x301, 0x300, 0x1000)));
    assert!(!segment_is_consistent(&segment(0x1000, 0x401000, 0x200, 0x300, 0x1800)));
    assert!(!segment_is_consistent(&segment(0x1001, 0x401000, 0x200, 0x300, 0x1000)));
    assert!(segment_is_consistent(&segment(0x1001, 0x401000, 0x200, 0x300, 0)));
    assert!(segment_is_consistent(&segment(0x1001, 0x401000, 0x200, 0x300, 1)));
    assert!(segment_is_consistent(&segment(0x1001, 0x401003, 0, 0, 2)));
    assert!(!segment_is_consistent(&segment(0x1001, 0x401002, 0, 0, 2)));
}

fn file_type_line(e_type: u16) -> String {
    let mut h = header(0, 0, 0, 0);
    h.e_type = e_type;
    file_header_line(&h)
}

#[test]
fn every_file_type_has_its_name() {
    let names = ["ET_NONE", "ET_REL", "ET_EXEC", "ET_DYN", "ET_CORE"];
    for (value, name) in names.iter().enumerate() {
        assert_eq!(
            file_type_line(value as u16),
            format!("File Header for 64-bit little-endian Elf {name} for ELFOSABI_SYSV EM_X86_64")
        );
    }
    assert_eq!(
        file_type_line(5),
        "File Header for 64-bit little-endian Elf e_type(0x5) for ELFOSABI_SYSV EM_X86_64"
    );
    assert_eq!(
        file_type_line(0xfe00),
        "File Header for 64-bit little-endian Elf e_type(0xfe00) for ELFOSABI_SYSV EM_X86_64"
    );
}

#[test]
fn every_flag_set_has_its_letters() {
    let letters = ["   ", "  E", " W ", " WE", "R  ", "R E", "RW ", "RWE"];
    for (flags, text) in letters.iter().enumerate() {
        let mut p = segment(0, 0, 0, 0, 0);
        p.p_flags = flags as u32;
        assert_eq!(program_header_row(&p)[7], *text);
    }
    let mut p = segment(0, 0, 0, 0, 0);
    p.p_flags = 8;
    assert_eq!(program_header_row(&p)[7], "p_flags(0x8)");
    p.p_flags = 0xf000_0005;
    assert_eq!(program_header_row(&p)[7], "p_flags(0xf0000005)");
}

fn symbol_cells(st_symtype: u8, st_bind: u8, st_vis: u8) -> Vec<String> {
    let symbol = Symbol {
        st_name: 0,
        st_shndx: 1,
        st_bind,
        st_symtype,
        st_vis,
        st_value: 0,
        st_size: 0,
    };
    symbol_row(0, &NamedSymbol { name: "x".to_string(), symbol })
}

#[test]
fn every_symbol_type_binding_and_visibility_has_its_name() {
    let types = [
        (0u8, "STT_NOTYPE"),
        (1, "STT_OBJECT"),
        (2, "STT_FUNC"),
        (3, "STT_SECTION"),
        (4, "STT_FILE"),
        (5, "STT_COMMON"),
        (6, "STT_TLS"),
        (7, "st_symtype(0x7)"),
        (10, "STT_GNU_IFUNC"),
        (15, "st_symtype(0xf)"),
    ];
    for (value, name) in types {
        assert_eq!(symbol_cells(value, 0, 0)[3], name);
    }
    let bindings = [
        (0u8, "STB_LOCAL"),
        (1, "STB_GLOBAL"),
        (2, "STB_WEAK"),
        (3, "st_bind(0x3)"),
        (10, "STB_GNU_UNIQUE"),
        (15, "st_bind(0xf)"),
    ];
    for (value, name) in bindings {
        assert_eq!(symbol_cells(0, value, 0)[4], name);
    }
    let visibilities =
        [(0u8, "STV_DEFAULT"), (1, "STV_INTERNAL"), (2, "STV_HIDDEN"), (3, "STV_PROTECTED")];
    for (value, name) in visibilities {
        assert_eq!(symbol_cells(0, 0, value)[5], name);
    }
}

#[test]
fn every_known_os_of_an_abi_tag_has_its_name() {
    let names = [(0u32, "Linux"), (1, "GNU"), (2, "Solaris"), (3, "FreeBSD"), (4, "4")];
    for (os, name) in names {
        assert_eq!(
            note_text(&Note::AbiTag { os, major: 3, minor: 2, subminor: 0 }),
            NoteText::Line(format!("    OS: {name}, ABI: 3.2.0"))
        );
    }
}

#[test]
fn every_segment_type_has_its_name() {
    let names = [
        (0u32, "PT_NULL"),
        (1, "PT_LOAD"),
        (2, "PT_DYNAMIC"),
        (3, "PT_INTERP"),
        (4, "PT_NOTE"),
        (5, "PT_SHLIB"),
        (6, "PT_PHDR"),
        (7, "PT_TLS"),
        (8, "p_type(0x8)"),
        (0x6474e550, "PT_GNU_EH_FRAME"),
        (0x6474e551, "PT_GNU_STACK"),
        (0x6474e552, "PT_GNU_RELRO"),
        (0x6474e553, "PT_GNU_PROPERTY"),
        (0x6474e554, "p_type(0x6474e554)"),
        (0x70000001, "p_type(0x70000001)"),
    ];
    for (value, name) in names {
        let mut p = segment(0, 0, 0, 0, 0);
        p.p_type = value;
        assert_eq!(program_header_row(&p)[0], name);
    }
}

#[test]
fn every_section_type_has_its_name() {
    let names = [
        (0u32, "SHT_NULL"),
        (1, "SHT_PROGBITS"),
        (2, "SHT_SYMTAB"),
        (3, "SHT_STRTAB"),
        (4, "SHT_RELA"),
        (5, "SHT_HASH"),
        (6, "SHT_DYNAMIC"),
        (7, "SHT_NOTE"),
        (8, "SHT_NOBITS"),
        (9, "SHT_REL"),
        (10, "SHT_SHLIB"),
        (11, "SHT_DYNSYM"),
        (12, "sh_type(0xc)"),
        (13, "sh_type(0xd)"),
        (14, "SHT_INIT_ARRAY"),
        (15, "SHT_FINI_ARRAY"),
        (16, "SHT_PREINIT_ARRAY"),
        (17, "SHT_GROUP"),
        (18, "SHT_SYMTAB_SHNDX"),
        (19, "sh_type(0x13)"),
        (0x6ffffff5, "SHT_GNU_ATTRIBUTES"),
        (0x6ffffff6, "SHT_GNU_HASH"),
        (0x6ffffff7, "SHT_GNU_LIBLIST"),
        (0x6ffffff8, "sh_type(0x6ffffff8)"),
        (0x6ffffffd, "SHT_GNU_VERDEF"),
        (0x6ffffffe, "SHT_GNU_VERNEED"),
        (0x6fffffff, "SHT_GNU_VERSYM"),
        (0x70000000, "sh_type(0x70000000)"),
    ];
    for (value, name) in names {
        assert_eq!(section_row(0, &String::new(), &section(value, 0, 0, 0))[2], name);
    }
}

#[test]
fn every_os_abi_has_its_name() {
    let names = [
        (0u8, "ELFOSABI_SYSV"),
        (1, "ELFOSABI_HPUX"),
        (2, "ELFOSABI_NETBSD"),
        (3, "ELFOSABI_LINUX"),
        (4, "e_osabi(0x4)"),
        (5, "e_osabi(0x5)"),
        (6, "ELFOSABI_SOLARIS"),
        (7, "ELFOSABI_AIX"),
        (8, "ELFOSABI_IRIX"),
        (9, "ELFOSABI_FREEBSD"),
        (10, "ELFOSABI_TRU64"),
        (11, "ELFOSABI_MODESTO"),
        (12, "ELFOSABI_OPENBSD"),
        (13, "ELFOSABI_OPENVMS"),
        (14, "ELFOSABI_NSK"),
        (15, "ELFOSABI_AROS"),
        (16, "ELFOSABI_FENIXOS"),
        (17, "ELFOSABI_CLOUDABI"),
        (18, "ELFOSABI_OPENVOS"),
        (19, "e_osabi(0x13)"),
        (255, "e_osabi(0xff)"),
    ];
    for (value, name) in names {
        let mut h = header(0, 0, 0, 0);
        h.osabi = value;
        assert_eq!(
            file_header_line(&h),
            format!("File Header for 64-bit little-endian Elf ET_EXEC for {name} EM_X86_64")
        );
    }
}
