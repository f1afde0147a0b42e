use vstd::prelude::*;

verus! {

/// Word size of an object file.
#[derive(Clone, Copy, Debug, PartialEq, Eq, Structural)]
pub enum Class {
    Elf32,
    Elf64,
}

/// Byte order of the multi-byte fields of an object file.
#[derive(Clone, Copy, Debug, PartialEq, Eq, Structural)]
pub enum ByteOrder {
    Little,
    Big,
}

/// The decoded file header.
#[derive(Clone, Copy, Debug, PartialEq, Eq, Structural)]
pub struct FileHeader {
    pub class: Class,
    pub order: ByteOrder,
    pub version: u32,
    pub osabi: u8,
    pub abiversion: u8,
    pub e_type: u16,
    pub e_machine: u16,
    pub e_entry: u64,
    pub e_phoff: u64,
    pub e_shoff: u64,
    pub e_flags: u32,
    pub e_ehsize: u16,
    pub e_phentsize: u16,
    pub e_phnum: u16,
    pub e_shentsize: u16,
    pub e_shnum: u16,
    pub e_shstrndx: u16,
}

/// One entry of the section header table.
#[derive(Clone, Copy, Debug, PartialEq, Eq, Structural)]
pub struct SectionHeader {
    pub sh_name: u32,
    pub sh_type: u32,
    pub sh_flags: u64,
    pub sh_addr: u64,
    pub sh_offset: u64,
    pub sh_size: u64,
    pub sh_link: u32,
    pub sh_info: u32,
    pub sh_addralign: u64,
    pub sh_entsize: u64,
}

/// One entry of the program header table.
#[derive(Clone, Copy, Debug, PartialEq, Eq, Structural)]
pub struct ProgramHeader {
    pub p_type: u32,
    pub p_offset: u64,
    pub p_vaddr: u64,
    pub p_paddr: u64,
    pub p_filesz: u64,
    pub p_memsz: u64,
    pub p_flags: u32,
    pub p_align: u64,
}

/// One entry of a symbol table, with the packed bytes already taken apart.
#[derive(Clone, Copy, Debug, PartialEq, Eq, Structural)]
pub struct Symbol {
    pub st_name: u32,
    pub st_shndx: u16,
    pub st_bind: u8,
    pub st_symtype: u8,
    pub st_vis: u8,
    pub st_value: u64,
    pub st_size: u64,
}

/// One tag/value pair of the dynamic section.
#[derive(Clone, Copy, Debug, PartialEq, Eq, Structural)]
pub struct DynamicEntry {
    pub d_tag: i64,
    pub d_val: u64,
}

/// A relocation record without an addend.
#[derive(Clone, Copy, Debug, PartialEq, Eq, Structural)]
pub struct Rel {
    pub r_offset: u64,
    pub r_sym: u32,
    pub r_type: u32,
}

/// A relocation record with an explicit addend.
#[derive(Clone, Copy, Debug, PartialEq, Eq, Structural)]
pub struct Rela {
    pub r_offset: u64,
    pub r_sym: u32,
    pub r_type: u32,
    pub r_addend: i64,
}

/// A note record: one of the two recognised GNU forms, or the generic form.
#[derive(Clone, Debug, PartialEq, Eq)]
pub enum Note {
    AbiTag { os: u32, major: u32, minor: u32, subminor: u32 },
    BuildId { id: Vec<u8> },
    Generic { n_type: u64, name: String, desc: Vec<u8> },
}

/// A version that a dynamic symbol is bound to.
#[derive(Clone, Debug, PartialEq, Eq)]
pub struct VersionName {
    /// The version's name, such as `GLIBC_2.2.5`.
    pub name: String,
    /// Whether the version index marks the symbol as hidden.
    pub hidden: bool,
}

/// The mathematical value of a `VersionName`.
pub struct VersionNameModel {
    pub name: Seq<char>,
    pub hidden: bool,
}

impl View for VersionName {
    type V = VersionNameModel;

    open spec fn view(&self) -> VersionNameModel {
        VersionNameModel { name: self.name@, hidden: self.hidden }
    }
}

} // verus!
