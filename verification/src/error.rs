use vstd::prelude::*;

verus! {

/// What the `elf` crate reported when it could not decode something, as far
/// as this library tells its reports apart.
#[derive(Clone, Copy, Debug, PartialEq, Eq, Structural)]
pub enum ParseFault {
    /// The file does not start with the magic bytes.
    BadMagic,
    /// The class byte, where it is neither 1 nor 2.
    UnsupportedElfClass(u8),
    /// The byte-order byte, where it is neither 1 nor 2.
    UnsupportedElfEndianness(u8),
    /// A version field holds a value other than the current one.
    UnsupportedVersion,
    /// An offset or index lies outside the structure asked for.
    BadOffset(u64),
    /// No NUL byte ends the string that starts at this offset.
    StringTableMissingNul(u64),
    /// A table declares an entry size other than its records have.
    BadEntsize,
    /// A section or segment was read as a kind that its type tag denies.
    UnexpectedType,
    /// A note section declares an alignment that cannot be used.
    UnexpectedAlignment,
    /// A structure reaches beyond the bytes that hold it.
    SliceReadError,
    /// A computed offset or size does not fit the machine's integers.
    IntegerOverflow,
    /// A name is not valid UTF-8.
    Utf8Error,
    /// The byte source failed.
    IOError,
}

/// The failures this library reports.
#[derive(Clone, Copy, Debug, PartialEq, Eq, Structural)]
pub enum ElfError {
    /// The identification bytes are not those of an ELF file.
    MalformedHeader,
    /// The class byte is neither 32-bit nor 64-bit.
    UnsupportedClass,
    /// The byte-order byte is neither little- nor big-endian.
    UnsupportedEndianness,
    /// A table's declared extent does not fit the file.
    TruncatedTable,
    /// A string offset or table index lies outside its blob or array.
    OutOfBounds,
    /// A version table could not be walked.
    MalformedVersionChain,
    /// A field holds a value outside the set the format defines.
    InvalidBitfield,
}

/// The error kind that stands for each fault of the decoder.
pub open spec fn spec_classify(fault: ParseFault) -> ElfError {
    match fault {
        ParseFault::BadMagic => ElfError::MalformedHeader,
        ParseFault::UnsupportedVersion => ElfError::MalformedHeader,
        ParseFault::UnsupportedElfClass(_) => ElfError::UnsupportedClass,
        ParseFault::UnsupportedElfEndianness(_) => ElfError::UnsupportedEndianness,
        ParseFault::BadOffset(_) => ElfError::OutOfBounds,
        ParseFault::StringTableMissingNul(_) => ElfError::OutOfBounds,
        ParseFault::Utf8Error => ElfError::InvalidBitfield,
        ParseFault::BadEntsize => ElfError::InvalidBitfield,
        ParseFault::UnexpectedType => ElfError::InvalidBitfield,
        ParseFault::UnexpectedAlignment => ElfError::InvalidBitfield,
        ParseFault::SliceReadError => ElfError::TruncatedTable,
        ParseFault::IntegerOverflow => ElfError::TruncatedTable,
        ParseFault::IOError => ElfError::TruncatedTable,
    }
}

/// Maps a fault of the decoder to the error kind reported for it.
pub fn classify(fault: ParseFault) -> (e: ElfError)
    ensures
        e == spec_classify(fault),
{
    match fault {
        ParseFault::BadMagic | ParseFault::UnsupportedVersion => ElfError::MalformedHeader,
        ParseFault::UnsupportedElfClass(_) => ElfError::UnsupportedClass,
        ParseFault::UnsupportedElfEndianness(_) => ElfError::UnsupportedEndianness,
        ParseFault::BadOffset(_) | ParseFault::StringTableMissingNul(_) => ElfError::OutOfBounds,
        ParseFault::Utf8Error
        | ParseFault::BadEntsize
        | ParseFault::UnexpectedType
        | ParseFault::UnexpectedAlignment => ElfError::InvalidBitfield,
        ParseFault::SliceReadError | ParseFault::IntegerOverflow | ParseFault::IOError => {
            ElfError::TruncatedTable
        },
    }
}

/// The error kind for a fault met while the header and the two header tables
/// are read: there a bad offset is a table that reaches beyond the file.
pub open spec fn spec_classify_open(fault: ParseFault) -> ElfError {
    match fault {
        ParseFault::BadOffset(_) => ElfError::TruncatedTable,
        _ => spec_classify(fault),
    }
}

/// Maps a fault met while the header and the two header tables are read.
pub fn classify_open(fault: ParseFault) -> (e: ElfError)
    ensures
        e == spec_classify_open(fault),
{
    match fault {
        ParseFault::BadOffset(_) => ElfError::TruncatedTable,
        _ => classify(fault),
    }
}

} // verus!
