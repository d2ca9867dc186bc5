use moscope::macho::error::{DecodeError, ErrorKind, Stage};
use moscope::macho::fat::{read_fat_archs, FatHeader, FatKind};
use moscope::macho::load_commands::read_load_commands;

#[test]
fn describe_names_stage_index_offset_and_kind() {
    let e = DecodeError::new(ErrorKind::TruncatedRecord, Stage::FatArch, 3, 0x44);
    assert_eq!(e.describe(), "fat arch[3] at offset 0x44: the record runs past the end of the file");
    let e = DecodeError::new(ErrorKind::MisalignedRecord, Stage::LoadCommand, 12, 4096);
    assert_eq!(e.describe(), "load command[12] at offset 0x1000: the size is not a multiple of the word size");
    let e = DecodeError::new(ErrorKind::NotRecognizedContainer, Stage::MachHeader, 0, 0);
    assert_eq!(e.describe(), "Mach-O header[0] at offset 0x0: not a Mach-O or fat magic number");
    let e = DecodeError::new(ErrorKind::UnterminatedString, Stage::Dylib, u64::MAX, u64::MAX);
    assert_eq!(
        e.describe(),
        "dylib[18446744073709551615] at offset 0xffffffffffffffff: the string has no NUL byte at its end"
    );
}

#[test]
fn describe_of_errors_that_decoders_return() {
    let header = FatHeader { kind: FatKind::Fat32BE, nfat_arch: 2 };
    let e = read_fat_archs(&[0u8; 30], &header).unwrap_err();
    assert_eq!(e.describe(), "fat arch[1] at offset 0x1c: the record runs past the end of the file");
    let e = read_load_commands(&[0u8; 64], 32, 1, 48, false).unwrap_err();
    assert_eq!(e.describe(), "load command[0] at offset 0x20: the word size is neither 32 nor 64");
}

#[test]
fn kind_and_stage_texts() {
    assert_eq!(ErrorKind::OutOfBoundsReference.text(), "an offset or size points out of bounds");
    assert_eq!(ErrorKind::UnsupportedWordSize.text(), "the word size is neither 32 nor 64");
    let stages = [
        (Stage::Scalar, "scalar"),
        (Stage::FatHeader, "fat header"),
        (Stage::FatArch, "fat arch"),
        (Stage::MachHeader, "Mach-O header"),
        (Stage::LoadCommand, "load command"),
        (Stage::Segment, "segment"),
        (Stage::Section, "section"),
        (Stage::Dylib, "dylib"),
        (Stage::RPath, "rpath"),
        (Stage::Symtab, "symtab"),
        (Stage::Dysymtab, "dysymtab"),
        (Stage::Symbol, "symbol"),
        (Stage::IndirectSymbol, "indirect symbol"),
    ];
    for (stage, name) in stages {
        assert_eq!(stage.name(), name);
    }
}
