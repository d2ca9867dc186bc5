use moscope::macho::constants::{
    CPU_TYPE_ARM64, CPU_TYPE_X86, MH_DYLIB, MH_EXECUTE, MH_PIE, MH_TWOLEVEL,
};
use moscope::macho::error::{ErrorKind, Stage};
use moscope::macho::header::{
    macho_flag, parse_flags, read_thin_header, MachOHeader, MachOKind, MachOSlice,
    MACHO_FLAG_COUNT,
};

fn header64_le() -> Vec<u8> {
    let mut data = Vec::new();
    data.extend_from_slice(&[0xCF, 0xFA, 0xED, 0xFE]);
    data.extend_from_slice(&CPU_TYPE_ARM64.to_le_bytes());
    data.extend_from_slice(&(-0x7FFF_FFFEi32).to_le_bytes());
    data.extend_from_slice(&MH_EXECUTE.to_le_bytes());
    data.extend_from_slice(&17u32.to_le_bytes());
    data.extend_from_slice(&1056u32.to_le_bytes());
    data.extend_from_slice(&0x0020_0085u32.to_le_bytes());
    data.extend_from_slice(&0xDDCC_BBAAu32.to_le_bytes());
    data
}

fn header32_be() -> Vec<u8> {
    let mut data = Vec::new();
    data.extend_from_slice(&[0xFE, 0xED, 0xFA, 0xCE]);
    data.extend_from_slice(&CPU_TYPE_X86.to_be_bytes());
    data.extend_from_slice(&3i32.to_be_bytes());
    data.extend_from_slice(&MH_DYLIB.to_be_bytes());
    data.extend_from_slice(&4u32.to_be_bytes());
    data.extend_from_slice(&200u32.to_be_bytes());
    data.extend_from_slice(&1u32.to_be_bytes());
    data
}

#[test]
fn macho_kind_width_and_order() {
    assert!(MachOKind::Mach64BE.is_64() && MachOKind::Mach64LE.is_64());
    assert!(!MachOKind::Mach32BE.is_64() && !MachOKind::Mach32LE.is_64());
    assert!(MachOKind::Mach32BE.is_be() && MachOKind::Mach64BE.is_be());
    assert!(!MachOKind::Mach32LE.is_be() && !MachOKind::Mach64LE.is_be());
}

#[test]
fn read_thin_header_64_le() {
    let data = header64_le();
    let parsed = read_thin_header(&data, &MachOSlice { offset: 0, size: None }).unwrap();
    assert_eq!(parsed.kind, MachOKind::Mach64LE);
    match parsed.header {
        MachOHeader::Header64(h) => {
            assert_eq!(h.magic, 0xFEED_FACF);
            assert_eq!(h.cputype, CPU_TYPE_ARM64);
            assert_eq!(h.cpusubtype, -0x7FFF_FFFE);
            assert_eq!(h.filetype, MH_EXECUTE);
            assert_eq!(h.ncmds, 17);
            assert_eq!(h.sizeofcmds, 1056);
            assert_eq!(h.flags, 0x0020_0085);
            assert_eq!(h.reserved, 0xDDCC_BBAA);
        }
        _ => panic!("Expected Header64"),
    }
    assert_eq!(parsed.header.ncmds(), 17);
    assert_eq!(parsed.header.sizeofcmds(), 1056);
    assert_eq!(parsed.header.cputype(), CPU_TYPE_ARM64);
}

#[test]
fn read_thin_header_32_be_at_an_offset() {
    let mut data = vec![0x55u8; 100];
    data.extend_from_slice(&header32_be());
    let parsed = read_thin_header(&data, &MachOSlice { offset: 100, size: Some(28) }).unwrap();
    assert_eq!(parsed.kind, MachOKind::Mach32BE);
    match parsed.header {
        MachOHeader::Header32(h) => {
            assert_eq!(h.magic, 0xFEED_FACE);
            assert_eq!(h.cputype, CPU_TYPE_X86);
            assert_eq!(h.cpusubtype, 3);
            assert_eq!(h.filetype, MH_DYLIB);
            assert_eq!(h.ncmds, 4);
            assert_eq!(h.sizeofcmds, 200);
            assert_eq!(h.flags, 1);
        }
        _ => panic!("Expected Header32"),
    }
}

#[test]
fn read_thin_header_64_be_and_32_le_magics() {
    let mut data = header64_le();
    data[..4].copy_from_slice(&[0xFE, 0xED, 0xFA, 0xCF]);
    let parsed = read_thin_header(&data, &MachOSlice { offset: 0, size: None }).unwrap();
    assert_eq!(parsed.kind, MachOKind::Mach64BE);
    assert_eq!(parsed.header.magic(), 0xFEED_FACF);
    data[..4].copy_from_slice(&[0xCE, 0xFA, 0xED, 0xFE]);
    let parsed = read_thin_header(&data, &MachOSlice { offset: 0, size: None }).unwrap();
    assert_eq!(parsed.kind, MachOKind::Mach32LE);
    assert_eq!(parsed.header.ncmds(), 17);
}

#[test]
fn read_thin_header_too_short() {
    let data = header32_be();
    for cut in 0..28 {
        let e = read_thin_header(&data[..cut], &MachOSlice { offset: 0, size: None }).unwrap_err();
        assert_eq!(e.kind, ErrorKind::TruncatedRecord);
        assert_eq!(e.stage, Stage::MachHeader);
    }
    let data = header64_le();
    for cut in 28..32 {
        let e = read_thin_header(&data[..cut], &MachOSlice { offset: 0, size: None }).unwrap_err();
        assert_eq!(e.kind, ErrorKind::TruncatedRecord);
    }
}

#[test]
fn read_thin_header_offset_past_the_end() {
    let data = header64_le();
    for offset in [5u64, 32, 33, u64::MAX] {
        let e = read_thin_header(&data, &MachOSlice { offset, size: None }).unwrap_err();
        assert_eq!(e.kind, ErrorKind::TruncatedRecord);
        assert_eq!(e.offset, offset);
    }
}

#[test]
fn read_thin_header_bad_magic() {
    let mut data = header64_le();
    data[0] = 0xCA;
    let e = read_thin_header(&data, &MachOSlice { offset: 0, size: None }).unwrap_err();
    assert_eq!(e.kind, ErrorKind::NotRecognizedContainer);
    let fat = [0xCA, 0xFE, 0xBA, 0xBE, 0, 0, 0, 1, 0, 0, 0, 0, 0, 0, 0, 0, 0, 0, 0, 0, 0, 0, 0, 0, 0, 0, 0, 0];
    assert!(read_thin_header(&fat, &MachOSlice { offset: 0, size: None }).is_err());
}

#[test]
fn parse_flags_in_table_order() {
    assert_eq!(parse_flags(0), Vec::<&str>::new());
    assert_eq!(parse_flags(MH_PIE | MH_TWOLEVEL | 0x1 | 0x4), vec!["NOUNDEFS", "DYLDLINK", "TWOLEVEL", "PIE"]);
    assert_eq!(parse_flags(0x8000_0000), vec!["DYLIB_IN_CACHE"]);
    assert_eq!(parse_flags(0x6000_0000), Vec::<&str>::new());
    assert_eq!(parse_flags(u32::MAX).len(), 30);
}

#[test]
fn macho_flag_table() {
    assert_eq!(MACHO_FLAG_COUNT, 30);
    for i in 0..29 {
        assert_eq!(macho_flag(i).mask, 1u32 << i);
    }
    assert_eq!(macho_flag(29).mask, 1u32 << 31);
    assert_eq!(macho_flag(13).name, "SUBSECTIONS_VIA_SYMBOLS");
    assert_eq!(macho_flag(29).name, "DYLIB_IN_CACHE");
}

#[test]
fn header_report() {
    let data = header64_le();
    let parsed = read_thin_header(&data, &MachOSlice { offset: 0, size: None }).unwrap();
    let report = parsed.header.build_report(true);
    assert_eq!(report.magic, 0xFEED_FACF);
    assert_eq!(report.file_type, "Demand Paged Executable File [[MH_EXECUTE]]");
    assert_eq!(report.cpu_type, "ARM");
    assert_eq!(report.cpu_subtype, "arm64e");
    assert_eq!(report.ncmds, 17);
    assert_eq!(report.sizeofcmds, 1056);
    assert_eq!(report.flags, vec!["NOUNDEFS", "DYLDLINK", "TWOLEVEL", "PIE"]);
}
