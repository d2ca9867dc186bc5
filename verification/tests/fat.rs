use moscope::macho::constants::{CPU_TYPE_ARM64, CPU_TYPE_X86, FAT_CIGAM, FAT_MAGIC, FAT_MAGIC_64};
use moscope::macho::error::{ErrorKind, Stage};
use moscope::macho::fat::{read_fat_archs, read_fat_header, FatArch, FatHeader, FatKind};

#[test]
fn read_fat_header_32_be() {
    let data = [
        0xCA, 0xFE, 0xBA, 0xBE,
        0x00, 0x00, 0x00, 0x02,
    ];

    let header = read_fat_header(&data).unwrap();

    assert_eq!(header.kind, FatKind::Fat32BE);
    assert_eq!(header.nfat_arch, 2);
}

#[test]
fn read_fat_header_64_be() {
    let data = [
        0xCA, 0xFE, 0xBA, 0xBF,
        0x00, 0x00, 0x00, 0x02,
    ];

    let header = read_fat_header(&data).unwrap();

    assert_eq!(header.kind, FatKind::Fat64BE);
    assert_eq!(header.nfat_arch, 2);
}

#[test]
fn read_fat_header_rejects_invalid_magic() {
    let data = [
        0xDE, 0xAD, 0xBE, 0xEF,
        0x00, 0x00, 0x00, 0x01,
    ];

    assert!(read_fat_header(&data).is_err());
}

#[test]
fn read_single_fat_arch_32_be() {
    let mut data = Vec::new();

    data.extend_from_slice(&FAT_MAGIC);
    data.extend_from_slice(&1u32.to_be_bytes());

    data.extend_from_slice(&CPU_TYPE_X86.to_be_bytes());
    data.extend_from_slice(&0u32.to_be_bytes());
    data.extend_from_slice(&0x1000u32.to_be_bytes());
    data.extend_from_slice(&0x2000u32.to_be_bytes());
    data.extend_from_slice(&0x4u32.to_be_bytes());

    let header = read_fat_header(&data).unwrap();
    let archs = read_fat_archs(&data, &header).unwrap();

    assert_eq!(archs.len(), 1);

    match &archs[0] {
        FatArch::Arch32(arch) => {
            assert_eq!(arch.cputype, CPU_TYPE_X86);
            assert_eq!(arch.offset, 0x1000);
            assert_eq!(arch.size, 0x2000);
            assert_eq!(arch.align, 4);
        }

        _ => panic!("Expected Arch32"),
    }
}

#[test]
fn read_fat_arch_truncated_fails() {
    let mut data = Vec::new();

    data.extend_from_slice(&FAT_MAGIC);
    data.extend_from_slice(&1u32.to_be_bytes());

    data.extend_from_slice(&[0x00; 8]);

    let header = read_fat_header(&data).unwrap();
    let archs = read_fat_archs(&data, &header);

    assert!(archs.is_err());
}

fn fat64_le_with_two_archs() -> Vec<u8> {
    let mut data = Vec::new();
    data.extend_from_slice(&[0xBF, 0xBA, 0xFE, 0xCA]);
    data.extend_from_slice(&2u32.to_le_bytes());
    data.extend_from_slice(&CPU_TYPE_ARM64.to_le_bytes());
    data.extend_from_slice(&(-0x7FFF_FFFEi32).to_le_bytes());
    data.extend_from_slice(&0x1_0000_4000u64.to_le_bytes());
    data.extend_from_slice(&0x8000u64.to_le_bytes());
    data.extend_from_slice(&14u32.to_le_bytes());
    data.extend_from_slice(&7u32.to_le_bytes());
    data.extend_from_slice(&0x0100_0007i32.to_le_bytes());
    data.extend_from_slice(&3i32.to_le_bytes());
    data.extend_from_slice(&0xC000u64.to_le_bytes());
    data.extend_from_slice(&0x4000u64.to_le_bytes());
    data.extend_from_slice(&12u32.to_le_bytes());
    data.extend_from_slice(&0u32.to_le_bytes());
    data
}

#[test]
fn read_fat_header_too_short_is_truncated() {
    let e = read_fat_header(&[0xCA, 0xFE, 0xBA, 0xBE, 0, 0, 0]).unwrap_err();
    assert_eq!(e.kind, ErrorKind::TruncatedRecord);
    assert_eq!(e.stage, Stage::FatHeader);
    assert!(read_fat_header(&[]).is_err());
}

#[test]
fn read_fat_header_bad_magic_error_kind() {
    let e = read_fat_header(&[0xFE, 0xED, 0xFA, 0xCF, 0, 0, 0, 0]).unwrap_err();
    assert_eq!(e.kind, ErrorKind::NotRecognizedContainer);
}

#[test]
fn read_fat_header_little_endian_count() {
    let mut data = Vec::new();
    data.extend_from_slice(&FAT_CIGAM);
    data.extend_from_slice(&[3, 0, 0, 0]);
    let header = read_fat_header(&data).unwrap();
    assert_eq!(header.kind, FatKind::Fat32LE);
    assert_eq!(header.nfat_arch, 3);
    assert!(!header.kind.is_be());
    assert!(!header.kind.is_64());
}

#[test]
fn fat_kind_width_and_order() {
    assert!(FatKind::Fat64BE.is_64() && FatKind::Fat64LE.is_64());
    assert!(!FatKind::Fat32BE.is_64() && !FatKind::Fat32LE.is_64());
    assert!(FatKind::Fat32BE.is_be() && FatKind::Fat64BE.is_be());
    assert!(!FatKind::Fat32LE.is_be() && !FatKind::Fat64LE.is_be());
}

#[test]
fn read_fat_archs_64_le_fields() {
    let data = fat64_le_with_two_archs();
    let header = read_fat_header(&data).unwrap();
    assert_eq!(header.kind, FatKind::Fat64LE);
    let archs = read_fat_archs(&data, &header).unwrap();
    assert_eq!(archs.len() as u32, header.nfat_arch);
    match archs[0] {
        FatArch::Arch64(a) => {
            assert_eq!(a.cputype, CPU_TYPE_ARM64);
            assert_eq!(a.cpusubtype, -0x7FFF_FFFE);
            assert_eq!(a.offset, 0x1_0000_4000);
            assert_eq!(a.size, 0x8000);
            assert_eq!(a.align, 14);
            assert_eq!(a.reserved, 7);
        }
        _ => panic!("Expected Arch64"),
    }
    match archs[1] {
        FatArch::Arch64(a) => {
            assert_eq!(a.cputype, 0x0100_0007);
            assert_eq!(a.cpusubtype, 3);
            assert_eq!(a.offset, 0xC000);
            assert_eq!(a.size, 0x4000);
            assert_eq!(a.align, 12);
        }
        _ => panic!("Expected Arch64"),
    }
}

#[test]
fn read_fat_archs_every_truncation_is_an_error() {
    let data = fat64_le_with_two_archs();
    let header = read_fat_header(&data).unwrap();
    for cut in 8..data.len() {
        let e = read_fat_archs(&data[..cut], &header).unwrap_err();
        assert_eq!(e.kind, ErrorKind::TruncatedRecord);
        assert_eq!(e.stage, Stage::FatArch);
        let index = if cut < 40 { 0 } else { 1 };
        assert_eq!(e.index, index);
        assert_eq!(e.offset, 8 + 32 * index);
    }
    assert!(read_fat_archs(&data, &header).is_ok());
}

#[test]
fn read_fat_archs_empty_table() {
    let header = FatHeader { kind: FatKind::Fat32BE, nfat_arch: 0 };
    assert!(read_fat_archs(&[], &header).unwrap().is_empty());
}

#[test]
fn read_fat_archs_count_matches_header_and_slices_stay_in_file() {
    let mut data = Vec::new();
    data.extend_from_slice(&FAT_MAGIC);
    data.extend_from_slice(&2u32.to_be_bytes());
    for (offset, size) in [(0x40u32, 0x20u32), (0x60, 0x10)] {
        data.extend_from_slice(&CPU_TYPE_X86.to_be_bytes());
        data.extend_from_slice(&3u32.to_be_bytes());
        data.extend_from_slice(&offset.to_be_bytes());
        data.extend_from_slice(&size.to_be_bytes());
        data.extend_from_slice(&4u32.to_be_bytes());
    }
    data.resize(0x70, 0);
    let header = read_fat_header(&data).unwrap();
    let archs = read_fat_archs(&data, &header).unwrap();
    assert_eq!(archs.len() as u32, header.nfat_arch);
    for arch in &archs {
        let slice = arch.slice();
        assert!(slice.offset + slice.size.unwrap() <= data.len() as u64);
    }
    assert_eq!(archs[1].slice().offset, 0x60);
    assert_eq!(archs[1].slice().size, Some(0x10));
}

#[test]
fn read_fat_header_64_magic_constant() {
    let mut data = Vec::new();
    data.extend_from_slice(&FAT_MAGIC_64);
    data.extend_from_slice(&1u32.to_be_bytes());
    assert_eq!(read_fat_header(&data).unwrap().kind, FatKind::Fat64BE);
}
