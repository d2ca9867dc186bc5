use moscope::macho::error::{ErrorKind, Stage};
use moscope::macho::sections::SectionKind;
use moscope::macho::segments::{parse_segment_32, parse_segment_64, protection_text};

fn name(text: &str) -> [u8; 16] {
    let mut bytes = [0u8; 16];
    bytes[..text.len()].copy_from_slice(text.as_bytes());
    bytes
}

fn section64(sect: &str, seg: &str, addr: u64, size: u64, flags: u32) -> Vec<u8> {
    let mut b = Vec::new();
    b.extend_from_slice(&name(sect));
    b.extend_from_slice(&name(seg));
    b.extend_from_slice(&addr.to_le_bytes());
    b.extend_from_slice(&size.to_le_bytes());
    b.extend_from_slice(&[0u8; 16]);
    b.extend_from_slice(&flags.to_le_bytes());
    b.extend_from_slice(&[0u8; 12]);
    b
}

fn segment64(seg: &str, nsects: u32, sections: &[Vec<u8>]) -> Vec<u8> {
    let mut b = Vec::new();
    b.extend_from_slice(&0x19u32.to_le_bytes());
    b.extend_from_slice(&(72 + 80 * nsects).to_le_bytes());
    b.extend_from_slice(&name(seg));
    b.extend_from_slice(&0x1_0000_0000u64.to_le_bytes());
    b.extend_from_slice(&0x4000u64.to_le_bytes());
    b.extend_from_slice(&0x8000u64.to_le_bytes());
    b.extend_from_slice(&0x3000u64.to_le_bytes());
    b.extend_from_slice(&7i32.to_le_bytes());
    b.extend_from_slice(&5i32.to_le_bytes());
    b.extend_from_slice(&nsects.to_le_bytes());
    b.extend_from_slice(&0x10u32.to_le_bytes());
    for s in sections {
        b.extend_from_slice(s);
    }
    b
}

fn segment32_be(seg: &str, nsects: u32, sections: &[Vec<u8>]) -> Vec<u8> {
    let mut b = Vec::new();
    b.extend_from_slice(&0x1u32.to_be_bytes());
    b.extend_from_slice(&(56 + 68 * nsects).to_be_bytes());
    b.extend_from_slice(&name(seg));
    b.extend_from_slice(&0x1000u32.to_be_bytes());
    b.extend_from_slice(&0x2000u32.to_be_bytes());
    b.extend_from_slice(&0x300u32.to_be_bytes());
    b.extend_from_slice(&0x400u32.to_be_bytes());
    b.extend_from_slice(&(-1i32).to_be_bytes());
    b.extend_from_slice(&3i32.to_be_bytes());
    b.extend_from_slice(&nsects.to_be_bytes());
    b.extend_from_slice(&0x4u32.to_be_bytes());
    for s in sections {
        b.extend_from_slice(s);
    }
    b
}

fn section32_be(sect: &str, seg: &str, addr: u32, size: u32, flags: u32) -> Vec<u8> {
    let mut b = Vec::new();
    b.extend_from_slice(&name(sect));
    b.extend_from_slice(&name(seg));
    b.extend_from_slice(&addr.to_be_bytes());
    b.extend_from_slice(&size.to_be_bytes());
    b.extend_from_slice(&[0u8; 16]);
    b.extend_from_slice(&flags.to_be_bytes());
    b.extend_from_slice(&[0u8; 8]);
    b
}

#[test]
fn parse_segment_64_with_sections() {
    let sections = [
        section64("__text", "__TEXT", 0x1_0000_1000, 0x100, 0x8000_0400),
        section64("__cstring", "__TEXT", 0x1_0000_1100, 0x20, 2),
    ];
    let mut data = vec![0u8; 32];
    data.extend_from_slice(&segment64("__TEXT", 2, &sections));
    let seg = parse_segment_64(&data, 32, false).unwrap();
    assert_eq!(seg.segname, name("__TEXT"));
    assert_eq!(seg.vmaddr, 0x1_0000_0000);
    assert_eq!(seg.vmsize, 0x4000);
    assert_eq!(seg.fileoff, 0x8000);
    assert_eq!(seg.filesize, 0x3000);
    assert_eq!(seg.maxprot, 7);
    assert_eq!(seg.initprot, 5);
    assert_eq!(seg.flags, 0x10);
    assert_eq!(seg.sections.len(), 2);
    assert_eq!(seg.sections[0].sectname, name("__text"));
    assert_eq!(seg.sections[0].kind, SectionKind::Code);
    assert_eq!(seg.sections[0].addr, 0x1_0000_1000);
    assert_eq!(seg.sections[1].sectname, name("__cstring"));
    assert_eq!(seg.sections[1].kind, SectionKind::CString);
    assert_eq!(seg.sections[1].size, 0x20);
}

#[test]
fn parse_segment_32_widens_fields() {
    let sections = [section32_be("__data", "__DATA", 0x1800, 0x80, 0)];
    let data = segment32_be("__DATA", 1, &sections);
    let seg = parse_segment_32(&data, 0, true).unwrap();
    assert_eq!(seg.segname, name("__DATA"));
    assert_eq!(seg.vmaddr, 0x1000);
    assert_eq!(seg.vmsize, 0x2000);
    assert_eq!(seg.fileoff, 0x300);
    assert_eq!(seg.filesize, 0x400);
    assert_eq!(seg.maxprot, -1);
    assert_eq!(seg.initprot, 3);
    assert_eq!(seg.flags, 4);
    assert_eq!(seg.sections.len(), 1);
    assert_eq!(seg.sections[0].kind, SectionKind::Data);
    assert_eq!(seg.sections[0].addr, 0x1800);
    assert_eq!(seg.sections[0].reserved3, None);
}

#[test]
fn parse_segment_without_sections() {
    let data = segment64("__PAGEZERO", 0, &[]);
    let seg = parse_segment_64(&data, 0, false).unwrap();
    assert!(seg.sections.is_empty());
    assert_eq!(seg.segname, name("__PAGEZERO"));
}

#[test]
fn parse_segment_command_out_of_bounds() {
    let data = segment64("__TEXT", 0, &[]);
    let e = parse_segment_64(&data[..71], 0, false).unwrap_err();
    assert_eq!(e.kind, ErrorKind::TruncatedRecord);
    assert_eq!(e.stage, Stage::Segment);
    assert!(parse_segment_64(&data, 1, false).is_err());
    assert!(parse_segment_64(&data, usize::MAX, false).is_err());
    let data = segment32_be("__TEXT", 0, &[]);
    assert!(parse_segment_32(&data[..55], 0, true).is_err());
    assert!(parse_segment_32(&data, 0, true).is_ok());
}

#[test]
fn parse_segment_section_table_cut_short() {
    let sections = [
        section64("__text", "__TEXT", 0, 0, 0),
        section64("__const", "__TEXT", 0, 0, 0),
    ];
    let data = segment64("__TEXT", 2, &sections);
    for cut in 72..data.len() {
        let e = parse_segment_64(&data[..cut], 0, false).unwrap_err();
        assert_eq!(e.kind, ErrorKind::TruncatedRecord);
        assert_eq!(e.stage, Stage::Section);
        assert_eq!(e.offset, if cut < 152 { 72 } else { 152 });
    }
    assert_eq!(parse_segment_64(&data, 0, false).unwrap().sections.len(), 2);
}

#[test]
fn parse_segment_huge_section_count_is_an_error() {
    let mut data = segment64("__TEXT", 0, &[]);
    data[64..68].copy_from_slice(&u32::MAX.to_le_bytes());
    data.extend_from_slice(&[0u8; 200]);
    let e = parse_segment_64(&data, 0, false).unwrap_err();
    assert_eq!(e.stage, Stage::Section);
    assert_eq!(e.offset, 72 + 160);
}

#[test]
fn protection_text_values() {
    assert_eq!(protection_text(0), "---");
    assert_eq!(protection_text(1), "R--");
    assert_eq!(protection_text(2), "-W-");
    assert_eq!(protection_text(3), "RW-");
    assert_eq!(protection_text(4), "--X");
    assert_eq!(protection_text(5), "R-X");
    assert_eq!(protection_text(7), "RWX");
    assert_eq!(protection_text(-1), "RWX");
    assert_eq!(protection_text(8), "---");
}

#[test]
fn segment_report() {
    let sections = [section64("__text", "__TEXT", 0x1_0000_1000, 0x100, 0x8000_0400)];
    let data = segment64("__TEXT", 1, &sections);
    let report = parse_segment_64(&data, 0, false).unwrap().build_report(true);
    assert_eq!(report.name, "__TEXT");
    assert_eq!(report.vmaddr, 0x1_0000_0000);
    assert_eq!(report.vmsize, 0x4000);
    assert_eq!(report.fileoff, 0x8000);
    assert_eq!(report.filesize, 0x3000);
    assert_eq!(report.maxprot, "RWX");
    assert_eq!(report.initprot, "R-X");
    assert_eq!(report.sections.len(), 1);
    assert_eq!(report.sections[0].name, "__text");
    assert_eq!(report.sections[0].kind, "Code");
}
