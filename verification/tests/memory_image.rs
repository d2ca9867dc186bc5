use moscope::macho::memory_image::MachOMemoryImage;
use moscope::macho::sections::{ParsedSection, SectionKind};
use moscope::macho::segments::ParsedSegment;

fn name(text: &str) -> [u8; 16] {
    let mut bytes = [0u8; 16];
    bytes[..text.len()].copy_from_slice(text.as_bytes());
    bytes
}

fn segment(vmaddr: u64, vmsize: u64, fileoff: u64, filesize: u64) -> ParsedSegment {
    ParsedSegment {
        segname: name("__SEG"),
        vmaddr,
        vmsize,
        fileoff,
        filesize,
        maxprot: 7,
        initprot: 7,
        flags: 0,
        sections: Vec::new(),
    }
}

fn section(addr: u64, size: u64) -> ParsedSection {
    ParsedSection {
        sectname: name("__sect"),
        segname: name("__SEG"),
        offset: 0,
        addr,
        size,
        flags: 0,
        kind: SectionKind::CString,
        reserved1: 0,
        reserved2: 0,
        reserved3: None,
    }
}

fn file() -> Vec<u8> {
    (0..=255u8).collect()
}

#[test]
fn image_reads_sections_by_address() {
    let segments = [segment(0x1000, 0x20, 0x10, 0x20), segment(0x1040, 0x10, 0x80, 0x10)];
    let data = file();
    let image = MachOMemoryImage::new(&segments, &data, 0);
    assert_eq!(image.read_section(&section(0x1000, 0x20)).unwrap(), &data[0x10..0x30]);
    assert_eq!(image.read_section(&section(0x1004, 4)).unwrap(), &[0x14, 0x15, 0x16, 0x17]);
    assert_eq!(image.read_section(&section(0x1040, 0x10)).unwrap(), &data[0x80..0x90]);
    assert_eq!(image.read_section(&section(0x1020, 0x20)).unwrap(), &[0u8; 0x20]);
    assert_eq!(image.read_section(&section(0x1000, 0x50)).unwrap().len(), 0x50);
}

#[test]
fn image_ignores_file_offsets_of_sections() {
    let segments = [segment(0x4000, 8, 0x20, 8)];
    let data = file();
    let image = MachOMemoryImage::new(&segments, &data, 0);
    let mut s = section(0x4002, 3);
    s.offset = 0xFFFF_FFFF;
    assert_eq!(image.read_section(&s).unwrap(), &[0x22, 0x23, 0x24]);
}

#[test]
fn image_applies_the_slice_offset() {
    let segments = [segment(0x2000, 4, 8, 4)];
    let data = file();
    let image = MachOMemoryImage::new(&segments, &data, 0x40);
    assert_eq!(image.read_section(&section(0x2000, 4)).unwrap(), &[0x48, 0x49, 0x4A, 0x4B]);
}

#[test]
fn read_section_outside_the_image_is_none() {
    let segments = [segment(0x1000, 0x20, 0, 0x20)];
    let data = file();
    let image = MachOMemoryImage::new(&segments, &data, 0);
    assert!(image.read_section(&section(0x1020, 1)).is_none());
    assert!(image.read_section(&section(0x2000, 8)).is_none());
    assert!(image.read_section(&section(u64::MAX, 1)).is_none());
    assert!(image.read_section(&section(0x1010, 0x11)).is_none());
    assert!(image.read_section(&section(0x1000, u64::MAX)).is_none());
    assert!(image.read_section(&section(0x1000, 0x21)).is_none());
    assert!(image.read_section(&section(0x101F, 1)).is_some());
}

#[test]
fn read_section_of_size_zero_is_none() {
    let segments = [segment(0x1000, 0x20, 0, 0x20)];
    let data = file();
    let image = MachOMemoryImage::new(&segments, &data, 0);
    assert!(image.read_section(&section(0x1000, 0)).is_none());
}

#[test]
fn read_section_below_the_base_reads_from_the_base() {
    let segments = [segment(0x1000, 0x20, 0x30, 0x20)];
    let data = file();
    let image = MachOMemoryImage::new(&segments, &data, 0);
    assert_eq!(image.read_section(&section(0x10, 2)).unwrap(), &[0x30, 0x31]);
    assert!(image.read_section(&section(0x10, 0x21)).is_none());
}

#[test]
fn image_without_segments_is_empty() {
    let data = file();
    let image = MachOMemoryImage::new(&[], &data, 0);
    assert!(image.read_section(&section(0, 1)).is_none());
    assert!(image.read_section(&section(u64::MAX, 1)).is_none());
    let image = MachOMemoryImage::new(&[segment(0x1000, 0, 0, 0x10)], &data, 0);
    assert!(image.read_section(&section(0x1000, 1)).is_none());
}

#[test]
fn image_skips_segments_whose_file_range_is_out_of_bounds() {
    let segments = [segment(0x1000, 0x10, 0xF8, 0x10), segment(0x1010, 0x10, 0x20, 0x10)];
    let data = file();
    let image = MachOMemoryImage::new(&segments, &data, 0);
    assert_eq!(image.read_section(&section(0x1000, 0x10)).unwrap(), &[0u8; 0x10]);
    assert_eq!(image.read_section(&section(0x1010, 0x10)).unwrap(), &data[0x20..0x30]);
    let image = MachOMemoryImage::new(&[segment(0x1000, 0x10, u64::MAX, 0x10)], &data, 5);
    assert_eq!(image.read_section(&section(0x1000, 0x10)).unwrap(), &[0u8; 0x10]);
    let image = MachOMemoryImage::new(&[segment(0x1000, 0x10, 0, 0x10)], &data, u64::MAX);
    assert_eq!(image.read_section(&section(0x1000, 0x10)).unwrap(), &[0u8; 0x10]);
}

#[test]
fn image_skips_segments_that_do_not_fit_their_place() {
    let data = file();
    let image = MachOMemoryImage::new(&[segment(0x1000, 0x8, 0, 0x10)], &data, 0);
    assert_eq!(image.read_section(&section(0x1000, 8)).unwrap(), &[0u8; 8]);
    let segments = [segment(0x1000, 0x10, 0x40, 0x10), segment(0x800, 0, 0, 0x10)];
    let image = MachOMemoryImage::new(&segments, &data, 0);
    assert_eq!(image.read_section(&section(0x1000, 0x10)).unwrap(), &data[0x40..0x50]);
}

#[test]
fn later_segments_overwrite_earlier_ones() {
    let segments = [segment(0x1000, 0x10, 0x00, 0x10), segment(0x1008, 0x8, 0x80, 0x4)];
    let data = file();
    let image = MachOMemoryImage::new(&segments, &data, 0);
    let bytes = image.read_section(&section(0x1000, 0x10)).unwrap();
    assert_eq!(&bytes[..8], &data[..8]);
    assert_eq!(&bytes[8..12], &data[0x80..0x84]);
    assert_eq!(&bytes[12..], &data[12..16]);
}

#[test]
fn zero_fill_segments_stay_zero() {
    let segments = [segment(0x1000, 0x10, 0x10, 0), segment(0x1010, 0x10, 0x10, 0x10)];
    let data = file();
    let image = MachOMemoryImage::new(&segments, &data, 0);
    assert_eq!(image.read_section(&section(0x1000, 0x10)).unwrap(), &[0u8; 0x10]);
    assert_eq!(image.read_section(&section(0x1010, 0x10)).unwrap(), &data[0x10..0x20]);
}

#[test]
fn a_span_larger_than_any_buffer_gives_an_empty_image() {
    let data = file();
    for segments in [
        vec![segment(0, u64::MAX, 0, 0x10)],
        vec![segment(0x1000, 0x10, 0, 0x10), segment(u64::MAX - 1, 1, 0, 0)],
        vec![segment(1, 1 << 63, 0, 0x10)],
        vec![segment(u64::MAX, u64::MAX, 0, 1)],
    ] {
        let image = MachOMemoryImage::new(&segments, &data, 0);
        assert!(image.read_section(&section(0x1000, 1)).is_none());
        assert!(image.read_section(&section(0, 1)).is_none());
    }
}
