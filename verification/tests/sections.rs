use moscope::macho::constants::{
    SECT_AUTH_GOT, SECT_AUTH_PTR, SECT_BSS, SECT_CFSTRING, SECT_COMMON, SECT_CONST, SECT_CSTRING,
    SECT_DATA, SECT_EH_FRAME, SECT_GCC_EXCEPT_TAB, SECT_GOT, SECT_INIT_OFFSETS,
    SECT_OBJC_CLASSLIST, SECT_OBJC_CLASSREFS, SECT_OBJC_DATA, SECT_OBJC_IMAGEINFO,
    SECT_OBJC_METHNAME, SECT_OBJC_PROTLIST, SECT_OBJC_SELREFS, SECT_OBJC_STUBS, SECT_STUBS,
    SECT_TEXT, SECT_UNWIND_INFO, SEG_AUTH, SEG_AUTH_CONST, SEG_DATA, SEG_DATA_CONST, SEG_LINKEDIT,
    SEG_PAGEZERO, SEG_TEXT, S_4BYTE_LITERALS, S_ATTR_PURE_INSTRUCTIONS, S_ATTR_SOME_INSTRUCTIONS,
    S_CSTRING_LITERALS, S_GB_ZEROFILL, S_LAZY_DYLUB_SYMBOL_POINTERS, S_LAZY_SYMBOL_POINTERS,
    S_MOD_INIT_FUNC_POINTERS, S_MOD_TERM_FUNC_POINTERS, S_NON_LAZY_SYMBOL_POINTERS, S_REGULAR,
    S_SYMBOL_STUBS, S_ZEROFILL,
};
use moscope::macho::error::{ErrorKind, Stage};
use moscope::macho::sections::{
    classify_section, name_eq, read_section32_from_bytes, read_section64_from_bytes, SectionKind,
};

fn name(text: &str) -> [u8; 16] {
    let mut bytes = [0u8; 16];
    bytes[..text.len()].copy_from_slice(text.as_bytes());
    bytes
}

#[test]
fn name_constants_spell_their_names() {
    assert_eq!(SEG_TEXT, name("__TEXT"));
    assert_eq!(SEG_PAGEZERO, name("__PAGEZERO"));
    assert_eq!(SEG_DATA_CONST, name("__DATA_CONST"));
    assert_eq!(SEG_LINKEDIT, name("__LINKEDIT"));
    assert_eq!(SEG_AUTH, name("__AUTH"));
    assert_eq!(SEG_AUTH_CONST, name("__AUTH_CONST"));
    assert_eq!(SECT_TEXT, name("__text"));
    assert_eq!(SECT_STUBS, name("__stubs"));
    assert_eq!(SECT_CSTRING, name("__cstring"));
    assert_eq!(SECT_GCC_EXCEPT_TAB, name("__gcc_except_tab"));
    assert_eq!(SECT_OBJC_IMAGEINFO, name("__objc_imageinfo"));
    assert_eq!(SECT_OBJC_CLASSREFS, name("__objc_classrefs"));
    assert_eq!(SECT_OBJC_CLASSLIST, name("__objc_classlist"));
    assert_eq!(SECT_OBJC_PROTLIST, name("__objc_protolist"));
    assert_eq!(SECT_AUTH_GOT, name("__auth_got"));
    assert_eq!(SECT_GOT, name("__got"));
}

#[test]
fn name_eq_compares_all_sixteen_bytes() {
    assert!(name_eq(&name("__text"), &SECT_TEXT));
    assert!(!name_eq(&name("__tex"), &SECT_TEXT));
    let mut padded = name("__text");
    padded[15] = 1;
    assert!(!name_eq(&padded, &SECT_TEXT));
    padded = name("__text");
    padded[7] = b'x';
    assert!(!name_eq(&padded, &SECT_TEXT));
}

#[test]
fn classify_text_text_regular_is_code() {
    assert_eq!(classify_section(SECT_TEXT, S_REGULAR, SEG_TEXT), SectionKind::Code);
    assert_eq!(
        classify_section(SECT_TEXT, S_REGULAR | S_ATTR_PURE_INSTRUCTIONS | S_ATTR_SOME_INSTRUCTIONS, SEG_TEXT),
        SectionKind::Code
    );
}

#[test]
fn classify_cstring_type_wins_over_any_name() {
    for seg in [SEG_TEXT, SEG_DATA, SEG_LINKEDIT, name("__WHATEVER"), [0u8; 16], [0xFF; 16]] {
        for sect in [SECT_TEXT, SECT_CSTRING, SECT_GOT, name("anything"), [0u8; 16]] {
            assert_eq!(classify_section(sect, S_CSTRING_LITERALS, seg), SectionKind::CString);
            assert_eq!(classify_section(sect, S_CSTRING_LITERALS | 0x8000_0400, seg), SectionKind::CString);
        }
    }
}

#[test]
fn classify_by_type_code() {
    let seg = name("__ODD");
    let sect = name("__odd");
    assert_eq!(classify_section(sect, S_ZEROFILL, seg), SectionKind::Bss);
    assert_eq!(classify_section(sect, S_GB_ZEROFILL, seg), SectionKind::Bss);
    assert_eq!(classify_section(sect, S_SYMBOL_STUBS, seg), SectionKind::SymbolStubs);
    assert_eq!(classify_section(sect, S_LAZY_SYMBOL_POINTERS, seg), SectionKind::LazySymbolPointers);
    assert_eq!(classify_section(sect, S_LAZY_DYLUB_SYMBOL_POINTERS, seg), SectionKind::LazySymbolPointers);
    assert_eq!(classify_section(sect, S_NON_LAZY_SYMBOL_POINTERS, seg), SectionKind::NonLazySymbolPointers);
    assert_eq!(classify_section(sect, S_MOD_INIT_FUNC_POINTERS, seg), SectionKind::Init);
    assert_eq!(classify_section(sect, S_MOD_TERM_FUNC_POINTERS, seg), SectionKind::Init);
    assert_eq!(classify_section(SECT_TEXT, S_SYMBOL_STUBS, SEG_TEXT), SectionKind::SymbolStubs);
}

#[test]
fn classify_regular_sections_by_name() {
    let table = [
        (SEG_TEXT, SECT_TEXT, SectionKind::Code),
        (SEG_TEXT, SECT_CONST, SectionKind::ConstData),
        (SEG_TEXT, SECT_CSTRING, SectionKind::CString),
        (SEG_TEXT, SECT_GCC_EXCEPT_TAB, SectionKind::Exception),
        (SEG_TEXT, SECT_EH_FRAME, SectionKind::Exception),
        (SEG_TEXT, SECT_UNWIND_INFO, SectionKind::Unwind),
        (SEG_TEXT, SECT_INIT_OFFSETS, SectionKind::Init),
        (SEG_TEXT, SECT_OBJC_METHNAME, SectionKind::ObjCMethodNames),
        (SEG_TEXT, SECT_OBJC_STUBS, SectionKind::SymbolStubs),
        (SEG_DATA, SECT_DATA, SectionKind::Data),
        (SEG_DATA, SECT_BSS, SectionKind::Bss),
        (SEG_DATA, SECT_COMMON, SectionKind::Bss),
        (SEG_DATA, SECT_OBJC_SELREFS, SectionKind::ObjCSelectorRefs),
        (SEG_DATA, SECT_OBJC_CLASSREFS, SectionKind::ObjCClass),
        (SEG_DATA_CONST, SECT_CONST, SectionKind::ConstData),
        (SEG_DATA_CONST, SECT_GOT, SectionKind::GlobalOffsetTable),
        (SEG_DATA_CONST, SECT_CFSTRING, SectionKind::ObjCMetadata),
        (SEG_DATA_CONST, SECT_OBJC_IMAGEINFO, SectionKind::ObjCMetadata),
        (SEG_DATA_CONST, SECT_OBJC_CLASSLIST, SectionKind::ObjCClass),
        (SEG_DATA_CONST, SECT_OBJC_PROTLIST, SectionKind::ObjCMetadata),
        (SEG_DATA_CONST, SECT_OBJC_SELREFS, SectionKind::ObjCSelectorRefs),
        (SEG_AUTH_CONST, SECT_AUTH_GOT, SectionKind::GlobalOffsetTable),
        (SEG_AUTH_CONST, SECT_AUTH_PTR, SectionKind::NonLazySymbolPointers),
        (SEG_AUTH_CONST, SECT_CONST, SectionKind::ConstData),
        (SEG_AUTH, SECT_DATA, SectionKind::Data),
        (SEG_AUTH, SECT_OBJC_DATA, SectionKind::ObjCClass),
        (SEG_LINKEDIT, SECT_TEXT, SectionKind::LinkEdit),
        (SEG_LINKEDIT, [0u8; 16], SectionKind::LinkEdit),
        (SEG_TEXT, SECT_STUBS, SectionKind::Unknown),
        (SEG_DATA, SECT_TEXT, SectionKind::Unknown),
        (SEG_DATA, SECT_GOT, SectionKind::Unknown),
        (SEG_AUTH, SECT_AUTH_GOT, SectionKind::Unknown),
        (name("__NOPE"), SECT_TEXT, SectionKind::Unknown),
    ];
    for (seg, sect, kind) in table {
        assert_eq!(classify_section(sect, S_REGULAR, seg), kind);
        assert_eq!(classify_section(sect, S_REGULAR | 0x0000_0300, seg), kind);
    }
}

#[test]
fn classify_unmatched_regular_sections() {
    assert_eq!(classify_section(name("__foo"), S_REGULAR, SEG_TEXT), SectionKind::Unknown);
    assert_eq!(classify_section(name("__foo"), S_REGULAR, SEG_LINKEDIT), SectionKind::LinkEdit);
    assert_eq!(classify_section(name("__foo"), S_REGULAR, name("__FOO")), SectionKind::Unknown);
    assert_eq!(classify_section([0u8; 16], S_REGULAR, [0u8; 16]), SectionKind::Unknown);
    assert_eq!(classify_section(name("__foo"), S_REGULAR | 0x8000_0000, SEG_DATA_CONST), SectionKind::Unknown);
}

#[test]
fn classify_names_are_not_trimmed() {
    let mut almost = SEG_TEXT;
    almost[15] = b'!';
    assert_eq!(classify_section(SECT_TEXT, S_REGULAR, almost), SectionKind::Unknown);
    assert_eq!(classify_section(name("__tex"), S_REGULAR, SEG_TEXT), SectionKind::Unknown);
}

#[test]
fn classify_other_type_codes() {
    assert_eq!(classify_section(SECT_TEXT, S_4BYTE_LITERALS, SEG_TEXT), SectionKind::Unknown);
    assert_eq!(classify_section(SECT_TEXT, 0x11, SEG_DATA), SectionKind::Unknown);
    assert_eq!(classify_section(SECT_TEXT, 0xFF, SEG_LINKEDIT), SectionKind::LinkEdit);
    assert_eq!(classify_section(SECT_TEXT, S_4BYTE_LITERALS, SEG_LINKEDIT), SectionKind::LinkEdit);
}

#[test]
fn uses_indirect_symbols_kinds() {
    let yes = [
        SectionKind::SymbolStubs,
        SectionKind::LazySymbolPointers,
        SectionKind::NonLazySymbolPointers,
        SectionKind::GlobalOffsetTable,
    ];
    let no = [
        SectionKind::Code,
        SectionKind::CString,
        SectionKind::ConstData,
        SectionKind::Data,
        SectionKind::Bss,
        SectionKind::ObjCClass,
        SectionKind::ObjCMetaClass,
        SectionKind::ObjCSelectorRefs,
        SectionKind::ObjCMethodNames,
        SectionKind::ObjCMetadata,
        SectionKind::Exception,
        SectionKind::Unwind,
        SectionKind::Init,
        SectionKind::Debug,
        SectionKind::LinkEdit,
        SectionKind::Other,
        SectionKind::Unknown,
    ];
    for kind in yes {
        assert!(kind.uses_indirect_symbols());
    }
    for kind in no {
        assert!(!kind.uses_indirect_symbols());
    }
}

fn section64(sect: &str, seg: &str, addr: u64, size: u64, offset: u32, flags: u32, r1: u32, r2: u32, r3: u32) -> Vec<u8> {
    let mut b = Vec::new();
    b.extend_from_slice(&name(sect));
    b.extend_from_slice(&name(seg));
    b.extend_from_slice(&addr.to_le_bytes());
    b.extend_from_slice(&size.to_le_bytes());
    b.extend_from_slice(&offset.to_le_bytes());
    b.extend_from_slice(&0x11u32.to_le_bytes());
    b.extend_from_slice(&0x22u32.to_le_bytes());
    b.extend_from_slice(&0x33u32.to_le_bytes());
    b.extend_from_slice(&flags.to_le_bytes());
    b.extend_from_slice(&r1.to_le_bytes());
    b.extend_from_slice(&r2.to_le_bytes());
    b.extend_from_slice(&r3.to_le_bytes());
    b
}

fn section32_be(sect: &str, seg: &str, addr: u32, size: u32, offset: u32, flags: u32, r1: u32, r2: u32) -> Vec<u8> {
    let mut b = Vec::new();
    b.extend_from_slice(&name(sect));
    b.extend_from_slice(&name(seg));
    b.extend_from_slice(&addr.to_be_bytes());
    b.extend_from_slice(&size.to_be_bytes());
    b.extend_from_slice(&offset.to_be_bytes());
    b.extend_from_slice(&0x11u32.to_be_bytes());
    b.extend_from_slice(&0x22u32.to_be_bytes());
    b.extend_from_slice(&0x33u32.to_be_bytes());
    b.extend_from_slice(&flags.to_be_bytes());
    b.extend_from_slice(&r1.to_be_bytes());
    b.extend_from_slice(&r2.to_be_bytes());
    b
}

#[test]
fn read_section64_fields() {
    let mut data = vec![0xEEu8; 10];
    data.extend_from_slice(&section64("__stubs", "__TEXT", 0x1_0000_3F00, 0x60, 0x3F00, 0x8000_0408, 5, 12, 9));
    assert_eq!(data.len(), 90);
    let s = read_section64_from_bytes(&data, false, 10).unwrap();
    assert_eq!(s.sectname, name("__stubs"));
    assert_eq!(s.segname, name("__TEXT"));
    assert_eq!(s.addr, 0x1_0000_3F00);
    assert_eq!(s.size, 0x60);
    assert_eq!(s.offset, 0x3F00);
    assert_eq!(s.flags, 0x8000_0408);
    assert_eq!(s.kind, SectionKind::SymbolStubs);
    assert_eq!(s.reserved1, 5);
    assert_eq!(s.reserved2, 12);
    assert_eq!(s.reserved3, Some(9));
}

#[test]
fn read_section32_fields() {
    let data = section32_be("__cstring", "__TEXT", 0x2000, 0x40, 0x1000, S_CSTRING_LITERALS, 7, 8);
    assert_eq!(data.len(), 68);
    let s = read_section32_from_bytes(&data, true, 0).unwrap();
    assert_eq!(s.sectname, name("__cstring"));
    assert_eq!(s.segname, name("__TEXT"));
    assert_eq!(s.addr, 0x2000);
    assert_eq!(s.size, 0x40);
    assert_eq!(s.offset, 0x1000);
    assert_eq!(s.flags, S_CSTRING_LITERALS);
    assert_eq!(s.kind, SectionKind::CString);
    assert_eq!(s.reserved1, 7);
    assert_eq!(s.reserved2, 8);
    assert_eq!(s.reserved3, None);
}

#[test]
fn read_section_out_of_bounds() {
    let data = section64("__text", "__TEXT", 0, 0, 0, 0, 0, 0, 0);
    let e = read_section64_from_bytes(&data[..79], false, 0).unwrap_err();
    assert_eq!(e.kind, ErrorKind::TruncatedRecord);
    assert_eq!(e.stage, Stage::Section);
    assert_eq!(e.offset, 0);
    assert!(read_section64_from_bytes(&data, false, 1).is_err());
    assert!(read_section64_from_bytes(&data, false, usize::MAX).is_err());
    assert!(read_section32_from_bytes(&data[..67], false, 0).is_err());
    assert!(read_section32_from_bytes(&data, false, 12).is_ok());
    assert!(read_section32_from_bytes(&data, false, 13).is_err());
}

#[test]
fn section_report_and_kind_names() {
    let data = section64("__text", "__TEXT", 0x1000, 0x20, 0x400, 0x8000_0400, 0, 0, 0);
    let s = read_section64_from_bytes(&data, false, 0).unwrap();
    let report = s.build_report();
    assert_eq!(report.name, "__text");
    assert_eq!(report.segment, "__TEXT");
    assert_eq!(report.kind, "Code");
    assert_eq!(report.addr, 0x1000);
    assert_eq!(report.size, 0x20);
    for kind in [
        SectionKind::Code,
        SectionKind::SymbolStubs,
        SectionKind::LazySymbolPointers,
        SectionKind::NonLazySymbolPointers,
        SectionKind::GlobalOffsetTable,
        SectionKind::CString,
        SectionKind::ConstData,
        SectionKind::Data,
        SectionKind::Bss,
        SectionKind::ObjCClass,
        SectionKind::ObjCMetaClass,
        SectionKind::ObjCSelectorRefs,
        SectionKind::ObjCMethodNames,
        SectionKind::ObjCMetadata,
        SectionKind::Exception,
        SectionKind::Unwind,
        SectionKind::Init,
        SectionKind::Debug,
        SectionKind::LinkEdit,
        SectionKind::Other,
        SectionKind::Unknown,
    ] {
        assert_eq!(kind.name(), format!("{:?}", kind));
    }
}
