use moscope::macho::constants::{CPU_TYPE_ARM64, CPU_TYPE_X86_64};
use moscope::macho::dylibs::{DylibKind, ParsedDylib};
use moscope::macho::header::{MachHeader64, MachOHeader};
use moscope::macho::load_commands::LoadCommand;
use moscope::macho::rpaths::ParsedRPath;
use moscope::macho::sections::{ParsedSection, SectionKind};
use moscope::macho::segments::ParsedSegment;
use moscope::macho::symtab::{NList64, ParsedString, ParsedSymbol};
use moscope::macho::utils::{hex_text, padded_name_text, trim_trailing_nuls};
use moscope::reporting::macho::{
    build_architecture_report, build_macho_report, report_sorted_symbols, ReportOptions,
};

fn name(text: &str) -> [u8; 16] {
    let mut bytes = [0u8; 16];
    bytes[..text.len()].copy_from_slice(text.as_bytes());
    bytes
}

fn symbol(label: &str, n_type: u8, n_sect: u8, value: u64) -> ParsedSymbol {
    let mut strings = vec![0u8];
    strings.extend_from_slice(label.as_bytes());
    strings.push(0);
    let nlist = NList64 { n_strx: 1, n_type, n_sect, n_desc: 0, n_value: value };
    ParsedSymbol::from_nlist64(nlist, &strings, 0, strings.len())
}

fn header() -> MachOHeader {
    MachOHeader::Header64(MachHeader64 {
        magic: 0xFEED_FACF,
        cputype: CPU_TYPE_X86_64,
        cpusubtype: 3,
        filetype: 6,
        ncmds: 2,
        sizeofcmds: 100,
        flags: 0x0010_0085,
        reserved: 0,
    })
}

fn everything() -> ReportOptions {
    ReportOptions {
        include_header: true,
        include_segments: true,
        include_dylibs: true,
        include_rpaths: true,
        include_loadcmds: true,
        include_symbols: true,
        include_strings: true,
    }
}

fn nothing() -> ReportOptions {
    ReportOptions {
        include_header: false,
        include_segments: false,
        include_dylibs: false,
        include_rpaths: false,
        include_loadcmds: false,
        include_symbols: false,
        include_strings: false,
    }
}

#[test]
fn hex_text_values() {
    assert_eq!(hex_text(0), "0x0");
    assert_eq!(hex_text(9), "0x9");
    assert_eq!(hex_text(10), "0xa");
    assert_eq!(hex_text(15), "0xf");
    assert_eq!(hex_text(16), "0x10");
    assert_eq!(hex_text(255), "0xff");
    assert_eq!(hex_text(0x1_0000_3F80), "0x100003f80");
    assert_eq!(hex_text(0xDEAD_BEEF_0123_4567), "0xdeadbeef01234567");
    assert_eq!(hex_text(u64::MAX), "0xffffffffffffffff");
    for value in [1u64, 7, 0x10, 0x123, 0xABCDEF, 1 << 40, (1 << 63) + 1] {
        assert_eq!(hex_text(value), format!("0x{:x}", value));
    }
}

#[test]
fn padded_name_text_cuts_the_padding() {
    assert_eq!(padded_name_text(&name("__TEXT")), "__TEXT");
    assert_eq!(padded_name_text(&name("")), "");
    assert_eq!(padded_name_text(b"__gcc_except_tab"), "__gcc_except_tab");
    assert_eq!(padded_name_text(b"ab\0cd\0\0\0\0\0\0\0\0\0\0\0"), "ab\0cd");
    assert_eq!(padded_name_text(b"\0\0a\0\0\0\0\0\0\0\0\0\0\0\0\0"), "\0\0a");
    assert_eq!(padded_name_text(b"a\xFFb\0\0\0\0\0\0\0\0\0\0\0\0\0"), "a\u{FFFD}b");
}

#[test]
fn trim_trailing_nuls_values() {
    assert_eq!(trim_trailing_nuls(""), "");
    assert_eq!(trim_trailing_nuls("\0"), "");
    assert_eq!(trim_trailing_nuls("\0\0\0"), "");
    assert_eq!(trim_trailing_nuls("abc"), "abc");
    assert_eq!(trim_trailing_nuls("abc\0\0"), "abc");
    assert_eq!(trim_trailing_nuls("a\0b\0"), "a\0b");
    assert_eq!(trim_trailing_nuls("\0a"), "\0a");
    assert_eq!(trim_trailing_nuls("\0\0a\0\0b\0\0\0"), "\0\0a\0\0b");
    assert_eq!(trim_trailing_nuls("\u{e9}\0"), "\u{e9}");
}

#[test]
fn string_report_trims_names() {
    let s = ParsedString { value: "hello".to_string(), segname: name("__TEXT"), sectname: name("__cstring") };
    let report = s.build_report(true);
    assert_eq!(report.value, "hello");
    assert_eq!(report.segname, "__TEXT");
    assert_eq!(report.sectname, "__cstring");
}

#[test]
fn symbol_report_fields() {
    let mut s = symbol("_main", 0x0F, 1, 0x1_0000_0F00);
    s.sectname = Some("__text".to_string());
    s.segname = Some("__TEXT".to_string());
    for json in [true, false] {
        let report = s.build_report(json);
        assert_eq!(report.name, "_main");
        assert_eq!(report.value, 0x1_0000_0F00);
        assert_eq!(report.addr, 0x1_0000_0F00);
        assert_eq!(report.addr_hex, "0x100000f00");
        assert_eq!(report.kind, "SECT");
        assert_eq!(report.section, Some(1));
        assert_eq!(report.sectname.as_deref(), Some("__text"));
        assert_eq!(report.segname.as_deref(), Some("__TEXT"));
        assert!(report.external);
        assert!(!report.debug);
    }
    let report = symbol("_u", 0x20, 0, 0).build_report(true);
    assert_eq!(report.addr_hex, "0x0");
    assert_eq!(report.kind, "UNDEF");
    assert_eq!(report.section, None);
    assert_eq!(report.sectname, None);
    assert!(report.debug);
}

#[test]
fn architecture_report_with_every_part() {
    let commands = [
        LoadCommand { cmd: 0x19, cmdsize: 72, offset: 32 },
        LoadCommand { cmd: 0x8000_0028, cmdsize: 24, offset: 104 },
    ];
    let segments = [ParsedSegment {
        segname: name("__TEXT"),
        vmaddr: 0x1000,
        vmsize: 0x2000,
        fileoff: 0,
        filesize: 0x2000,
        maxprot: 5,
        initprot: 1,
        flags: 0,
        sections: vec![ParsedSection {
            sectname: name("__cstring"),
            segname: name("__TEXT"),
            offset: 0x40,
            addr: 0x1040,
            size: 0x10,
            flags: 2,
            kind: SectionKind::CString,
            reserved1: 0,
            reserved2: 0,
            reserved3: Some(0),
        }],
    }];
    let dylibs = [ParsedDylib {
        path: "/usr/lib/libc++.1.dylib".to_string(),
        timestamp: 2,
        current_version: 3,
        compatibility_version: 4,
        kind: DylibKind::Reexport,
        source_lc: LoadCommand { cmd: 0x8000_001F, cmdsize: 48, offset: 200 },
    }];
    let rpaths = [ParsedRPath {
        source_lc: LoadCommand { cmd: 0x8000_001C, cmdsize: 32, offset: 300 },
        path: "@executable_path".to_string(),
    }];
    let mut symbols = vec![symbol("_undef", 0x01, 0, 0), symbol("_b", 0x0F, 1, 0x20), symbol("_a", 0x0F, 1, 0x10)];
    symbols[0].indirect_addr = Some(0x18);
    let strings = [ParsedString { value: "text".to_string(), segname: name("__TEXT"), sectname: name("__cstring") }];
    let report = build_architecture_report(
        CPU_TYPE_X86_64,
        3,
        &header(),
        &commands,
        &segments,
        &dylibs,
        &rpaths,
        &symbols,
        &strings,
        true,
        &everything(),
    );
    assert_eq!(report.cpu_type, "x86");
    assert_eq!(report.cpu_subtype, "x86_64");
    let h = report.header.unwrap();
    assert_eq!(h.file_type, "Dynamically Bound Shared Library [[MH_DYLIB]]");
    assert_eq!(h.flags, vec!["NOUNDEFS", "DYLDLINK", "TWOLEVEL", "NO_REEXPORTED_DYLIBS"]);
    let lcs = report.load_commands.unwrap();
    assert_eq!(lcs.len(), 2);
    assert_eq!(lcs[0].command, "LC_SEGMENT_64");
    assert_eq!(lcs[1].command, "LC_MAIN");
    assert_eq!(lcs[1].size, 24);
    let segs = report.segments.unwrap();
    assert_eq!(segs.len(), 1);
    assert_eq!(segs[0].name, "__TEXT");
    assert_eq!(segs[0].maxprot, "R-X");
    assert_eq!(segs[0].initprot, "R--");
    assert_eq!(segs[0].sections[0].name, "__cstring");
    assert_eq!(segs[0].sections[0].segment, "__TEXT");
    assert_eq!(segs[0].sections[0].kind, "CString");
    let libs = report.dylibs.unwrap();
    assert_eq!(libs[0].path, "/usr/lib/libc++.1.dylib");
    assert_eq!(libs[0].kind, "REEXPORT");
    assert_eq!(libs[0].load_command.command, "LC_REEXPORT_DYLIB");
    let paths = report.rpaths.unwrap();
    assert_eq!(paths[0].source_lc, "LC_RPATH");
    assert_eq!(paths[0].path, "@executable_path");
    let syms = report.symbols.unwrap();
    assert_eq!(syms.iter().map(|s| s.name.as_str()).collect::<Vec<_>>(), vec!["_a", "_undef", "_b"]);
    assert_eq!(syms[0].addr_hex, "0x10");
    let strs = report.strings.unwrap();
    assert_eq!(strs[0].value, "text");
    assert_eq!(strs[0].sectname, "__cstring");
    assert_eq!(symbols[0].name, "_undef");
}

#[test]
fn architecture_report_leaves_out_what_is_not_asked_for() {
    let report = build_architecture_report(CPU_TYPE_ARM64, 1, &header(), &[], &[], &[], &[], &[], &[], false, &nothing());
    assert_eq!(report.cpu_type, "ARM");
    assert_eq!(report.cpu_subtype, "arm64");
    assert!(report.header.is_none());
    assert!(report.load_commands.is_none());
    assert!(report.segments.is_none());
    assert!(report.dylibs.is_none());
    assert!(report.rpaths.is_none());
    assert!(report.symbols.is_none());
    assert!(report.strings.is_none());
    let mut only_symbols = nothing();
    only_symbols.include_symbols = true;
    let report =
        build_architecture_report(CPU_TYPE_ARM64, 1, &header(), &[], &[], &[], &[], &[], &[], false, &only_symbols);
    assert_eq!(report.symbols.unwrap().len(), 0);
    assert!(report.strings.is_none());
    assert!(report.header.is_none());
}

#[test]
fn sorted_symbol_reports_keep_equal_addresses_in_order() {
    let symbols = vec![
        symbol("_z", 0x01, 0, 0),
        symbol("_second", 0x0F, 1, 0x40),
        symbol("_first", 0x0F, 1, 0x40),
        symbol("_y", 0x01, 0, 0),
        symbol("_low", 0x0F, 1, 0x8),
    ];
    let reports = report_sorted_symbols(&symbols, true);
    assert_eq!(
        reports.iter().map(|r| r.name.as_str()).collect::<Vec<_>>(),
        vec!["_low", "_second", "_first", "_z", "_y"]
    );
}

#[test]
fn macho_report_holds_its_architectures() {
    let one = build_architecture_report(CPU_TYPE_ARM64, 0, &header(), &[], &[], &[], &[], &[], &[], true, &nothing());
    let two = build_architecture_report(CPU_TYPE_X86_64, 3, &header(), &[], &[], &[], &[], &[], &[], true, &nothing());
    let report = build_macho_report(true, vec![one, two]);
    assert!(report.is_fat);
    assert_eq!(report.architectures.len(), 2);
    assert_eq!(report.architectures[0].cpu_subtype, "arm64 (ARM64_ALL)");
    assert_eq!(report.architectures[1].cpu_subtype, "x86_64");
    assert!(!build_macho_report(false, Vec::new()).is_fat);
}
