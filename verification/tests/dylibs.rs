use moscope::macho::dylibs::{dylib_kind, parse_dylib, DylibKind};
use moscope::macho::error::{ErrorKind, Stage};
use moscope::macho::load_commands::LoadCommand;
use moscope::macho::rpaths::parse_rpath;

fn dylib_command(cmd: u32, name_offset: u32, path: &[u8], cmdsize: u32) -> Vec<u8> {
    let mut b = Vec::new();
    b.extend_from_slice(&cmd.to_le_bytes());
    b.extend_from_slice(&cmdsize.to_le_bytes());
    b.extend_from_slice(&name_offset.to_le_bytes());
    b.extend_from_slice(&2u32.to_le_bytes());
    b.extend_from_slice(&0x0005_0301u32.to_le_bytes());
    b.extend_from_slice(&0x0001_0000u32.to_le_bytes());
    b.extend_from_slice(path);
    b.resize(cmdsize as usize, 0);
    b
}

fn rpath_command(path_offset: u32, path: &[u8], cmdsize: u32) -> Vec<u8> {
    let mut b = Vec::new();
    b.extend_from_slice(&0x8000_001Cu32.to_be_bytes());
    b.extend_from_slice(&cmdsize.to_be_bytes());
    b.extend_from_slice(&path_offset.to_be_bytes());
    b.extend_from_slice(path);
    b.resize(cmdsize as usize, 0);
    b
}

#[test]
fn parse_dylib_fields() {
    let mut data = vec![0xFFu8; 40];
    data.extend_from_slice(&dylib_command(0xC, 24, b"/usr/lib/libSystem.B.dylib", 56));
    let lc = LoadCommand { cmd: 0xC, cmdsize: 56, offset: 40 };
    let dylib = parse_dylib(&data, &lc, false).unwrap();
    assert_eq!(dylib.path, "/usr/lib/libSystem.B.dylib");
    assert_eq!(dylib.timestamp, 2);
    assert_eq!(dylib.current_version, 0x0005_0301);
    assert_eq!(dylib.compatibility_version, 0x0001_0000);
    assert_eq!(dylib.kind, DylibKind::Load);
    assert_eq!(dylib.source_lc, lc);
}

#[test]
fn dylib_kind_by_opcode() {
    assert_eq!(dylib_kind(0xD), DylibKind::Id);
    assert_eq!(dylib_kind(0xC), DylibKind::Load);
    assert_eq!(dylib_kind(0x8000_0018), DylibKind::Weak);
    assert_eq!(dylib_kind(0x18), DylibKind::Weak);
    assert_eq!(dylib_kind(0x8000_001F), DylibKind::Reexport);
    assert_eq!(dylib_kind(0x20), DylibKind::Lazy);
    assert_eq!(dylib_kind(0x8000_0023), DylibKind::Upward);
    assert_eq!(dylib_kind(0x19), DylibKind::Unknown);
    assert_eq!(dylib_kind(0x8000_001C), DylibKind::Unknown);
}

#[test]
fn dylib_kind_labels() {
    assert_eq!(DylibKind::Id.label(), "ID");
    assert_eq!(DylibKind::Load.label(), "LOAD");
    assert_eq!(DylibKind::Weak.label(), "WEAK");
    assert_eq!(DylibKind::Reexport.label(), "REEXPORT");
    assert_eq!(DylibKind::Lazy.label(), "LAZY");
    assert_eq!(DylibKind::Upward.label(), "UPWARD");
    assert_eq!(DylibKind::Unknown.label(), "UNKNOWN");
}

#[test]
fn parse_dylib_path_stops_at_first_nul() {
    let data = dylib_command(0xD, 24, b"a.dylib\0junk\0", 48);
    let lc = LoadCommand { cmd: 0xD, cmdsize: 48, offset: 0 };
    let dylib = parse_dylib(&data, &lc, false).unwrap();
    assert_eq!(dylib.path, "a.dylib");
    assert_eq!(dylib.kind, DylibKind::Id);
}

#[test]
fn parse_dylib_lossy_path() {
    let data = dylib_command(0xC, 24, b"lib\xFF\xFE.dylib", 40);
    let lc = LoadCommand { cmd: 0xC, cmdsize: 40, offset: 0 };
    assert_eq!(parse_dylib(&data, &lc, false).unwrap().path, "lib\u{FFFD}\u{FFFD}.dylib");
}

#[test]
fn parse_dylib_command_past_the_end() {
    let data = dylib_command(0xC, 24, b"x.dylib", 32);
    let e = parse_dylib(&data, &LoadCommand { cmd: 0xC, cmdsize: 33, offset: 0 }, false).unwrap_err();
    assert_eq!(e.kind, ErrorKind::OutOfBoundsReference);
    assert_eq!(e.stage, Stage::Dylib);
    let e = parse_dylib(&data, &LoadCommand { cmd: 0xC, cmdsize: 32, offset: 1 }, false).unwrap_err();
    assert_eq!(e.kind, ErrorKind::OutOfBoundsReference);
    assert_eq!(e.offset, 1);
    assert!(parse_dylib(&data, &LoadCommand { cmd: 0xC, cmdsize: 32, offset: u64::MAX }, false).is_err());
}

#[test]
fn parse_dylib_fixed_part_cut_short() {
    let data = dylib_command(0xC, 24, b"", 24);
    let e = parse_dylib(&data[..20], &LoadCommand { cmd: 0xC, cmdsize: 16, offset: 0 }, false).unwrap_err();
    assert_eq!(e.kind, ErrorKind::TruncatedRecord);
    assert_eq!(e.stage, Stage::Dylib);
}

#[test]
fn parse_dylib_name_offset_outside_the_command() {
    for name_offset in [32u32, 33, 4096, u32::MAX] {
        let data = dylib_command(0xC, name_offset, b"x.dylib", 32);
        let e = parse_dylib(&data, &LoadCommand { cmd: 0xC, cmdsize: 32, offset: 0 }, false).unwrap_err();
        assert_eq!(e.kind, ErrorKind::OutOfBoundsReference);
    }
    let data = dylib_command(0xC, 31, b"x.dylib", 32);
    assert_eq!(parse_dylib(&data, &LoadCommand { cmd: 0xC, cmdsize: 32, offset: 0 }, false).unwrap().path, "");
}

#[test]
fn parse_dylib_unterminated_name() {
    let data = dylib_command(0xC, 24, b"abcdefgh", 32);
    let e = parse_dylib(&data, &LoadCommand { cmd: 0xC, cmdsize: 32, offset: 0 }, false).unwrap_err();
    assert_eq!(e.kind, ErrorKind::UnterminatedString);
    assert_eq!(e.stage, Stage::Dylib);
    let mut longer = data.clone();
    longer.extend_from_slice(&[0u8; 8]);
    let e = parse_dylib(&longer, &LoadCommand { cmd: 0xC, cmdsize: 32, offset: 0 }, false).unwrap_err();
    assert_eq!(e.kind, ErrorKind::UnterminatedString);
}

#[test]
fn parse_rpath_fields() {
    let mut data = vec![0u8; 16];
    data.extend_from_slice(&rpath_command(12, b"@executable_path/../Frameworks", 48));
    let lc = LoadCommand { cmd: 0x8000_001C, cmdsize: 48, offset: 16 };
    let rpath = parse_rpath(&data, &lc, true).unwrap();
    assert_eq!(rpath.path, "@executable_path/../Frameworks");
    assert_eq!(rpath.source_lc, lc);
}

#[test]
fn parse_rpath_errors() {
    let data = rpath_command(12, b"@loader_path", 24);
    let e = parse_rpath(&data, &LoadCommand { cmd: 0x1C, cmdsize: 25, offset: 0 }, true).unwrap_err();
    assert_eq!(e.kind, ErrorKind::OutOfBoundsReference);
    assert_eq!(e.stage, Stage::RPath);
    let e = parse_rpath(&data[..10], &LoadCommand { cmd: 0x1C, cmdsize: 10, offset: 0 }, true).unwrap_err();
    assert_eq!(e.kind, ErrorKind::TruncatedRecord);
    let e = parse_rpath(&data, &LoadCommand { cmd: 0x1C, cmdsize: 24, offset: 0 }, true).unwrap_err();
    assert_eq!(e.kind, ErrorKind::UnterminatedString);
    let bad = rpath_command(24, b"@loader_path", 24);
    let e = parse_rpath(&bad, &LoadCommand { cmd: 0x1C, cmdsize: 24, offset: 0 }, true).unwrap_err();
    assert_eq!(e.kind, ErrorKind::OutOfBoundsReference);
}

#[test]
fn dylib_and_rpath_reports() {
    let data = dylib_command(0x8000_0018, 24, b"/opt/lib/weak.dylib", 48);
    let lc = LoadCommand { cmd: 0x8000_0018, cmdsize: 48, offset: 0 };
    let report = parse_dylib(&data, &lc, false).unwrap().build_report(true);
    assert_eq!(report.path, "/opt/lib/weak.dylib");
    assert_eq!(report.timestamp, 2);
    assert_eq!(report.current_version, 0x0005_0301);
    assert_eq!(report.compatibility_version, 0x0001_0000);
    assert_eq!(report.kind, "WEAK");
    assert_eq!(report.load_command.command, "LC_LOAD_WEAK_DYLIB");
    assert_eq!(report.load_command.cmd, 0x8000_0018);
    assert_eq!(report.load_command.size, 48);
    let data = rpath_command(12, b"/usr/local/lib", 32);
    let lc = LoadCommand { cmd: 0x8000_001C, cmdsize: 32, offset: 0 };
    let report = parse_rpath(&data, &lc, true).unwrap().build_report(false);
    assert_eq!(report.source_lc, "LC_RPATH");
    assert_eq!(report.path, "/usr/local/lib");
}
