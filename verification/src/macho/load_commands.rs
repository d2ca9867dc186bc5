//! The load-command walker: the records that follow a Mach-O header, each
//! one checked before the cursor moves past it.

use vstd::prelude::*;
use crate::macho::constants;
use crate::macho::error::{vec_result_is, DecodeError, ErrorKind, Stage};
use crate::macho::utils::{read_u32, u32_at};
use crate::reporting::load_commands::{LoadCommandReport, LoadCommandReportModel};

verus! {

/// One load command: its opcode, its size in bytes, and where it starts in
/// the file.
#[derive(Debug, Clone, Copy, PartialEq, Eq, Structural)]
pub struct LoadCommand {
    pub cmd: u32,
    pub cmdsize: u32,
    pub offset: u64,
}

impl LoadCommand {
    /// The command fits its own header, is aligned for the word size, and
    /// lies inside a file of `file_len` bytes.
    pub open spec fn wf(self, file_len: int, word_size: u32) -> bool {
        &&& self.cmdsize >= 8
        &&& self.cmdsize as int % alignment_of(word_size) == 0
        &&& self.offset + self.cmdsize <= file_len
    }
}

/// The name of a load command. The flag `LC_REQ_DYLD` is no part of the
/// opcode and is masked off first.
pub open spec fn spec_load_command_name(cmd: u32) -> Seq<char> {
    match cmd & !constants::LC_REQ_DYLD {
        constants::LC_SEGMENT => "LC_SEGMENT"@,
        constants::LC_SYMTAB => "LC_SYMTAB"@,
        constants::LC_SYMSEG => "LC_SYMSEG"@,
        constants::LC_THREAD => "LC_THREAD"@,
        constants::LC_UNIXTHREAD => "LC_UNIXTHREAD"@,
        constants::LC_LOADFVMLIB => "LC_LOADFVMLIB"@,
        constants::LC_IDFVMLIB => "LC_IDFVMLIB"@,
        constants::LC_IDENT => "LC_IDENT"@,
        constants::LC_FVMFILE => "LC_FVMFILE"@,
        constants::LC_PREPAGE => "LC_PREPAGE"@,
        constants::LC_DSYMTAB => "LC_DSYMTAB"@,
        constants::LC_LOAD_DYLIB => "LC_LOAD_DYLIB"@,
        constants::LC_ID_DYLIB => "LC_ID_DYLIB"@,
        constants::LC_LOAD_DYLINKER => "LC_LOAD_DYLINKER"@,
        constants::LC_ID_DYLINKER => "LC_ID_DYLINKER"@,
        constants::LC_PREBOUND_DYLIB => "LC_PREBOUND_DYLIB"@,
        constants::LC_ROUTINES => "LC_ROUTINES"@,
        constants::LC_SUB_FRAMEWORK => "LC_SUB_FRAMEWORK"@,
        constants::LC_SUB_UMBRELLA => "LC_SUB_UMBRELLA"@,
        constants::LC_SUB_CLIENT => "LC_SUB_CLIENT"@,
        constants::LC_SUB_LIBRARY => "LC_SUB_LIBRARY"@,
        constants::LC_TWOLEVEL_HINTS => "LC_TWOLEVEL_HINTS"@,
        constants::LC_PREBIND_CKSUM => "LC_PREBIND_CKSUM"@,
        constants::LC_LOAD_WEAK_DYLIB => "LC_LOAD_WEAK_DYLIB"@,
        constants::LC_SEGMENT_64 => "LC_SEGMENT_64"@,
        constants::LC_ROUTINES_64 => "LC_ROUTINES_64"@,
        constants::LC_UUID => "LC_UUID"@,
        constants::LC_RPATH => "LC_RPATH"@,
        constants::LC_CODE_SIGNATURE => "LC_CODE_SIGNATURE"@,
        constants::LC_SEGMENT_SPLIT_INFO => "LC_SEGMENT_SPLIT_INFO"@,
        constants::LC_REEXPORT_DYLIB => "LC_REEXPORT_DYLIB"@,
        constants::LC_LAZY_LOAD_DYLIB => "LC_LAZY_LOAD_DYLIB"@,
        constants::LC_ENCRYPTION_INFO => "LC_ENCRYPTION_INFO"@,
        constants::LC_DYLD_INFO => "LC_DYLD_INFO"@,
        constants::LC_LOAD_UPWARD_DYLIB => "LC_LOAD_UPWARD_DYLIB"@,
        constants::LC_VERSION_MIN_MACOSX => "LC_VERSION_MIN_MACOSX"@,
        constants::LC_VERSION_MIN_IPHONEOS => "LC_VERSION_MIN_IPHONEOS"@,
        constants::LC_FUNCTION_STARTS => "LC_FUNCTION_STARTS"@,
        constants::LC_DYLD_ENVIRONMENT => "LC_DYLD_ENVIRONMENT"@,
        constants::LC_MAIN => "LC_MAIN"@,
        constants::LC_DATA_IN_CODE => "LC_DATA_IN_CODE"@,
        constants::LC_SOURCE_VERSION => "LC_SOURCE_VERSION"@,
        constants::LC_DYLIB_CODE_SIGN_DRS => "LC_DYLIB_CODE_SIGN_DRS"@,
        constants::LC_ENCRYPTION_INFO_64 => "LC_ENCRYPTION_INFO_64"@,
        constants::LC_LINKER_OPTION => "LC_LINKER_OPTION"@,
        constants::LC_LINKER_OPTIMIZATION_HINT => "LC_LINKER_OPTIMIZATION_HINT"@,
        constants::LC_VERSION_MIN_TVOS => "LC_VERSION_MIN_TVOS"@,
        constants::LC_VERSION_MIN_WATCHOS => "LC_VERSION_MIN_WATCHOS"@,
        constants::LC_NOTE => "LC_NOTE"@,
        constants::LC_BUILD_VERSION => "LC_BUILD_VERSION"@,
        constants::LC_DYLD_EXPORTS_TRIE => "LC_DYLD_EXPORTS_TRIE"@,
        constants::LC_DYLD_CHAINED_FIXUPS => "LC_DYLD_CHAINED_FIXUPS"@,
        constants::LC_FILESET_ENTRY => "LC_FILESET_ENTRY"@,
        constants::LC_ATOM_INFO => "LC_ATOM_INFO"@,
        constants::LC_FUNCTION_VARIANTS => "LC_FUNCTION_VARIANTS"@,
        constants::LC_FUNCTION_VARIANT_FIXED => "LC_FUNCTION_VARIANT_FIXED"@,
        constants::LC_TARGET_TRIPLE => "LC_TARGET_TRIPLE"@,
        _ => "UNKNOWN_LOAD_COMMAND"@,
    }
}

/// Names a load command, with or without `LC_REQ_DYLD` in its opcode.
pub fn load_comand_name(cmd: u32) -> (name: &'static str)
    ensures
        name@ == spec_load_command_name(cmd),
{
    match cmd & !constants::LC_REQ_DYLD {
        constants::LC_SEGMENT => "LC_SEGMENT",
        constants::LC_SYMTAB => "LC_SYMTAB",
        constants::LC_SYMSEG => "LC_SYMSEG",
        constants::LC_THREAD => "LC_THREAD",
        constants::LC_UNIXTHREAD => "LC_UNIXTHREAD",
        constants::LC_LOADFVMLIB => "LC_LOADFVMLIB",
        constants::LC_IDFVMLIB => "LC_IDFVMLIB",
        constants::LC_IDENT => "LC_IDENT",
        constants::LC_FVMFILE => "LC_FVMFILE",
        constants::LC_PREPAGE => "LC_PREPAGE",
        constants::LC_DSYMTAB => "LC_DSYMTAB",
        constants::LC_LOAD_DYLIB => "LC_LOAD_DYLIB",
        constants::LC_ID_DYLIB => "LC_ID_DYLIB",
        constants::LC_LOAD_DYLINKER => "LC_LOAD_DYLINKER",
        constants::LC_ID_DYLINKER => "LC_ID_DYLINKER",
        constants::LC_PREBOUND_DYLIB => "LC_PREBOUND_DYLIB",
        constants::LC_ROUTINES => "LC_ROUTINES",
        constants::LC_SUB_FRAMEWORK => "LC_SUB_FRAMEWORK",
        constants::LC_SUB_UMBRELLA => "LC_SUB_UMBRELLA",
        constants::LC_SUB_CLIENT => "LC_SUB_CLIENT",
        constants::LC_SUB_LIBRARY => "LC_SUB_LIBRARY",
        constants::LC_TWOLEVEL_HINTS => "LC_TWOLEVEL_HINTS",
        constants::LC_PREBIND_CKSUM => "LC_PREBIND_CKSUM",
        constants::LC_LOAD_WEAK_DYLIB => "LC_LOAD_WEAK_DYLIB",
        constants::LC_SEGMENT_64 => "LC_SEGMENT_64",
        constants::LC_ROUTINES_64 => "LC_ROUTINES_64",
        constants::LC_UUID => "LC_UUID",
        constants::LC_RPATH => "LC_RPATH",
        constants::LC_CODE_SIGNATURE => "LC_CODE_SIGNATURE",
        constants::LC_SEGMENT_SPLIT_INFO => "LC_SEGMENT_SPLIT_INFO",
        constants::LC_REEXPORT_DYLIB => "LC_REEXPORT_DYLIB",
        constants::LC_LAZY_LOAD_DYLIB => "LC_LAZY_LOAD_DYLIB",
        constants::LC_ENCRYPTION_INFO => "LC_ENCRYPTION_INFO",
        constants::LC_DYLD_INFO => "LC_DYLD_INFO",
        constants::LC_LOAD_UPWARD_DYLIB => "LC_LOAD_UPWARD_DYLIB",
        constants::LC_VERSION_MIN_MACOSX => "LC_VERSION_MIN_MACOSX",
        constants::LC_VERSION_MIN_IPHONEOS => "LC_VERSION_MIN_IPHONEOS",
        constants::LC_FUNCTION_STARTS => "LC_FUNCTION_STARTS",
        constants::LC_DYLD_ENVIRONMENT => "LC_DYLD_ENVIRONMENT",
        constants::LC_MAIN => "LC_MAIN",
        constants::LC_DATA_IN_CODE => "LC_DATA_IN_CODE",
        constants::LC_SOURCE_VERSION => "LC_SOURCE_VERSION",
        constants::LC_DYLIB_CODE_SIGN_DRS => "LC_DYLIB_CODE_SIGN_DRS",
        constants::LC_ENCRYPTION_INFO_64 => "LC_ENCRYPTION_INFO_64",
        constants::LC_LINKER_OPTION => "LC_LINKER_OPTION",
        constants::LC_LINKER_OPTIMIZATION_HINT => "LC_LINKER_OPTIMIZATION_HINT",
        constants::LC_VERSION_MIN_TVOS => "LC_VERSION_MIN_TVOS",
        constants::LC_VERSION_MIN_WATCHOS => "LC_VERSION_MIN_WATCHOS",
        constants::LC_NOTE => "LC_NOTE",
        constants::LC_BUILD_VERSION => "LC_BUILD_VERSION",
        constants::LC_DYLD_EXPORTS_TRIE => "LC_DYLD_EXPORTS_TRIE",
        constants::LC_DYLD_CHAINED_FIXUPS => "LC_DYLD_CHAINED_FIXUPS",
        constants::LC_FILESET_ENTRY => "LC_FILESET_ENTRY",
        constants::LC_ATOM_INFO => "LC_ATOM_INFO",
        constants::LC_FUNCTION_VARIANTS => "LC_FUNCTION_VARIANTS",
        constants::LC_FUNCTION_VARIANT_FIXED => "LC_FUNCTION_VARIANT_FIXED",
        constants::LC_TARGET_TRIPLE => "LC_TARGET_TRIPLE",
        _ => "UNKNOWN_LOAD_COMMAND",
    }
}

/// The multiple that every `cmdsize` of an image must be.
pub open spec fn alignment_of(word_size: u32) -> int {
    if word_size == 64 {
        8
    } else {
        4
    }
}

pub open spec fn load_command_error(kind: ErrorKind, index: int, cursor: int) -> DecodeError {
    DecodeError::at(kind, Stage::LoadCommand, index, cursor)
}

/// The load command that stands at `cursor`, or the reason why the bytes
/// there are none: the eight bytes of its header do not fit the file, its
/// size is under eight, its size is misaligned, or it runs past the end of
/// the file, tried in that order.
pub open spec fn spec_load_command_at(
    data: Seq<u8>,
    cursor: int,
    index: int,
    word_size: u32,
    big_endian: bool,
) -> Result<LoadCommand, DecodeError> {
    if cursor + 8 > data.len() {
        Err(load_command_error(ErrorKind::TruncatedRecord, index, cursor))
    } else {
        let cmd = u32_at(data, cursor, big_endian);
        let cmdsize = u32_at(data, cursor + 4, big_endian);
        if cmdsize < 8 {
            Err(load_command_error(ErrorKind::TruncatedRecord, index, cursor))
        } else if cmdsize as int % alignment_of(word_size) != 0 {
            Err(load_command_error(ErrorKind::MisalignedRecord, index, cursor))
        } else if cursor + cmdsize > data.len() {
            Err(load_command_error(ErrorKind::OutOfBoundsReference, index, cursor))
        } else {
            Ok(LoadCommand { cmd, cmdsize, offset: cursor as u64 })
        }
    }
}

/// The commands numbered `index` to `count - 1`, the first of them at
/// `cursor` and each next one right behind the one before; or the error of
/// the first command that cannot be read.
pub open spec fn spec_walk(
    data: Seq<u8>,
    cursor: int,
    index: int,
    count: int,
    word_size: u32,
    big_endian: bool,
) -> Result<Seq<LoadCommand>, DecodeError>
    decreases count - index,
{
    if index >= count {
        Ok(Seq::empty())
    } else {
        match spec_load_command_at(data, cursor, index, word_size, big_endian) {
            Err(e) => Err(e),
            Ok(lc) => match spec_walk(
                data,
                cursor + lc.cmdsize,
                index + 1,
                count,
                word_size,
                big_endian,
            ) {
                Err(e) => Err(e),
                Ok(rest) => Ok(seq![lc] + rest),
            },
        }
    }
}

/// What `read_load_commands` returns.
pub open spec fn spec_read_load_commands(
    data: Seq<u8>,
    offset: u32,
    num_load_commands: u32,
    word_size: u32,
    big_endian: bool,
) -> Result<Seq<LoadCommand>, DecodeError> {
    if word_size != 32 && word_size != 64 {
        Err(load_command_error(ErrorKind::UnsupportedWordSize, 0, offset as int))
    } else {
        spec_walk(data, offset as int, 0, num_load_commands as int, word_size, big_endian)
    }
}

/// Walks `num_load_commands` load commands that start at `offset`. Every
/// command is validated before it is kept, and the first one that fails ends
/// the walk with its error.
pub fn read_load_commands(
    data: &[u8],
    offset: u32,
    num_load_commands: u32,
    word_size: u32,
    big_endian: bool,
) -> (r: Result<Vec<LoadCommand>, DecodeError>)
    ensures
        vec_result_is(
            r,
            spec_read_load_commands(data@, offset, num_load_commands, word_size, big_endian),
        ),
        r is Ok ==> r->Ok_0@.len() == num_load_commands,
        r is Ok ==> forall|i: int|
            0 <= i < r->Ok_0@.len() ==> (#[trigger] r->Ok_0@[i]).wf(data@.len() as int, word_size),
{
    if word_size != 32 && word_size != 64 {
        return Err(DecodeError::new(ErrorKind::UnsupportedWordSize, Stage::LoadCommand, 0, offset as u64));
    }
    let alignment: u32 = if word_size == 64 { 8 } else { 4 };
    let mut load_commands: Vec<LoadCommand> = Vec::new();
    let mut cursor: usize = offset as usize;
    let mut i: u32 = 0;
    while i < num_load_commands
        invariant
            i <= num_load_commands,
            word_size == 32 || word_size == 64,
            alignment == alignment_of(word_size),
            i > 0 ==> cursor <= data@.len(),
            load_commands@.len() == i,
            forall|k: int| 0 <= k < load_commands@.len() ==> (#[trigger] load_commands@[k]).wf(data@.len() as int, word_size),
            spec_walk(data@, offset as int, 0, num_load_commands as int, word_size, big_endian)
                == match spec_walk(data@, cursor as int, i as int, num_load_commands as int, word_size, big_endian) {
                Err(e) => Err::<Seq<LoadCommand>, DecodeError>(e),
                Ok(rest) => Ok(load_commands@ + rest),
            },
        decreases num_load_commands - i,
    {
        if cursor > data.len() || data.len() - cursor < 8 {
            return Err(DecodeError::new(ErrorKind::TruncatedRecord, Stage::LoadCommand, i as u64, cursor as u64));
        }
        let cmd: u32 = read_u32(data, cursor, big_endian);
        let cmd_size: u32 = read_u32(data, cursor + 4, big_endian);
        if cmd_size < 8 {
            return Err(DecodeError::new(ErrorKind::TruncatedRecord, Stage::LoadCommand, i as u64, cursor as u64));
        }
        if cmd_size % alignment != 0 {
            return Err(DecodeError::new(ErrorKind::MisalignedRecord, Stage::LoadCommand, i as u64, cursor as u64));
        }
        if cmd_size as usize > data.len() - cursor {
            return Err(DecodeError::new(ErrorKind::OutOfBoundsReference, Stage::LoadCommand, i as u64, cursor as u64));
        }
        let lc = LoadCommand { cmd, cmdsize: cmd_size, offset: cursor as u64 };
        proof {
            let rest = spec_walk(data@, cursor + cmd_size, i + 1, num_load_commands as int, word_size, big_endian);
            if rest is Ok {
                assert(load_commands@ + (seq![lc] + rest->Ok_0) =~= load_commands@.push(lc) + rest->Ok_0);
            }
        }
        load_commands.push(lc);
        cursor += cmd_size as usize;
        i += 1;
    }
    Ok(load_commands)
}

/// The sum of the sizes of the commands.
pub open spec fn total_cmdsize(cmds: Seq<LoadCommand>) -> int
    decreases cmds.len(),
{
    if cmds.len() == 0 {
        0
    } else {
        total_cmdsize(cmds.drop_last()) + cmds.last().cmdsize
    }
}

/// Where a walk that returned `cmds` from `offset` came to rest.
pub open spec fn walk_end(offset: int, cmds: Seq<LoadCommand>) -> int {
    offset + total_cmdsize(cmds)
}

proof fn lemma_total_cmdsize_cons(lc: LoadCommand, rest: Seq<LoadCommand>)
    ensures
        total_cmdsize(seq![lc] + rest) == lc.cmdsize + total_cmdsize(rest),
    decreases rest.len(),
{
    let all = seq![lc] + rest;
    if rest.len() == 0 {
        assert(total_cmdsize(all.drop_last()) == 0);
    } else {
        assert(all.drop_last() =~= seq![lc] + rest.drop_last());
        lemma_total_cmdsize_cons(lc, rest.drop_last());
    }
}

proof fn lemma_walk(
    data: Seq<u8>,
    cursor: int,
    index: int,
    count: int,
    word_size: u32,
    big_endian: bool,
)
    requires
        data.len() <= u64::MAX,
        0 <= cursor,
        0 <= index <= count,
        spec_walk(data, cursor, index, count, word_size, big_endian) is Ok,
    ensures
        ({
            let cmds = spec_walk(data, cursor, index, count, word_size, big_endian)->Ok_0;
            &&& cmds.len() == count - index
            &&& forall|i: int| 0 <= i < cmds.len() ==> (#[trigger] cmds[i]).wf(data.len() as int, word_size)
            &&& forall|i: int|
                0 <= i < cmds.len() ==> (#[trigger] cmds[i]).offset == cursor + total_cmdsize(cmds.take(i))
            &&& index < count ==> walk_end(cursor, cmds) <= data.len()
        }),
    decreases count - index,
{
    if index < count {
        let lc = spec_load_command_at(data, cursor, index, word_size, big_endian)->Ok_0;
        let next = cursor + lc.cmdsize;
        lemma_walk(data, next, index + 1, count, word_size, big_endian);
        let rest = spec_walk(data, next, index + 1, count, word_size, big_endian)->Ok_0;
        let cmds = seq![lc] + rest;
        lemma_total_cmdsize_cons(lc, rest);
        assert forall|i: int| 0 <= i < cmds.len() implies (#[trigger] cmds[i]).offset == cursor
            + total_cmdsize(cmds.take(i)) by {
            if i != 0 {
                assert(cmds.take(i) =~= seq![lc] + rest.take(i - 1));
                lemma_total_cmdsize_cons(lc, rest.take(i - 1));
            }
        }
    }
}

/// The commands of a successful walk are as many as were asked for, each is
/// well formed, and they lie back to back from `offset` on: a command starts
/// where the sizes of those before it add up to, and the last one ends
/// inside the file.
pub proof fn lemma_load_commands_contiguous(
    data: Seq<u8>,
    offset: u32,
    num_load_commands: u32,
    word_size: u32,
    big_endian: bool,
)
    requires
        data.len() <= u64::MAX,
        spec_read_load_commands(data, offset, num_load_commands, word_size, big_endian) is Ok,
    ensures
        ({
            let cmds = spec_read_load_commands(
                data,
                offset,
                num_load_commands,
                word_size,
                big_endian,
            )->Ok_0;
            &&& cmds.len() == num_load_commands
            &&& forall|i: int| 0 <= i < cmds.len() ==> (#[trigger] cmds[i]).wf(data.len() as int, word_size)
            &&& forall|i: int|
                0 <= i < cmds.len() ==> (#[trigger] cmds[i]).offset == offset + total_cmdsize(cmds.take(i))
            &&& num_load_commands > 0 ==> walk_end(offset as int, cmds) <= data.len()
        }),
{
    lemma_walk(data, offset as int, 0, num_load_commands as int, word_size, big_endian);
}

/// Each size of a decoded command is a multiple of four in a 32-bit image
/// and of eight in a 64-bit one.
pub proof fn lemma_cmdsizes_are_aligned(
    data: Seq<u8>,
    offset: u32,
    num_load_commands: u32,
    word_size: u32,
    big_endian: bool,
)
    requires
        data.len() <= u64::MAX,
        spec_read_load_commands(data, offset, num_load_commands, word_size, big_endian) is Ok,
    ensures
        ({
            let cmds = spec_read_load_commands(
                data,
                offset,
                num_load_commands,
                word_size,
                big_endian,
            )->Ok_0;
            &&& word_size == 32 || word_size == 64
            &&& word_size == 32 ==> forall|i: int| 0 <= i < cmds.len() ==> (#[trigger] cmds[i]).cmdsize % 4 == 0
            &&& word_size == 64 ==> forall|i: int| 0 <= i < cmds.len() ==> (#[trigger] cmds[i]).cmdsize % 8 == 0
        }),
{
    lemma_load_commands_contiguous(data, offset, num_load_commands, word_size, big_endian);
}

/// The sizes of the first commands of a list add up to no more than the
/// sizes of all of them.
proof fn lemma_total_cmdsize_grows(cmds: Seq<LoadCommand>, n: int)
    requires
        0 <= n <= cmds.len(),
    ensures
        0 <= total_cmdsize(cmds.take(n)) <= total_cmdsize(cmds),
    decreases cmds.len() - n,
{
    if n == cmds.len() {
        assert(cmds.take(n) =~= cmds);
        lemma_total_cmdsize_is_no_less_than_zero(cmds);
    } else {
        lemma_total_cmdsize_grows(cmds, n + 1);
        assert(cmds.take(n + 1).drop_last() =~= cmds.take(n));
        lemma_total_cmdsize_is_no_less_than_zero(cmds.take(n));
    }
}

proof fn lemma_total_cmdsize_is_no_less_than_zero(cmds: Seq<LoadCommand>)
    ensures
        0 <= total_cmdsize(cmds),
    decreases cmds.len(),
{
    if cmds.len() > 0 {
        lemma_total_cmdsize_is_no_less_than_zero(cmds.drop_last());
    }
}

/// Whether the sizes of the commands add up to `sizeofcmds`, the size that
/// a header announces for all of its commands together.
pub fn sizes_add_up_to(cmds: &[LoadCommand], sizeofcmds: u32) -> (they_do: bool)
    ensures
        they_do == (total_cmdsize(cmds@) == sizeofcmds),
{
    let mut sum: u64 = 0;
    let mut i: usize = 0;
    assert(cmds@.take(0) =~= Seq::<LoadCommand>::empty());
    while i < cmds.len()
        invariant
            i <= cmds@.len(),
            sum == total_cmdsize(cmds@.take(i as int)),
            sum <= u32::MAX,
        decreases cmds@.len() - i,
    {
        proof {
            assert(cmds@.take(i + 1).drop_last() =~= cmds@.take(i as int));
            lemma_total_cmdsize_grows(cmds@, i + 1);
        }
        sum = sum + cmds[i].cmdsize as u64;
        if sum > u32::MAX as u64 {
            return false;
        }
        i += 1;
    }
    assert(cmds@.take(cmds@.len() as int) =~= cmds@);
    sum == sizeofcmds as u64
}

impl LoadCommand {
    /// What the report of the command says.
    pub open spec fn spec_report(self) -> LoadCommandReportModel {
        LoadCommandReportModel {
            command: spec_load_command_name(self.cmd),
            cmd: self.cmd,
            size: self.cmdsize,
        }
    }

    /// Reports the command: its name, its opcode and its size.
    pub fn build_report(&self, _json: bool) -> (report: LoadCommandReport)
        ensures
            report@ == self.spec_report(),
    {
        LoadCommandReport {
            command: load_comand_name(self.cmd).to_owned(),
            cmd: self.cmd,
            size: self.cmdsize,
        }
    }
}

} // verus!
