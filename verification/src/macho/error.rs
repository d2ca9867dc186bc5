//! The error every decoder returns.

use vstd::prelude::*;
use vstd::string::StringExecFns;
use crate::macho::utils::{push_numeral, spec_numeral};

verus! {

/// What went wrong.
#[derive(Debug, Clone, Copy, PartialEq, Eq, Structural)]
pub enum ErrorKind {
    /// The magic number is none of the known ones.
    NotRecognizedContainer,
    /// Too few bytes are left for a fixed-size structure, or a record is
    /// declared smaller than its own fixed part.
    TruncatedRecord,
    /// A declared offset, size or index points outside the file or outside
    /// the record that encloses it, or a declared total is not what its parts
    /// add up to.
    OutOfBoundsReference,
    /// A load command's size is not a multiple of the image's word size.
    MisalignedRecord,
    /// No NUL byte ends a string inside its declared bound.
    UnterminatedString,
    /// The word size is neither 32 nor 64.
    UnsupportedWordSize,
}

/// The decoding stage that failed.
#[derive(Debug, Clone, Copy, PartialEq, Eq, Structural)]
pub enum Stage {
    Scalar,
    FatHeader,
    FatArch,
    MachHeader,
    LoadCommand,
    Segment,
    Section,
    Dylib,
    RPath,
    Symtab,
    Dysymtab,
    Symbol,
    IndirectSymbol,
}

/// A decoding failure: its kind, the stage that met it, the index of the
/// record inside its table (0 where the stage reads a single record) and the
/// byte offset at which the record was expected.
#[derive(Debug, Clone, Copy, PartialEq, Eq, Structural)]
pub struct DecodeError {
    pub kind: ErrorKind,
    pub stage: Stage,
    pub index: u64,
    pub offset: u64,
}

impl DecodeError {
    /// The error with the given parts.
    pub open spec fn at(kind: ErrorKind, stage: Stage, index: int, offset: int) -> DecodeError {
        DecodeError { kind, stage, index: index as u64, offset: offset as u64 }
    }

    /// Makes an error of its parts.
    pub fn new(kind: ErrorKind, stage: Stage, index: u64, offset: u64) -> (e: DecodeError)
        ensures
            e == DecodeError::at(kind, stage, index as int, offset as int),
    {
        DecodeError { kind, stage, index, offset }
    }
}

/// A decoder met its description: the same error, or a value with the view
/// that was described.
pub open spec fn result_is<T: View>(
    r: Result<T, DecodeError>,
    expected: Result<T::V, DecodeError>,
) -> bool {
    match expected {
        Ok(v) => r is Ok && r->Ok_0@ == v,
        Err(e) => r == Err::<T, DecodeError>(e),
    }
}

/// The views of the items of a list, in order.
pub open spec fn views<T: View>(items: Seq<T>) -> Seq<T::V> {
    Seq::new(items.len(), |i: int| items[i]@)
}

/// A decoder that returns a list met its description: the same error, or a
/// list whose items have the views that were described, in the same order.
pub open spec fn views_result_is<T: View>(
    r: Result<Vec<T>, DecodeError>,
    expected: Result<Seq<T::V>, DecodeError>,
) -> bool {
    match expected {
        Ok(items) => r is Ok && views(r->Ok_0@) == items,
        Err(e) => r == Err::<Vec<T>, DecodeError>(e),
    }
}

/// A decoder that returns a list met its description: the same error, or a
/// list with the same items in the same order.
pub open spec fn vec_result_is<T>(
    r: Result<Vec<T>, DecodeError>,
    expected: Result<Seq<T>, DecodeError>,
) -> bool {
    match expected {
        Ok(items) => r is Ok && r->Ok_0@ == items,
        Err(e) => r == Err::<Vec<T>, DecodeError>(e),
    }
}

impl ErrorKind {
    /// What went wrong, in words.
    pub open spec fn spec_text(self) -> Seq<char> {
        match self {
            ErrorKind::NotRecognizedContainer => "not a Mach-O or fat magic number"@,
            ErrorKind::TruncatedRecord => "the record runs past the end of the file"@,
            ErrorKind::OutOfBoundsReference => "an offset or size points out of bounds"@,
            ErrorKind::MisalignedRecord => "the size is not a multiple of the word size"@,
            ErrorKind::UnterminatedString => "the string has no NUL byte at its end"@,
            ErrorKind::UnsupportedWordSize => "the word size is neither 32 nor 64"@,
        }
    }

    /// What went wrong, in words.
    pub fn text(&self) -> (text: &'static str)
        ensures
            text@ == self.spec_text(),
    {
        match self {
            ErrorKind::NotRecognizedContainer => "not a Mach-O or fat magic number",
            ErrorKind::TruncatedRecord => "the record runs past the end of the file",
            ErrorKind::OutOfBoundsReference => "an offset or size points out of bounds",
            ErrorKind::MisalignedRecord => "the size is not a multiple of the word size",
            ErrorKind::UnterminatedString => "the string has no NUL byte at its end",
            ErrorKind::UnsupportedWordSize => "the word size is neither 32 nor 64",
        }
    }
}

impl Stage {
    /// The name of the record that the stage reads.
    pub open spec fn spec_name(self) -> Seq<char> {
        match self {
            Stage::Scalar => "scalar"@,
            Stage::FatHeader => "fat header"@,
            Stage::FatArch => "fat arch"@,
            Stage::MachHeader => "Mach-O header"@,
            Stage::LoadCommand => "load command"@,
            Stage::Segment => "segment"@,
            Stage::Section => "section"@,
            Stage::Dylib => "dylib"@,
            Stage::RPath => "rpath"@,
            Stage::Symtab => "symtab"@,
            Stage::Dysymtab => "dysymtab"@,
            Stage::Symbol => "symbol"@,
            Stage::IndirectSymbol => "indirect symbol"@,
        }
    }

    /// The name of the record that the stage reads.
    pub fn name(&self) -> (text: &'static str)
        ensures
            text@ == self.spec_name(),
    {
        match self {
            Stage::Scalar => "scalar",
            Stage::FatHeader => "fat header",
            Stage::FatArch => "fat arch",
            Stage::MachHeader => "Mach-O header",
            Stage::LoadCommand => "load command",
            Stage::Segment => "segment",
            Stage::Section => "section",
            Stage::Dylib => "dylib",
            Stage::RPath => "rpath",
            Stage::Symtab => "symtab",
            Stage::Dysymtab => "dysymtab",
            Stage::Symbol => "symbol",
            Stage::IndirectSymbol => "indirect symbol",
        }
    }
}

impl DecodeError {
    /// The error in one line: the record and its index, the offset in
    /// hexadecimal, and what went wrong.
    pub open spec fn spec_describe(self) -> Seq<char> {
        self.stage.spec_name() + "["@ + spec_numeral(self.index, 10) + "] at offset 0x"@
            + spec_numeral(self.offset, 16) + ": "@ + self.kind.spec_text()
    }

    /// Describes the error in one line.
    pub fn describe(&self) -> (text: String)
        ensures
            text@ == self.spec_describe(),
    {
        let mut text = self.stage.name().to_owned();
        text.append("[");
        push_numeral(&mut text, self.index, 10);
        text.append("] at offset 0x");
        push_numeral(&mut text, self.offset, 16);
        text.append(": ");
        text.append(self.kind.text());
        text
    }
}

} // verus!
