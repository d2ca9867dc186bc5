//! Endian-aware decoding of the scalars that Mach-O records are made of.

use vstd::prelude::*;
use vstd::slice::slice_subrange;
use crate::macho::error::{DecodeError, ErrorKind, Stage};
use vstd::utf8::{
    decode_utf8, encode_utf8, encode_utf8_decode_utf8, encode_utf8_valid_utf8,
    is_ascii_chars_encode_utf8, valid_utf8,
};
use crate::macho::text::{string_from_utf8_lossy, utf8_lossy};

verus! {

/// The 16-bit value of the first two bytes of `s`, most significant first.
pub open spec fn u16_be(s: Seq<u8>) -> u16 {
    (s[0] as int * 0x100 + s[1] as int) as u16
}

/// The 16-bit value of the first two bytes of `s`, least significant first.
pub open spec fn u16_le(s: Seq<u8>) -> u16 {
    (s[1] as int * 0x100 + s[0] as int) as u16
}

/// The 32-bit value of the first four bytes of `s`, most significant first.
pub open spec fn u32_be(s: Seq<u8>) -> u32 {
    (s[0] as int * 0x100_0000 + s[1] as int * 0x1_0000 + s[2] as int * 0x100 + s[3] as int) as u32
}

/// The 32-bit value of the first four bytes of `s`, least significant first.
pub open spec fn u32_le(s: Seq<u8>) -> u32 {
    (s[3] as int * 0x100_0000 + s[2] as int * 0x1_0000 + s[1] as int * 0x100 + s[0] as int) as u32
}

/// The 64-bit value of the first eight bytes of `s`, most significant first.
pub open spec fn u64_be(s: Seq<u8>) -> u64 {
    (u32_be(s) as int * 0x1_0000_0000 + u32_be(s.skip(4)) as int) as u64
}

/// The 64-bit value of the first eight bytes of `s`, least significant first.
pub open spec fn u64_le(s: Seq<u8>) -> u64 {
    (u32_le(s.skip(4)) as int * 0x1_0000_0000 + u32_le(s) as int) as u64
}

/// The signed reading of 32 bits in two's complement.
pub open spec fn i32_of_bits(bits: u32) -> i32 {
    if bits < 0x8000_0000 {
        bits as i32
    } else {
        (bits as int - 0x1_0000_0000) as i32
    }
}

/// The error `bytes_to` and the `from_be` / `from_le` readers return when the
/// buffer is shorter than the scalar.
pub open spec fn buffer_too_small() -> DecodeError {
    DecodeError::at(ErrorKind::TruncatedRecord, Stage::Scalar, 0, 0)
}

/// A scalar that is stored in a fixed number of bytes, in either byte order.
pub trait FromEndianBytes: Sized {
    /// The value of the first `width()` bytes of `bytes`, most significant
    /// byte first.
    spec fn be_value(bytes: Seq<u8>) -> Self;

    /// The value of the first `width()` bytes of `bytes`, least significant
    /// byte first.
    spec fn le_value(bytes: Seq<u8>) -> Self;

    /// The number of bytes the scalar takes.
    const SIZE: usize;

    /// The number of bytes the scalar takes.
    spec fn width() -> nat;

    /// `SIZE` is the width.
    proof fn size_is_width()
        ensures
            Self::SIZE == Self::width(),
    ;

    fn from_be(bytes: &[u8]) -> (r: Result<Self, DecodeError>)
        ensures
            bytes@.len() == Self::width() ==> r == Ok::<Self, DecodeError>(Self::be_value(bytes@)),
            bytes@.len() != Self::width() ==> r == Err::<Self, DecodeError>(buffer_too_small()),
    ;

    fn from_le(bytes: &[u8]) -> (r: Result<Self, DecodeError>)
        ensures
            bytes@.len() == Self::width() ==> r == Ok::<Self, DecodeError>(Self::le_value(bytes@)),
            bytes@.len() != Self::width() ==> r == Err::<Self, DecodeError>(buffer_too_small()),
    ;
}

impl FromEndianBytes for u16 {
    open spec fn be_value(bytes: Seq<u8>) -> u16 {
        u16_be(bytes)
    }

    open spec fn le_value(bytes: Seq<u8>) -> u16 {
        u16_le(bytes)
    }

    const SIZE: usize = 2;

    open spec fn width() -> nat {
        2
    }

    proof fn size_is_width() {
    }

    fn from_be(bytes: &[u8]) -> (r: Result<u16, DecodeError>) {
        if bytes.len() != 2 {
            return Err(DecodeError::new(ErrorKind::TruncatedRecord, Stage::Scalar, 0, 0));
        }
        Ok(read_u16(bytes, 0, true))
    }

    fn from_le(bytes: &[u8]) -> (r: Result<u16, DecodeError>) {
        if bytes.len() != 2 {
            return Err(DecodeError::new(ErrorKind::TruncatedRecord, Stage::Scalar, 0, 0));
        }
        Ok(read_u16(bytes, 0, false))
    }
}

impl FromEndianBytes for u32 {
    open spec fn be_value(bytes: Seq<u8>) -> u32 {
        u32_be(bytes)
    }

    open spec fn le_value(bytes: Seq<u8>) -> u32 {
        u32_le(bytes)
    }

    const SIZE: usize = 4;

    open spec fn width() -> nat {
        4
    }

    proof fn size_is_width() {
    }

    fn from_be(bytes: &[u8]) -> (r: Result<u32, DecodeError>) {
        if bytes.len() != 4 {
            return Err(DecodeError::new(ErrorKind::TruncatedRecord, Stage::Scalar, 0, 0));
        }
        Ok(read_u32(bytes, 0, true))
    }

    fn from_le(bytes: &[u8]) -> (r: Result<u32, DecodeError>) {
        if bytes.len() != 4 {
            return Err(DecodeError::new(ErrorKind::TruncatedRecord, Stage::Scalar, 0, 0));
        }
        Ok(read_u32(bytes, 0, false))
    }
}

impl FromEndianBytes for i32 {
    open spec fn be_value(bytes: Seq<u8>) -> i32 {
        i32_of_bits(u32_be(bytes))
    }

    open spec fn le_value(bytes: Seq<u8>) -> i32 {
        i32_of_bits(u32_le(bytes))
    }

    const SIZE: usize = 4;

    open spec fn width() -> nat {
        4
    }

    proof fn size_is_width() {
    }

    fn from_be(bytes: &[u8]) -> (r: Result<i32, DecodeError>) {
        if bytes.len() != 4 {
            return Err(DecodeError::new(ErrorKind::TruncatedRecord, Stage::Scalar, 0, 0));
        }
        Ok(read_i32(bytes, 0, true))
    }

    fn from_le(bytes: &[u8]) -> (r: Result<i32, DecodeError>) {
        if bytes.len() != 4 {
            return Err(DecodeError::new(ErrorKind::TruncatedRecord, Stage::Scalar, 0, 0));
        }
        Ok(read_i32(bytes, 0, false))
    }
}

impl FromEndianBytes for u64 {
    open spec fn be_value(bytes: Seq<u8>) -> u64 {
        u64_be(bytes)
    }

    open spec fn le_value(bytes: Seq<u8>) -> u64 {
        u64_le(bytes)
    }

    const SIZE: usize = 8;

    open spec fn width() -> nat {
        8
    }

    proof fn size_is_width() {
    }

    fn from_be(bytes: &[u8]) -> (r: Result<u64, DecodeError>) {
        if bytes.len() != 8 {
            return Err(DecodeError::new(ErrorKind::TruncatedRecord, Stage::Scalar, 0, 0));
        }
        Ok(read_u64(bytes, 0, true))
    }

    fn from_le(bytes: &[u8]) -> (r: Result<u64, DecodeError>) {
        if bytes.len() != 8 {
            return Err(DecodeError::new(ErrorKind::TruncatedRecord, Stage::Scalar, 0, 0));
        }
        Ok(read_u64(bytes, 0, false))
    }
}

/// Reads a scalar from the front of `data` in the byte order asked for; what
/// follows the scalar is ignored.
pub fn bytes_to<T: FromEndianBytes>(is_be: bool, data: &[u8]) -> (r: Result<T, DecodeError>)
    ensures
        data@.len() < T::width() ==> r == Err::<T, DecodeError>(buffer_too_small()),
        data@.len() >= T::width() ==> r == Ok::<T, DecodeError>(
            if is_be {
                T::be_value(data@.take(T::width() as int))
            } else {
                T::le_value(data@.take(T::width() as int))
            },
        ),
{
    let n = T::SIZE;
    proof {
        T::size_is_width();
    }
    if data.len() < n {
        return Err(DecodeError::new(ErrorKind::TruncatedRecord, Stage::Scalar, 0, 0));
    }
    let front = slice_subrange(data, 0, n);
    if is_be {
        T::from_be(front)
    } else {
        T::from_le(front)
    }
}

/// The 16-bit value stored at `off` in `s`.
pub open spec fn u16_at(s: Seq<u8>, off: int, is_be: bool) -> u16 {
    if is_be {
        u16_be(s.skip(off))
    } else {
        u16_le(s.skip(off))
    }
}

/// The 32-bit value stored at `off` in `s`.
pub open spec fn u32_at(s: Seq<u8>, off: int, is_be: bool) -> u32 {
    if is_be {
        u32_be(s.skip(off))
    } else {
        u32_le(s.skip(off))
    }
}

/// The signed 32-bit value stored at `off` in `s`.
pub open spec fn i32_at(s: Seq<u8>, off: int, is_be: bool) -> i32 {
    i32_of_bits(u32_at(s, off, is_be))
}

/// The 64-bit value stored at `off` in `s`.
pub open spec fn u64_at(s: Seq<u8>, off: int, is_be: bool) -> u64 {
    if is_be {
        u64_be(s.skip(off))
    } else {
        u64_le(s.skip(off))
    }
}

/// The sixteen bytes stored at `off` in `s`.
pub open spec fn name_at(s: Seq<u8>, off: int) -> Seq<u8> {
    s.subrange(off, off + 16)
}

/// Reads the 16-bit value at `off`.
pub(crate) fn read_u16(data: &[u8], off: usize, is_be: bool) -> (v: u16)
    requires
        off + 2 <= data.len(),
    ensures
        v == u16_at(data@, off as int, is_be),
{
    let b0: u16 = data[off] as u16;
    let b1: u16 = data[off + 1] as u16;
    if is_be {
        b0 * 0x100 + b1
    } else {
        b1 * 0x100 + b0
    }
}

/// Reads the 32-bit value at `off`.
pub(crate) fn read_u32(data: &[u8], off: usize, is_be: bool) -> (v: u32)
    requires
        off + 4 <= data.len(),
    ensures
        v == u32_at(data@, off as int, is_be),
{
    let b0: u32 = data[off] as u32;
    let b1: u32 = data[off + 1] as u32;
    let b2: u32 = data[off + 2] as u32;
    let b3: u32 = data[off + 3] as u32;
    if is_be {
        b0 * 0x100_0000 + b1 * 0x1_0000 + b2 * 0x100 + b3
    } else {
        b3 * 0x100_0000 + b2 * 0x1_0000 + b1 * 0x100 + b0
    }
}

/// Reads the signed 32-bit value at `off`.
pub(crate) fn read_i32(data: &[u8], off: usize, is_be: bool) -> (v: i32)
    requires
        off + 4 <= data.len(),
    ensures
        v == i32_at(data@, off as int, is_be),
{
    let bits = read_u32(data, off, is_be);
    if bits < 0x8000_0000 {
        bits as i32
    } else {
        let low: i32 = (bits - 0x8000_0000) as i32;
        low - 0x4000_0000 - 0x4000_0000
    }
}

/// Reads the 64-bit value at `off`.
pub(crate) fn read_u64(data: &[u8], off: usize, is_be: bool) -> (v: u64)
    requires
        off + 8 <= data.len(),
    ensures
        v == u64_at(data@, off as int, is_be),
{
    let first: u64 = read_u32(data, off, is_be) as u64;
    let second: u64 = read_u32(data, off + 4, is_be) as u64;
    if is_be {
        first * 0x1_0000_0000 + second
    } else {
        second * 0x1_0000_0000 + first
    }
}

/// Reads the sixteen bytes of a name at `off`.
pub(crate) fn read_name(data: &[u8], off: usize) -> (name: [u8; 16])
    requires
        off + 16 <= data.len(),
    ensures
        name@ == name_at(data@, off as int),
{
    let mut name: [u8; 16] = [0u8; 16];
    let mut i: usize = 0;
    while i < 16
        invariant
            i <= 16,
            off + 16 <= data.len(),
            forall|j: int| 0 <= j < i ==> name@[j] == data@[off + j],
        decreases 16 - i,
    {
        name[i] = data[off + i];
        i += 1;
    }
    name
}

/// The number of bytes of `s` that stand before its first NUL byte; the
/// length of `s` where it holds none.
pub open spec fn c_str_len(s: Seq<u8>) -> nat
    decreases s.len(),
{
    if s.len() == 0 || s[0] == 0 {
        0
    } else {
        1 + c_str_len(s.skip(1))
    }
}

/// Whether `s` holds a NUL byte.
pub open spec fn has_nul(s: Seq<u8>) -> bool {
    c_str_len(s) < s.len()
}

/// The bytes of `s` before its first NUL byte; all of `s` where it holds
/// none.
pub open spec fn until_nul(s: Seq<u8>) -> Seq<u8> {
    s.take(c_str_len(s) as int)
}

/// `c_str_len` is the place of the first NUL byte: the index `n` with no NUL
/// byte before it that either holds one or is the end of `s`.
pub proof fn lemma_c_str_len(s: Seq<u8>, n: int)
    requires
        0 <= n <= s.len(),
        forall|j: int| 0 <= j < n ==> s[j] != 0,
        n == s.len() || s[n] == 0,
    ensures
        c_str_len(s) == n,
    decreases n,
{
    if n > 0 {
        lemma_c_str_len(s.skip(1), n - 1);
    }
}

/// `c_str_len` never runs past the end, no byte before it is NUL, and the
/// byte at it, if there is one, is NUL.
pub proof fn lemma_c_str_len_is_first_nul(s: Seq<u8>)
    ensures
        c_str_len(s) <= s.len(),
        forall|j: int| 0 <= j < c_str_len(s) ==> s[j] != 0,
        c_str_len(s) < s.len() ==> s[c_str_len(s) as int] == 0,
    decreases s.len(),
{
    if s.len() != 0 && s[0] != 0 {
        let rest = s.skip(1);
        lemma_c_str_len_is_first_nul(rest);
        assert forall|j: int| 0 <= j < c_str_len(s) implies s[j] != 0 by {
            if j > 0 {
                assert(s[j] == rest[j - 1]);
            }
        }
    }
}

/// Counts the bytes of `data[start..end]` that stand before its first NUL
/// byte.
pub(crate) fn find_nul(data: &[u8], start: usize, end: usize) -> (n: usize)
    requires
        start <= end <= data.len(),
    ensures
        n == c_str_len(data@.subrange(start as int, end as int)),
        start + n <= end,
{
    let mut cursor: usize = start;
    while cursor < end && data[cursor] != 0
        invariant
            start <= cursor <= end <= data.len(),
            forall|j: int| start <= j < cursor ==> data@[j] != 0,
        decreases end - cursor,
    {
        cursor += 1;
    }
    proof {
        lemma_c_str_len(data@.subrange(start as int, end as int), cursor - start);
    }
    cursor - start
}

/// The text whose characters have the codes that the bytes are.
pub open spec fn ascii_text(bytes: Seq<u8>) -> Seq<char> {
    Seq::new(bytes.len(), |i: int| bytes[i] as char)
}

/// Bytes under 0x80 are valid UTF-8, and the text that they encode has one
/// character for each byte, with the byte as its code. So the text of a
/// name of such bytes, or of a path, is the name as it is spelled.
pub proof fn lemma_ascii_bytes_are_their_text(bytes: Seq<u8>)
    requires
        forall|i: int| 0 <= i < bytes.len() ==> bytes[i] < 0x80,
    ensures
        valid_utf8(bytes),
        decode_utf8(bytes) == ascii_text(bytes),
{
    let chars = ascii_text(bytes);
    assert forall|i: int| 0 <= i < chars.len() implies '\0' <= #[trigger] chars[i] <= '\u{7f}' by {
        assert(bytes[i] < 0x80);
    }
    is_ascii_chars_encode_utf8(chars);
    assert forall|i: int| 0 <= i < bytes.len() implies encode_utf8(chars)[i] == bytes[i] by {
        assert(chars[i] as u8 == encode_utf8(chars)[i]);
    }
    assert(encode_utf8(chars) =~= bytes);
    encode_utf8_valid_utf8(chars);
    encode_utf8_decode_utf8(chars);
}

/// The text of a sixteen-byte name: the bytes before the first NUL byte, or
/// all sixteen where there is none, decoded lossily.
pub open spec fn spec_name_text(name: Seq<u8>) -> Seq<char> {
    utf8_lossy(until_nul(name))
}

/// Turns a NUL-padded name into text.
pub fn byte_array_to_string(bytes: &[u8; 16]) -> (text: String)
    ensures
        text@ == spec_name_text(bytes@),
        valid_utf8(until_nul(bytes@)) ==> text@ == decode_utf8(until_nul(bytes@)),
{
    let all = bytes.as_slice();
    let end = find_nul(all, 0, 16);
    proof {
        assert(all@.subrange(0, 16) =~= bytes@);
    }
    string_from_utf8_lossy(slice_subrange(all, 0, end))
}

/// The lower-case hexadecimal digit for a value under sixteen.
pub open spec fn spec_hex_digit(n: int) -> char {
    if n == 0 {
        '0'
    } else if n == 1 {
        '1'
    } else if n == 2 {
        '2'
    } else if n == 3 {
        '3'
    } else if n == 4 {
        '4'
    } else if n == 5 {
        '5'
    } else if n == 6 {
        '6'
    } else if n == 7 {
        '7'
    } else if n == 8 {
        '8'
    } else if n == 9 {
        '9'
    } else if n == 10 {
        'a'
    } else if n == 11 {
        'b'
    } else if n == 12 {
        'c'
    } else if n == 13 {
        'd'
    } else if n == 14 {
        'e'
    } else {
        'f'
    }
}

/// The hexadecimal digit for a value under sixteen.
pub(crate) fn hex_digit(n: u32) -> (c: char)
    requires
        n < 16,
    ensures
        c == spec_hex_digit(n as int),
{
    match n {
        0 => '0',
        1 => '1',
        2 => '2',
        3 => '3',
        4 => '4',
        5 => '5',
        6 => '6',
        7 => '7',
        8 => '8',
        9 => '9',
        10 => 'a',
        11 => 'b',
        12 => 'c',
        13 => 'd',
        14 => 'e',
        _ => 'f',
    }
}

/// A number written in a base from two to sixteen, without leading
/// zeros.
pub open spec fn spec_numeral(value: u64, base: u64) -> Seq<char>
    decreases value,
    via numeral_gets_shorter
{
    if value < base || base < 2 {
        seq![spec_hex_digit(value as int)]
    } else {
        spec_numeral((value / base) as u64, base).push(spec_hex_digit((value % base) as int))
    }
}

#[via_fn]
proof fn numeral_gets_shorter(value: u64, base: u64) {
    if value >= base && base >= 2 {
        assert(value / base < value) by (nonlinear_arith)
            requires
                value >= base,
                base >= 2,
        ;
    }
}

/// Appends a number to `text`, written in a base from two to sixteen.
pub(crate) fn push_numeral(text: &mut String, value: u64, base: u64)
    requires
        2 <= base <= 16,
    ensures
        final(text)@ == old(text)@ + spec_numeral(value, base),
{
    let mut low_digits: Vec<char> = Vec::new();
    let mut rest: u64 = value;
    while rest >= base
        invariant
            2 <= base <= 16,
            spec_numeral(value, base) == spec_numeral(rest, base) + low_digits@.reverse(),
        decreases rest,
    {
        let digit = hex_digit((rest % base) as u32);
        low_digits.push(digit);
        rest = rest / base;
    }
    text.push(hex_digit(rest as u32));
    let mut left: usize = low_digits.len();
    while left > 0
        invariant
            left <= low_digits@.len(),
            text@ == old(text)@ + spec_numeral(rest, base) + low_digits@.reverse().take(
                low_digits@.len() - left,
            ),
        decreases left,
    {
        left -= 1;
        text.push(low_digits[left]);
    }
}

/// A number as it is written in reports: `0x` and the number in
/// hexadecimal.
pub open spec fn spec_hex_text(value: u64) -> Seq<char> {
    seq!['0', 'x'] + spec_numeral(value, 16)
}

/// Writes a number in hexadecimal behind `0x`.
pub fn hex_text(value: u64) -> (text: String)
    ensures
        text@ == spec_hex_text(value),
{
    let mut text = String::new();
    text.push('0');
    text.push('x');
    push_numeral(&mut text, value, 16);
    text
}

/// Text without the NUL characters at its end.
pub open spec fn spec_trim_nuls(text: Seq<char>) -> Seq<char>
    decreases text.len(),
{
    if text.len() > 0 && text.last() == '\0' {
        spec_trim_nuls(text.drop_last())
    } else {
        text
    }
}

/// A run of NUL characters.
pub open spec fn nuls(count: nat) -> Seq<char> {
    Seq::new(count, |i: int| '\0')
}

proof fn lemma_trim_nuls(text: Seq<char>, count: nat)
    requires
        text.len() == 0 || text.last() != '\0',
    ensures
        spec_trim_nuls(text + nuls(count)) == text,
    decreases count,
{
    if count != 0 {
        assert((text + nuls(count)).drop_last() =~= text + nuls((count - 1) as nat));
        lemma_trim_nuls(text, (count - 1) as nat);
    }
}

/// Cuts the NUL characters off the end of a text.
pub fn trim_trailing_nuls(full: &str) -> (text: String)
    ensures
        text@ == spec_trim_nuls(full@),
{
    let total = full.unicode_len();
    let mut text = String::new();
    let mut pending: usize = 0;
    for c in it: full.chars()
        invariant
            it.seq() == full@,
            total == full@.len(),
            pending <= it.index() <= total,
            text@ + nuls(pending as nat) == full@.take(it.index() as int),
            text@.len() == 0 || text@.last() != '\0',
    {
        let ghost before = text@;
        let ghost seen = full@.take(it.index() as int);
        assert(full@.take(it.index() + 1) =~= seen.push(c));
        if c == '\0' {
            pending += 1;
        } else {
            let ghost owed = pending;
            while pending > 0
                invariant
                    pending <= owed,
                    text@ == before + nuls((owed - pending) as nat),
                decreases pending,
            {
                text.push('\0');
                pending -= 1;
            }
            text.push(c);
        }
    }
    proof {
        assert(full@.take(full@.len() as int) =~= full@);
        lemma_trim_nuls(text@, pending as nat);
    }
    text
}

/// The text of a padded name as a list of strings shows it: all sixteen
/// bytes decoded lossily, without the NUL characters at the end.
pub open spec fn spec_padded_name_text(name: Seq<u8>) -> Seq<char> {
    spec_trim_nuls(utf8_lossy(name))
}

/// Turns a NUL-padded name into text by cutting the padding off its end.
pub fn padded_name_text(name: &[u8; 16]) -> (text: String)
    ensures
        text@ == spec_padded_name_text(name@),
        valid_utf8(name@) ==> text@ == spec_trim_nuls(decode_utf8(name@)),
{
    let full = string_from_utf8_lossy(name.as_slice());
    trim_trailing_nuls(full.as_str())
}

} // verus!
