//! Unsigned LEB128 numbers at the front of a byte buffer.

use vstd::prelude::*;

verus! {

/// Why no number could be read.
#[derive(Debug, Clone, Copy, PartialEq, Eq, Structural)]
pub enum Leb128Error {
    /// The buffer ended before a byte without the continuation bit.
    UnexpectedEnd,
    /// The number does not fit in 64 bits, or has more than ten bytes.
    Overflow,
}

/// How many bytes with the continuation bit stand at the front of `bytes`.
pub open spec fn continuation_bytes(bytes: Seq<u8>) -> nat
    decreases bytes.len(),
{
    if bytes.len() == 0 || bytes[0] < 0x80 {
        0
    } else {
        1 + continuation_bytes(bytes.skip(1))
    }
}

/// The number that the front of `bytes` spells: seven bits a byte, least significant first, up
/// to and with the first byte without the continuation bit.
pub open spec fn number_at_front(bytes: Seq<u8>) -> nat
    decreases bytes.len(),
{
    if bytes.len() == 0 {
        0
    } else if bytes[0] < 0x80 {
        bytes[0] as nat
    } else {
        (bytes[0] - 0x80) as nat + 0x80 * number_at_front(bytes.skip(1))
    }
}

/// What reading one number off the front of `bytes` gives: the number and the bytes behind it.
pub open spec fn leb128_read(bytes: Seq<u8>) -> Result<(u64, Seq<u8>), Leb128Error> {
    let last = continuation_bytes(bytes);
    if last == bytes.len() {
        Err(Leb128Error::UnexpectedEnd)
    } else if last >= 10 || number_at_front(bytes) > u64::MAX {
        Err(Leb128Error::Overflow)
    } else {
        Ok((number_at_front(bytes) as u64, bytes.skip(last as int + 1)))
    }
}

/// Reads one unsigned LEB128 number off the front of `buf` with `leb128::read::unsigned`.
///
/// Taken on trust of that function: it reads byte by byte up to the first byte without the
/// continuation bit; it reports an I/O error if the buffer ends before that byte, and an
/// overflow if the number has more than ten bytes or is above `u64::MAX`; otherwise it returns
/// the number and leaves the bytes behind it. What `buf` holds after an error is not stated.
#[verifier::external_body]
pub(crate) fn read_unsigned(buf: &mut &[u8]) -> (number: Result<u64, Leb128Error>)
    ensures
        match leb128_read(old(buf)@) {
            Ok((value, rest)) => number == Ok::<u64, Leb128Error>(value) && final(buf)@ == rest,
            Err(e) => number == Err::<u64, Leb128Error>(e),
        },
{
    match leb128::read::unsigned(buf) {
        Ok(value) => Ok(value),
        Err(leb128::read::Error::IoError(_)) => Err(Leb128Error::UnexpectedEnd),
        Err(leb128::read::Error::Overflow) => Err(Leb128Error::Overflow),
    }
}

/// A read that succeeds takes between one and ten bytes.
pub proof fn lemma_read_shortens(bytes: Seq<u8>)
    ensures
        leb128_read(bytes) matches Ok((_, rest)) ==> bytes.len() - 10 <= rest.len() < bytes.len(),
{
    lemma_continuation_bytes_bound(bytes);
}

/// Reading a number does not look at the bytes behind it.
pub proof fn lemma_read_ignores_what_follows(bytes: Seq<u8>, extra: Seq<u8>)
    ensures
        leb128_read(bytes) matches Ok((number, rest)) ==> leb128_read(bytes + extra) == Ok::<
            (u64, Seq<u8>),
            Leb128Error,
        >((number, rest + extra)),
{
    if leb128_read(bytes) is Ok {
        let behind = continuation_bytes(bytes) as int + 1;
        lemma_continuation_bytes_bound(bytes);
        lemma_front_of_concat(bytes, extra);
        assert((bytes + extra).skip(behind) =~= bytes.skip(behind) + extra);
    }
}

proof fn lemma_front_of_concat(number: Seq<u8>, rest: Seq<u8>)
    requires
        continuation_bytes(number) < number.len(),
    ensures
        continuation_bytes(number + rest) == continuation_bytes(number),
        number_at_front(number + rest) == number_at_front(number),
    decreases number.len(),
{
    if number[0] >= 0x80 {
        lemma_front_of_concat(number.skip(1), rest);
        assert((number + rest).skip(1) =~= number.skip(1) + rest);
    }
}

proof fn lemma_continuation_bytes_bound(bytes: Seq<u8>)
    ensures
        continuation_bytes(bytes) <= bytes.len(),
    decreases bytes.len(),
{
    if bytes.len() != 0 && bytes[0] >= 0x80 {
        lemma_continuation_bytes_bound(bytes.skip(1));
    }
}

/// A byte without the continuation bit is a number by itself.
pub proof fn law_one_byte_is_a_number(byte: u8, rest: Seq<u8>)
    requires
        byte < 128,
    ensures
        leb128_read(seq![byte] + rest) == Ok::<(u64, Seq<u8>), Leb128Error>((byte as u64, rest)),
{
    let bytes = seq![byte] + rest;
    assert(bytes[0] == byte);
    assert(bytes.skip(1) =~= rest);
}

/// A byte with the continuation bit puts its seven low bits below the number behind it. The two
/// make a number where it has 64 bits and ten bytes at most; what is wrong with the number behind
/// is wrong with the whole.
pub proof fn law_continued_number(byte: u8, bytes: Seq<u8>)
    requires
        byte >= 128,
    ensures
        leb128_read(seq![byte] + bytes) == match leb128_read(bytes) {
            Ok((number, rest)) => if byte - 128 + 128 * number < 0x1_0000_0000_0000_0000
                && bytes.len() - rest.len() <= 9 {
                Ok(((byte - 128 + 128 * number) as u64, rest))
            } else {
                Err(Leb128Error::Overflow)
            },
            Err(e) => Err(e),
        },
{
    let all = seq![byte] + bytes;
    assert(all[0] == byte);
    assert(all.skip(1) =~= bytes);
    lemma_continuation_bytes_bound(bytes);
    let last = continuation_bytes(bytes) as int;
    if last < bytes.len() {
        assert(all.skip(last + 2) =~= bytes.skip(last + 1));
    }
}

/// Nothing spells no number.
pub proof fn law_no_bytes_no_number()
    ensures
        leb128_read(Seq::<u8>::empty()) == Err::<(u64, Seq<u8>), Leb128Error>(
            Leb128Error::UnexpectedEnd,
        ),
{
}

} // verus!
