//! Little-endian layout of the three transfer widths, and the calls that
//! move integers in and out of byte buffers.

use byteorder::{LittleEndian, ReadBytesExt, WriteBytesExt};
use vstd::prelude::*;

verus! {

/// The bytes of `value`, least significant first.
pub open spec fn le_bytes_u16(value: u16) -> Seq<u8> {
    seq![(value % 256) as u8, (value / 256) as u8]
}

/// The bytes of `value`, least significant first.
pub open spec fn le_bytes_u32(value: u32) -> Seq<u8> {
    seq![
        (value % 256) as u8,
        (value / 256 % 256) as u8,
        (value / 65536 % 256) as u8,
        (value / 16777216) as u8,
    ]
}

/// The integer whose least significant byte is `bytes[0]` and whose most
/// significant byte is `bytes[1]`.
pub open spec fn le_u16(bytes: Seq<u8>) -> u16
    recommends
        bytes.len() >= 2,
{
    (bytes[0] as int + 256 * (bytes[1] as int)) as u16
}

/// The integer whose least significant byte is `bytes[0]` and whose most
/// significant byte is `bytes[3]`.
pub open spec fn le_u32(bytes: Seq<u8>) -> u32
    recommends
        bytes.len() >= 4,
{
    (bytes[0] as int + 256 * (bytes[1] as int) + 65536 * (bytes[2] as int) + 16777216 * (
    bytes[3] as int)) as u32
}

/// Decoding the two bytes of a half-word gives the half-word back.
pub proof fn lemma_le_u16_round_trip(value: u16)
    ensures
        le_bytes_u16(value).len() == 2,
        le_u16(le_bytes_u16(value)) == value,
{
}

/// Decoding the four bytes of a word gives the word back.
pub proof fn lemma_le_u32_round_trip(value: u32)
    ensures
        le_bytes_u32(value).len() == 4,
        le_u32(le_bytes_u32(value)) == value,
{
}

/// Why a value could not be stored.
#[derive(Clone, Copy, Debug, PartialEq, Eq, Structural)]
pub enum WriteError {
    /// The view is too short to take the encoded value.
    ShortView,
}

/// `std::io::Error`, the failure that the reads and writes below report.
/// Nothing is known of what it holds; it is only told apart from success.
#[verifier::external_type_specification]
#[verifier::external_body]
pub struct ExIoError(std::io::Error);

/// `ReadBytesExt::read_u16::<LittleEndian>` on a byte slice: it takes the
/// slice's first two bytes and fails when the slice holds fewer.
#[verifier::external_body]
pub(crate) fn read_u16_le(bytes: &[u8]) -> (r: Result<u16, std::io::Error>)
    ensures
        r is Ok <==> bytes@.len() >= 2,
        r is Ok ==> r->Ok_0 == le_u16(bytes@),
{
    let mut reader = bytes;
    reader.read_u16::<LittleEndian>()
}

/// `ReadBytesExt::read_u32::<LittleEndian>` on a byte slice: it takes the
/// slice's first four bytes and fails when the slice holds fewer.
#[verifier::external_body]
pub(crate) fn read_u32_le(bytes: &[u8]) -> (r: Result<u32, std::io::Error>)
    ensures
        r is Ok <==> bytes@.len() >= 4,
        r is Ok ==> r->Ok_0 == le_u32(bytes@),
{
    let mut reader = bytes;
    reader.read_u32::<LittleEndian>()
}

/// `WriteBytesExt::write_u8` on a mutable byte slice: it overwrites the
/// slice's first byte and fails when the slice is empty. The slice keeps its
/// length and, on success, the bytes behind the first are left as they were.
#[verifier::external_body]
fn write_u8_le(buf: &mut [u8], value: u8) -> (r: Result<(), std::io::Error>)
    ensures
        r is Ok <==> old(buf)@.len() >= 1,
        final(buf)@.len() == old(buf)@.len(),
        r is Ok ==> final(buf)@ == seq![value] + old(buf)@.skip(1),
{
    let mut writer = buf;
    writer.write_u8(value)
}

/// `WriteBytesExt::write_u16::<LittleEndian>` on a mutable byte slice: it
/// overwrites the slice's first two bytes and fails when the slice holds
/// fewer. The slice keeps its length and, on success, the bytes behind the
/// first two are left as they were.
#[verifier::external_body]
fn write_u16_le(buf: &mut [u8], value: u16) -> (r: Result<(), std::io::Error>)
    ensures
        r is Ok <==> old(buf)@.len() >= 2,
        final(buf)@.len() == old(buf)@.len(),
        r is Ok ==> final(buf)@ == le_bytes_u16(value) + old(buf)@.skip(2),
{
    let mut writer = buf;
    writer.write_u16::<LittleEndian>(value)
}

/// `WriteBytesExt::write_u32::<LittleEndian>` on a mutable byte slice: it
/// overwrites the slice's first four bytes and fails when the slice holds
/// fewer. The slice keeps its length and, on success, the bytes behind the
/// first four are left as they were.
#[verifier::external_body]
fn write_u32_le(buf: &mut [u8], value: u32) -> (r: Result<(), std::io::Error>)
    ensures
        r is Ok <==> old(buf)@.len() >= 4,
        final(buf)@.len() == old(buf)@.len(),
        r is Ok ==> final(buf)@ == le_bytes_u32(value) + old(buf)@.skip(4),
{
    let mut writer = buf;
    writer.write_u32::<LittleEndian>(value)
}

/// Stores `value` in the first byte of `view`. Fails exactly when `view` is
/// empty.
pub fn put_u8(view: &mut [u8], value: u8) -> (r: Result<(), WriteError>)
    ensures
        r is Ok <==> old(view)@.len() >= 1,
        final(view)@.len() == old(view)@.len(),
        r is Ok ==> final(view)@ == seq![value] + old(view)@.skip(1),
{
    match write_u8_le(view, value) {
        Ok(()) => Ok(()),
        Err(_) => Err(WriteError::ShortView),
    }
}

/// Stores `value` in the first two bytes of `view`, least significant byte
/// first. Fails exactly when `view` holds fewer than two bytes.
pub fn put_u16(view: &mut [u8], value: u16) -> (r: Result<(), WriteError>)
    ensures
        r is Ok <==> old(view)@.len() >= 2,
        final(view)@.len() == old(view)@.len(),
        r is Ok ==> final(view)@ == le_bytes_u16(value) + old(view)@.skip(2),
{
    match write_u16_le(view, value) {
        Ok(()) => Ok(()),
        Err(_) => Err(WriteError::ShortView),
    }
}

/// Stores `value` in the first four bytes of `view`, least significant byte
/// first. Fails exactly when `view` holds fewer than four bytes.
pub fn put_u32(view: &mut [u8], value: u32) -> (r: Result<(), WriteError>)
    ensures
        r is Ok <==> old(view)@.len() >= 4,
        final(view)@.len() == old(view)@.len(),
        r is Ok ==> final(view)@ == le_bytes_u32(value) + old(view)@.skip(4),
{
    match write_u32_le(view, value) {
        Ok(()) => Ok(()),
        Err(_) => Err(WriteError::ShortView),
    }
}

} // verus!
