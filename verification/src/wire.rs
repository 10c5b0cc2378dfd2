//! Reading and writing single bytes of the messages that are exchanged with the device.

use arrayvec::ArrayVec;
use binrw::{BinRead, BinWrite, Error as BinrwError};
use vstd::prelude::*;

verus! {

/// The longest message that is sent to the device, in bytes.
pub const MESSAGE_CAPACITY: usize = 20;

/// `arrayvec::ArrayVec`, the fixed-size buffer in which a message is put together.
#[verifier::external_type_specification]
#[verifier::external_body]
#[verifier::reject_recursive_types(T)]
pub struct ExArrayVec<T, const CAP: usize>(arrayvec::ArrayVec<T, CAP>);

/// `binrw::Error`, which says why a byte could not be read or written.
#[verifier::external_type_specification]
#[verifier::external_body]
pub struct ExBinrwError(BinrwError);

/// The bytes that a message buffer holds.
pub uninterp spec fn message_bytes(message: ArrayVec<u8, 20>) -> Seq<u8>;

/// `ArrayVec::new_const`: the new buffer holds nothing.
#[verifier::external_body]
pub(crate) fn new_message() -> (r: ArrayVec<u8, 20>)
    ensures
        message_bytes(r) == Seq::<u8>::empty(),
{
    ArrayVec::new_const()
}

/// `BinWrite::write_be` of one byte, through `NoSeek`, into the buffer: it succeeds while fewer
/// than 20 bytes are there and then puts the byte behind them, and otherwise changes nothing.
/// What error it fails with is left open.
#[verifier::external_body]
pub(crate) fn write_byte(message: &mut ArrayVec<u8, 20>, byte: u8) -> (r: Result<
    (),
    BinrwError,
>)
    ensures
        r is Ok <==> message_bytes(*old(message)).len() < MESSAGE_CAPACITY,
        r is Ok ==> message_bytes(*final(message)) == message_bytes(*old(message)).push(byte),
        r is Err ==> message_bytes(*final(message)) == message_bytes(*old(message)),
{
    byte.write_be(&mut binrw::io::NoSeek::new(message))
}

/// `BinRead::read_be` of one byte, through `NoSeek`, from a slice: it takes the first byte off the
/// slice, and fails where there is none. What error it fails with is left open.
#[verifier::external_body]
pub(crate) fn read_byte(input: &mut &[u8]) -> (r: Result<u8, BinrwError>)
    ensures
        r is Ok <==> old(input)@.len() > 0,
        r matches Ok(byte) ==> byte == old(input)@[0] && final(input)@ == old(input)@.skip(1),
        r is Err ==> final(input)@ == old(input)@,
{
    u8::read_be(&mut binrw::io::NoSeek::new(input))
}

/// Puts a byte behind those that a message holds, for which there has to be room.
pub(crate) fn put_byte(message: &mut ArrayVec<u8, 20>, byte: u8)
    requires
        message_bytes(*old(message)).len() < MESSAGE_CAPACITY,
    ensures
        message_bytes(*final(message)) == message_bytes(*old(message)).push(byte),
{
    write_byte(message, byte).expect("writing must not fail");
}

/// Puts four bytes behind those that a message holds, for which there has to be room.
pub(crate) fn put_row(message: &mut ArrayVec<u8, 20>, row: &[u8; 4])
    requires
        message_bytes(*old(message)).len() + 4 <= MESSAGE_CAPACITY,
    ensures
        message_bytes(*final(message)) == message_bytes(*old(message)) + row@,
{
    put_byte(message, row[0]);
    put_byte(message, row[1]);
    put_byte(message, row[2]);
    put_byte(message, row[3]);
}

/// Puts the values of both channels behind the bytes that a message holds, for which there has
/// to be room.
pub(crate) fn put_channels(message: &mut ArrayVec<u8, 20>, a: u8, b: u8)
    requires
        message_bytes(*old(message)).len() + 2 <= MESSAGE_CAPACITY,
    ensures
        message_bytes(*final(message)) == message_bytes(*old(message)).push(a).push(b),
{
    put_byte(message, a);
    put_byte(message, b);
}

} // verus!
