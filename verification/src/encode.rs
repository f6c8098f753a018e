//! Serialization of packet lines: the wire shape of every frame as a
//! sequence of bytes, and writers that append one frame to a byte sink.
use vstd::prelude::*;

use crate::hex::{hex4, push_hex4};
use crate::{channel_byte, Channel, ProtocolError, MAX_DATA_LEN};

verus! {

/// Wire bytes of a data line: the hex prefix declaring the total length,
/// then the payload verbatim.
pub open spec fn data_frame(payload: Seq<u8>) -> Seq<u8> {
    hex4(payload.len() + 4 as int) + payload
}

/// The four bytes of the remote-error marker: `E`, `R`, `R`, space.
pub open spec fn err_prefix() -> Seq<u8> {
    seq![69u8, 82u8, 82u8, 32u8]
}

/// Wire bytes of an error line: a data line whose payload is the marker
/// followed by the message.
pub open spec fn error_frame(message: Seq<u8>) -> Seq<u8> {
    data_frame(err_prefix() + message)
}

/// Wire bytes of a side-band frame: a data line whose payload is the channel
/// byte followed by the sub-payload.
pub open spec fn band_frame(c: Channel, message: Seq<u8>) -> Seq<u8> {
    data_frame(seq![channel_byte(c)] + message)
}

/// Appends every byte of `data` to `out`.
fn push_bytes(out: &mut Vec<u8>, data: &[u8])
    ensures
        final(out)@ == old(out)@ + data@,
{
    let mut i: usize = 0;
    while i < data.len()
        invariant
            i <= data@.len(),
            out@ == old(out)@ + data@.subrange(0, i as int),
        decreases data@.len() - i,
    {
        let b = *vstd::slice::slice_index_get(data, i);
        out.push(b);
        assert(out@ =~= old(out)@ + data@.subrange(0, i + 1));
        i = i + 1;
    }
    assert(out@ =~= old(out)@ + data@);
}

/// Appends one data line carrying `data`, and says how many bytes that took.
/// A payload over `MAX_DATA_LEN` bytes is refused and the sink is untouched.
pub fn data_to_write(data: &[u8], out: &mut Vec<u8>) -> (r: Result<usize, ProtocolError>)
    ensures
        data@.len() <= MAX_DATA_LEN as int ==> (r matches Ok(n) && n as int == data@.len() + 4
            && final(out)@ == old(out)@ + data_frame(data@)),
        data@.len() > MAX_DATA_LEN as int ==> r == Err::<usize, ProtocolError>(
            ProtocolError::PayloadTooLarge,
        ) && final(out)@ == old(out)@,
{
    if data.len() > MAX_DATA_LEN {
        return Err(ProtocolError::PayloadTooLarge);
    }
    push_hex4(out, data.len() + 4);
    push_bytes(out, data);
    assert(out@ =~= old(out)@ + data_frame(data@));
    Ok(data.len() + 4)
}

/// Appends a flush line, the frame declaring total length zero.
pub fn flush_to_write(out: &mut Vec<u8>) -> (r: usize)
    ensures
        r == 4,
        final(out)@ == old(out)@ + hex4(0),
{
    push_hex4(out, 0);
    4
}

/// Appends a delimiter line, the frame declaring total length one.
pub fn delim_to_write(out: &mut Vec<u8>) -> (r: usize)
    ensures
        r == 4,
        final(out)@ == old(out)@ + hex4(1),
{
    push_hex4(out, 1);
    4
}

/// Appends a response-end line, the frame declaring total length two.
pub fn response_end_to_write(out: &mut Vec<u8>) -> (r: usize)
    ensures
        r == 4,
        final(out)@ == old(out)@ + hex4(2),
{
    push_hex4(out, 2);
    4
}

/// Appends one error line: a data line whose payload is the remote-error
/// marker followed by `message`. A message that would push the payload over
/// `MAX_DATA_LEN` bytes is refused and the sink is untouched.
pub fn error_to_write(message: &[u8], out: &mut Vec<u8>) -> (r: Result<usize, ProtocolError>)
    ensures
        message@.len() + 4 <= MAX_DATA_LEN as int ==> (r matches Ok(n) && n as int == message@.len()
            + 8 && final(out)@ == old(out)@ + error_frame(message@)),
        message@.len() + 4 > MAX_DATA_LEN as int ==> r == Err::<usize, ProtocolError>(
            ProtocolError::PayloadTooLarge,
        ) && final(out)@ == old(out)@,
{
    if message.len() > MAX_DATA_LEN - 4 {
        return Err(ProtocolError::PayloadTooLarge);
    }
    push_hex4(out, message.len() + 8);
    out.push(69);
    out.push(82);
    out.push(82);
    out.push(32);
    push_bytes(out, message);
    assert(out@ =~= old(out)@ + error_frame(message@));
    Ok(message.len() + 8)
}

/// Appends one side-band frame: a data line whose payload is the channel byte
/// of `kind` followed by `message`. A message that would push the payload over
/// `MAX_DATA_LEN` bytes is refused and the sink is untouched.
pub fn band_to_write(kind: Channel, message: &[u8], out: &mut Vec<u8>) -> (r: Result<
    usize,
    ProtocolError,
>)
    ensures
        message@.len() + 1 <= MAX_DATA_LEN as int ==> (r matches Ok(n) && n as int == message@.len()
            + 5 && final(out)@ == old(out)@ + band_frame(kind, message@)),
        message@.len() + 1 > MAX_DATA_LEN as int ==> r == Err::<usize, ProtocolError>(
            ProtocolError::PayloadTooLarge,
        ) && final(out)@ == old(out)@,
{
    if message.len() > MAX_DATA_LEN - 1 {
        return Err(ProtocolError::PayloadTooLarge);
    }
    push_hex4(out, message.len() + 5);
    out.push(kind.to_byte());
    push_bytes(out, message);
    assert(out@ =~= old(out)@ + band_frame(kind, message@));
    Ok(message.len() + 5)
}

} // verus!
