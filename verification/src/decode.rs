//! Decoding of packet lines: the mathematical description of what any byte
//! sequence decodes to, the executable pull-parser over a caller's buffer,
//! and the laws tying decoding back to encoding.
use vstd::prelude::*;

use crate::encode::data_frame;
use crate::hex::{
    hex4, lemma_hex4_roundtrip, parse_hex_digit, prefix_is_hex, prefix_value,
};
use crate::{Borrowed, ProtocolError, MAX_DATA_LEN, MAX_LINE_LEN};
use vstd::slice::{slice_index_get, slice_subrange};

verus! {

/// One decoded line, stated over mathematical sequences; the model that the
/// executable decoder is held to.
pub enum SpecLine {
    Data(Seq<u8>),
    Flush,
    Delimiter,
    ResponseEnd,
}

/// The model of one executable line value.
pub open spec fn line_model(l: Borrowed) -> SpecLine {
    match l {
        Borrowed::Data(d) => SpecLine::Data(d@),
        Borrowed::Flush => SpecLine::Flush,
        Borrowed::Delimiter => SpecLine::Delimiter,
        Borrowed::ResponseEnd => SpecLine::ResponseEnd,
    }
}

/// What validating the four-byte length prefix of `src` yields: the declared
/// total length, or the error mandated for a short, non-hex, reserved or
/// oversized prefix.
pub open spec fn spec_parse_length(src: Seq<u8>) -> Result<int, ProtocolError> {
    if src.len() < 4 {
        Err(ProtocolError::UnexpectedEof)
    } else if !prefix_is_hex(src) {
        Err(ProtocolError::InvalidLengthPrefix)
    } else if prefix_value(src) == 3 {
        Err(ProtocolError::ReservedLength)
    } else if prefix_value(src) > MAX_LINE_LEN as int {
        Err(ProtocolError::LineTooLong)
    } else {
        Ok(prefix_value(src))
    }
}

/// What decoding one frame from the front of `src` yields: the line and the
/// number of bytes it occupies, or the error mandated for its prefix or for a
/// source that ends before the declared payload does.
pub open spec fn spec_decode(src: Seq<u8>) -> Result<(SpecLine, int), ProtocolError> {
    match spec_parse_length(src) {
        Err(e) => Err(e),
        Ok(n) => if n == 0 {
            Ok((SpecLine::Flush, 4))
        } else if n == 1 {
            Ok((SpecLine::Delimiter, 4))
        } else if n == 2 {
            Ok((SpecLine::ResponseEnd, 4))
        } else if src.len() < n {
            Err(ProtocolError::UnexpectedEof)
        } else {
            Ok((SpecLine::Data(src.subrange(4, n)), n))
        },
    }
}

/// Validates a four-byte length prefix at the front of `src` without touching
/// any payload byte, so a caller can bound what it reads next. Returns the
/// declared total frame length; never a value of 3 nor one over
/// `MAX_LINE_LEN`.
pub fn parse_length(src: &[u8]) -> (r: Result<usize, ProtocolError>)
    ensures
        match r {
            Ok(n) => spec_parse_length(src@) == Ok::<int, ProtocolError>(n as int),
            Err(e) => spec_parse_length(src@) == Err::<int, ProtocolError>(e),
        },
{
    if src.len() < 4 {
        return Err(ProtocolError::UnexpectedEof);
    }
    let v0 = match parse_hex_digit(*slice_index_get(src, 0)) {
        Some(v) => v,
        None => { return Err(ProtocolError::InvalidLengthPrefix) },
    };
    let v1 = match parse_hex_digit(*slice_index_get(src, 1)) {
        Some(v) => v,
        None => { return Err(ProtocolError::InvalidLengthPrefix) },
    };
    let v2 = match parse_hex_digit(*slice_index_get(src, 2)) {
        Some(v) => v,
        None => { return Err(ProtocolError::InvalidLengthPrefix) },
    };
    let v3 = match parse_hex_digit(*slice_index_get(src, 3)) {
        Some(v) => v,
        None => { return Err(ProtocolError::InvalidLengthPrefix) },
    };
    let n: usize = (v0 as usize) * 4096 + (v1 as usize) * 256 + (v2 as usize) * 16 + (v3 as usize);
    if n == 3 {
        return Err(ProtocolError::ReservedLength);
    }
    if n > MAX_LINE_LEN {
        return Err(ProtocolError::LineTooLong);
    }
    Ok(n)
}

/// Decodes exactly one line from the front of `src`, and says how many bytes
/// of `src` it occupied. The payload of a data line is borrowed from `src`;
/// nothing past the declared frame is read.
pub fn decode<'a>(src: &'a [u8]) -> (r: Result<(Borrowed<'a>, usize), ProtocolError>)
    ensures
        match r {
            Ok(p) => spec_decode(src@) == Ok::<(SpecLine, int), ProtocolError>(
                (line_model(p.0), p.1 as int),
            ) && p.1 as int <= src@.len(),
            Err(e) => spec_decode(src@) == Err::<(SpecLine, int), ProtocolError>(e),
        },
{
    let n = match parse_length(src) {
        Ok(n) => n,
        Err(e) => { return Err(e) },
    };
    if n == 0 {
        return Ok((Borrowed::Flush, 4));
    }
    if n == 1 {
        return Ok((Borrowed::Delimiter, 4));
    }
    if n == 2 {
        return Ok((Borrowed::ResponseEnd, 4));
    }
    if src.len() < n {
        return Err(ProtocolError::UnexpectedEof);
    }
    let payload = slice_subrange(src, 4, n);
    Ok((Borrowed::Data(payload), n))
}

/// Law: a data frame decodes back to exactly the payload it was built from,
/// occupying exactly the payload length plus the four prefix bytes.
pub proof fn lemma_round_trip(payload: Seq<u8>)
    requires
        payload.len() <= MAX_DATA_LEN as int,
    ensures
        spec_decode(data_frame(payload)) == Ok::<(SpecLine, int), ProtocolError>(
            (SpecLine::Data(payload), payload.len() + 4 as int),
        ),
{
    let f = data_frame(payload);
    let n = payload.len() + 4;
    lemma_hex4_roundtrip(n as int);
    assert(f.len() == n);
    assert(f[0] == hex4(n as int)[0]);
    assert(f[1] == hex4(n as int)[1]);
    assert(f[2] == hex4(n as int)[2]);
    assert(f[3] == hex4(n as int)[3]);
    assert(prefix_is_hex(f));
    assert(prefix_value(f) == n);
    assert(f.subrange(4, n as int) =~= payload);
}

/// Law: any line whose payload fits on the wire decodes back from its own
/// frame, to the same line and consuming exactly the frame.
pub proof fn lemma_line_round_trip(l: Borrowed)
    requires
        crate::line_fits(l),
    ensures
        spec_decode(crate::line_frame(l)) == Ok::<(SpecLine, int), ProtocolError>(
            (line_model(l), crate::line_frame(l).len() as int),
        ),
{
    match l {
        Borrowed::Data(d) => {
            lemma_round_trip(d@);
        },
        Borrowed::Flush => {
            lemma_hex4_roundtrip(0);
        },
        Borrowed::Delimiter => {
            lemma_hex4_roundtrip(1);
        },
        Borrowed::ResponseEnd => {
            lemma_hex4_roundtrip(2);
        },
    }
}

/// Law: a truncated source decodes to `UnexpectedEof` and yields no line —
/// whether fewer than the four prefix bytes remain, or a well-formed data
/// prefix declares more bytes than remain.
pub proof fn lemma_truncated_decode(src: Seq<u8>)
    requires
        src.len() < 4 || (prefix_is_hex(src) && 4 <= prefix_value(src) && prefix_value(src)
            <= MAX_LINE_LEN as int && src.len() < prefix_value(src)),
    ensures
        spec_decode(src) == Err::<(SpecLine, int), ProtocolError>(ProtocolError::UnexpectedEof),
{
}

} // verus!
