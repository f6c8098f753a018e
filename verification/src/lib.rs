//! The packet-line wire format: length-prefixed lines carrying opaque data
//! payloads or structural control marks, a remote-error convention on top of
//! data lines, and a side-band convention that multiplexes three sub-streams
//! over the single data channel.
use vstd::prelude::*;

pub mod decode;
pub mod encode;
pub mod hex;

use vstd::pervasive::unreached;
use vstd::slice::{slice_index_get, slice_subrange};

verus! {

/// Number of bytes in the hex length prefix of every frame.
pub const U16_HEX_BYTES: usize = 4;

/// Greatest number of payload bytes one data line may carry.
pub const MAX_DATA_LEN: usize = 65516;

/// Greatest total frame length a line may declare, the length prefix included.
pub const MAX_LINE_LEN: usize = MAX_DATA_LEN + U16_HEX_BYTES;

/// Everything that can go wrong while encoding, decoding or demultiplexing a
/// packet line.
#[derive(PartialEq, Eq, Debug, Hash, Ord, PartialOrd, Clone, Copy)]
pub enum ProtocolError {
    /// The source ended inside the length prefix or inside the payload.
    UnexpectedEof,
    /// A byte of the four-byte length prefix is no hex digit.
    InvalidLengthPrefix,
    /// The frame declared the reserved total length three.
    ReservedLength,
    /// The frame declared a total length over `MAX_LINE_LEN`.
    LineTooLong,
    /// An encoder was handed a payload over the relevant cap.
    PayloadTooLarge,
    /// A side-band payload was empty or began with an unknown channel byte.
    InvalidChannel,
}

/// One packet line, with the payload borrowed from the caller's buffer.
#[derive(PartialEq, Eq, Debug, Hash, Ord, PartialOrd, Clone, Copy)]
pub enum Borrowed<'a> {
    /// A line carrying up to `MAX_DATA_LEN` opaque payload bytes.
    Data(&'a [u8]),
    /// The frame of total length zero: end of a logical unit.
    Flush,
    /// The frame of total length one: a section boundary within one unit.
    Delimiter,
    /// The frame of total length two: end of an entire response.
    ResponseEnd,
}

/// A remote-error message taken from a data line's payload.
#[derive(PartialEq, Eq, Debug, Hash, Ord, PartialOrd, Clone, Copy)]
pub struct Error<'a>(&'a [u8]);

/// One side-band frame's worth of a sub-stream.
#[derive(PartialEq, Eq, Debug, Hash, Ord, PartialOrd, Clone, Copy)]
pub enum Band<'a> {
    /// Primary payload bytes.
    Data(&'a [u8]),
    /// Human-readable progress text.
    Progress(&'a [u8]),
    /// Human-readable error text.
    Error(&'a [u8]),
}

/// The three side-band sub-streams.
#[derive(PartialEq, Eq, Debug, Hash, Ord, PartialOrd, Clone, Copy)]
pub enum Channel {
    /// The primary data stream, selected by channel byte one.
    Data,
    /// The progress stream, selected by channel byte two.
    Progress,
    /// The error-text stream, selected by channel byte three.
    Error,
}

/// Declares the byte-string type of the `bstr` crate, so that `&BStr` can
/// stand in signatures; the verifier sees nothing inside a value of it.
#[verifier::external_type_specification]
#[verifier::external_body]
pub struct ExBStr(bstr::BStr);

/// Relies on bstr's `From<&[u8]> for &BStr`, which wraps the given bytes as a
/// byte string without changing them.
#[verifier::external_body]
fn bytes_as_bstr(b: &[u8]) -> &bstr::BStr {
    b.into()
}

/// The payload bytes a line carries: data lines carry their payload, control
/// lines carry nothing.
pub open spec fn line_payload(l: Borrowed) -> Seq<u8> {
    match l {
        Borrowed::Data(d) => d@,
        _ => Seq::<u8>::empty(),
    }
}

/// Whether a line's payload fits on the wire.
pub open spec fn line_fits(l: Borrowed) -> bool {
    line_payload(l).len() <= MAX_DATA_LEN as int
}

/// The wire bytes of one line.
pub open spec fn line_frame(l: Borrowed) -> Seq<u8> {
    match l {
        Borrowed::Data(d) => encode::data_frame(d@),
        Borrowed::Flush => hex::hex4(0),
        Borrowed::Delimiter => hex::hex4(1),
        Borrowed::ResponseEnd => hex::hex4(2),
    }
}

/// The wire byte selecting a channel.
pub open spec fn channel_byte(c: Channel) -> u8 {
    match c {
        Channel::Data => 1,
        Channel::Progress => 2,
        Channel::Error => 3,
    }
}

/// The channel a band belongs to.
pub open spec fn band_channel(b: Band) -> Channel {
    match b {
        Band::Data(_) => Channel::Data,
        Band::Progress(_) => Channel::Progress,
        Band::Error(_) => Channel::Error,
    }
}

/// The sub-payload a band carries.
pub open spec fn band_payload(b: Band) -> Seq<u8> {
    match b {
        Band::Data(d) => d@,
        Band::Progress(d) => d@,
        Band::Error(d) => d@,
    }
}

/// Whether a data payload opens a well-formed side-band frame: at least the
/// channel byte, and that byte selecting one of the three channels.
pub open spec fn valid_band(d: Seq<u8>) -> bool {
    d.len() >= 1 && (d[0] == 1 || d[0] == 2 || d[0] == 3)
}

impl<'a> Borrowed<'a> {
    /// Appends this line's wire bytes to `out` and says how many were
    /// written; a data payload over `MAX_DATA_LEN` bytes is refused and the
    /// sink is untouched.
    pub fn to_write(&self, out: &mut Vec<u8>) -> (r: Result<usize, ProtocolError>)
        ensures
            line_fits(*self) ==> (r matches Ok(n) && n as int == line_frame(*self).len()
                && final(out)@ == old(out)@ + line_frame(*self)),
            !line_fits(*self) ==> r == Err::<usize, ProtocolError>(ProtocolError::PayloadTooLarge)
                && final(out)@ == old(out)@,
    {
        match self {
            Borrowed::Data(d) => encode::data_to_write(d, out),
            Borrowed::Flush => Ok(encode::flush_to_write(out)),
            Borrowed::Delimiter => Ok(encode::delim_to_write(out)),
            Borrowed::ResponseEnd => Ok(encode::response_end_to_write(out)),
        }
    }

    /// The payload of a data line, or an empty slice for a control line.
    pub fn as_slice(&self) -> (r: &[u8])
        ensures
            r@ == line_payload(*self),
    {
        match self {
            Borrowed::Data(d) => d,
            _ => &[],
        }
    }

    /// This line's payload as a byte string of the `bstr` crate.
    pub fn as_bstr(&self) -> &bstr::BStr {
        bytes_as_bstr(self.as_slice())
    }

    /// Reinterprets this line's payload as a remote-error message.
    pub fn to_error(&self) -> (r: Error)
        ensures
            r@ == line_payload(*self),
    {
        Error(self.as_slice())
    }

    /// Wraps this data line's whole payload as one band of the given channel.
    pub fn to_band(&self, kind: Channel) -> (r: Band)
        requires
            (*self) is Data,
        ensures
            band_channel(r) == kind,
            band_payload(r) == line_payload(*self),
    {
        let d: &[u8] = match self {
            Borrowed::Data(d) => d,
            _ => unreached(),
        };
        match kind {
            Channel::Data => Band::Data(d),
            Channel::Progress => Band::Progress(d),
            Channel::Error => Band::Error(d),
        }
    }

    /// Splits this data line's payload into its channel and sub-payload. An
    /// empty payload, or a first byte that selects no channel, is refused
    /// with `InvalidChannel`.
    pub fn decode_band(&self) -> (r: Result<Band, ProtocolError>)
        requires
            (*self) is Data,
        ensures
            !valid_band(line_payload(*self)) ==> r == Err::<Band, ProtocolError>(
                ProtocolError::InvalidChannel,
            ),
            valid_band(line_payload(*self)) ==> (r matches Ok(b) && channel_byte(band_channel(b))
                == line_payload(*self)[0] && band_payload(b) == line_payload(*self).subrange(
                1,
                line_payload(*self).len() as int,
            )),
    {
        let d: &[u8] = match self {
            Borrowed::Data(d) => d,
            _ => unreached(),
        };
        if d.len() == 0 {
            return Err(ProtocolError::InvalidChannel);
        }
        let channel = *slice_index_get(d, 0);
        let rest = slice_subrange(d, 1, d.len());
        if channel == 1 {
            Ok(Band::Data(rest))
        } else if channel == 2 {
            Ok(Band::Progress(rest))
        } else if channel == 3 {
            Ok(Band::Error(rest))
        } else {
            Err(ProtocolError::InvalidChannel)
        }
    }
}

impl<'a> View for Error<'a> {
    type V = Seq<u8>;

    closed spec fn view(&self) -> Seq<u8> {
        self.0@
    }
}

impl<'a> Error<'a> {
    /// Appends this message as one error line to `out` and says how many
    /// bytes were written; a message that would push the payload over
    /// `MAX_DATA_LEN` bytes is refused and the sink is untouched.
    pub fn to_write(&self, out: &mut Vec<u8>) -> (r: Result<usize, ProtocolError>)
        ensures
            self@.len() + 4 <= MAX_DATA_LEN as int ==> (r matches Ok(n) && n as int == self@.len()
                + 8 && final(out)@ == old(out)@ + encode::error_frame(self@)),
            self@.len() + 4 > MAX_DATA_LEN as int ==> r == Err::<usize, ProtocolError>(
                ProtocolError::PayloadTooLarge,
            ) && final(out)@ == old(out)@,
    {
        encode::error_to_write(self.0, out)
    }
}

impl<'a> Band<'a> {
    /// Appends this band as one side-band frame to `out` and says how many
    /// bytes were written; a sub-payload that would push the payload over
    /// `MAX_DATA_LEN` bytes is refused and the sink is untouched.
    pub fn to_write(&self, out: &mut Vec<u8>) -> (r: Result<usize, ProtocolError>)
        ensures
            band_payload(*self).len() + 1 <= MAX_DATA_LEN as int ==> (r matches Ok(n) && n as int
                == band_payload(*self).len() + 5 && final(out)@ == old(out)@ + encode::band_frame(
                band_channel(*self),
                band_payload(*self),
            )),
            band_payload(*self).len() + 1 > MAX_DATA_LEN as int ==> r == Err::<
                usize,
                ProtocolError,
            >(ProtocolError::PayloadTooLarge) && final(out)@ == old(out)@,
    {
        match self {
            Band::Data(d) => encode::band_to_write(Channel::Data, d, out),
            Band::Progress(d) => encode::band_to_write(Channel::Progress, d, out),
            Band::Error(d) => encode::band_to_write(Channel::Error, d, out),
        }
    }
}

impl Channel {
    /// The wire byte this channel is selected by.
    pub fn to_byte(&self) -> (r: u8)
        ensures
            r == channel_byte(*self),
    {
        match self {
            Channel::Data => 1,
            Channel::Progress => 2,
            Channel::Error => 3,
        }
    }

    /// The channel a wire byte selects, or `None` for any other byte.
    pub fn from_byte(b: u8) -> (r: Option<Channel>)
        ensures
            r is Some <==> (b == 1 || b == 2 || b == 3),
            r matches Some(c) ==> channel_byte(c) == b,
    {
        if b == 1 {
            Some(Channel::Data)
        } else if b == 2 {
            Some(Channel::Progress)
        } else if b == 3 {
            Some(Channel::Error)
        } else {
            None
        }
    }
}

} // verus!
