use packetline::decode::{decode, parse_length};
use packetline::encode::{band_to_write, data_to_write, error_to_write};
use packetline::{Band, Borrowed, Channel, ProtocolError, MAX_DATA_LEN, MAX_LINE_LEN};

#[test]
fn constants_expose_the_wire_caps() {
    assert_eq!(MAX_DATA_LEN, 65516);
    assert_eq!(MAX_LINE_LEN, 65520);
}

#[test]
fn encode_data_hello() {
    let mut out = Vec::new();
    let written = Borrowed::Data(b"hello").to_write(&mut out).unwrap();
    assert_eq!(written, 9);
    assert_eq!(out.as_slice(), b"0009hello");
}

#[test]
fn encode_control_lines() {
    let mut out = Vec::new();
    assert_eq!(Borrowed::Flush.to_write(&mut out).unwrap(), 4);
    assert_eq!(out.as_slice(), b"0000");

    let mut out = Vec::new();
    assert_eq!(Borrowed::Delimiter.to_write(&mut out).unwrap(), 4);
    assert_eq!(out.as_slice(), b"0001");

    let mut out = Vec::new();
    assert_eq!(Borrowed::ResponseEnd.to_write(&mut out).unwrap(), 4);
    assert_eq!(out.as_slice(), b"0002");
}

#[test]
fn decode_single_byte_and_empty_data_lines() {
    let (line, used) = decode(b"0005a").unwrap();
    assert_eq!(line, Borrowed::Data(b"a"));
    assert_eq!(used, 5);

    let (line, used) = decode(b"0004").unwrap();
    assert_eq!(line, Borrowed::Data(b""));
    assert_eq!(used, 4);
    assert_ne!(line, Borrowed::Flush);
}

#[test]
fn decode_control_lines() {
    assert_eq!(decode(b"0000").unwrap(), (Borrowed::Flush, 4));
    assert_eq!(decode(b"0001").unwrap(), (Borrowed::Delimiter, 4));
    assert_eq!(decode(b"0002").unwrap(), (Borrowed::ResponseEnd, 4));
}

#[test]
fn decode_reserved_length() {
    assert_eq!(decode(b"0003"), Err(ProtocolError::ReservedLength));
}

#[test]
fn decode_accepts_uppercase_hex() {
    let (line, used) = decode(b"000Bfun bytes").unwrap();
    assert_eq!(line, Borrowed::Data(b"fun byt"));
    assert_eq!(used, 11);
}

#[test]
fn decode_rejects_non_hex_prefix() {
    assert_eq!(decode(b"00z1rest"), Err(ProtocolError::InvalidLengthPrefix));
    assert_eq!(decode(b"-001rest"), Err(ProtocolError::InvalidLengthPrefix));
}

#[test]
fn decode_boundary_lengths() {
    let mut wire = Vec::from(&b"fff0"[..]);
    wire.extend(std::iter::repeat(7u8).take(65516));
    let (line, used) = decode(&wire).unwrap();
    assert_eq!(used, 65520);
    match line {
        Borrowed::Data(d) => {
            assert_eq!(d.len(), 65516);
            assert!(d.iter().all(|&b| b == 7));
        }
        _ => panic!("expected a data line"),
    }

    let mut wire = Vec::from(&b"fff1"[..]);
    wire.extend(std::iter::repeat(7u8).take(65517));
    assert_eq!(decode(&wire), Err(ProtocolError::LineTooLong));
    // The prefix alone already settles it; no payload byte is needed.
    assert_eq!(parse_length(b"fff1"), Err(ProtocolError::LineTooLong));
    assert_eq!(parse_length(b"ffff"), Err(ProtocolError::LineTooLong));
}

#[test]
fn decode_truncated_sources() {
    assert_eq!(decode(b""), Err(ProtocolError::UnexpectedEof));
    assert_eq!(decode(b"0"), Err(ProtocolError::UnexpectedEof));
    assert_eq!(decode(b"000"), Err(ProtocolError::UnexpectedEof));
    assert_eq!(decode(b"0008ab"), Err(ProtocolError::UnexpectedEof));
    assert_eq!(decode(b"0005"), Err(ProtocolError::UnexpectedEof));
}

#[test]
fn round_trip_various_payload_lengths() {
    for len in [0usize, 1, 2, 5, 255, 256, 4096, 65516] {
        let payload: Vec<u8> = (0..len).map(|i| (i % 251) as u8).collect();
        let mut wire = Vec::new();
        let written = Borrowed::Data(&payload).to_write(&mut wire).unwrap();
        assert_eq!(written, len + 4);
        assert_eq!(wire.len(), len + 4);
        let (line, used) = decode(&wire).unwrap();
        assert_eq!(used, len + 4);
        assert_eq!(line, Borrowed::Data(&payload));
    }
}

#[test]
fn encode_rejects_oversized_payloads() {
    let payload = vec![0u8; 65517];
    let mut out = vec![9u8];
    assert_eq!(
        Borrowed::Data(&payload).to_write(&mut out),
        Err(ProtocolError::PayloadTooLarge)
    );
    assert_eq!(out.as_slice(), &[9u8], "a refused payload must leave the sink untouched");
    assert_eq!(data_to_write(&payload, &mut out), Err(ProtocolError::PayloadTooLarge));

    let message = vec![b'x'; 65513];
    assert_eq!(error_to_write(&message, &mut out), Err(ProtocolError::PayloadTooLarge));

    let message = vec![b'x'; 65516];
    assert_eq!(
        band_to_write(Channel::Data, &message, &mut out),
        Err(ProtocolError::PayloadTooLarge)
    );
    assert_eq!(out.as_slice(), &[9u8]);
}

#[test]
fn encode_error_line() {
    let mut out = Vec::new();
    let written = error_to_write(b"bad ref", &mut out).unwrap();
    assert_eq!(written, 15);
    assert_eq!(out.as_slice(), b"000fERR bad ref");
}

#[test]
fn to_error_then_write_round_trips_through_the_marker() {
    let mut out = Vec::new();
    let written = Borrowed::Data(b"it did not work")
        .to_error()
        .to_write(&mut out)
        .unwrap();
    assert_eq!(written, 23);
    assert_eq!(out.as_slice(), b"0017ERR it did not work");
}

#[test]
fn decode_band_splits_the_three_channels() {
    assert_eq!(
        Borrowed::Data(b"\x01payload").decode_band(),
        Ok(Band::Data(b"payload"))
    );
    assert_eq!(Borrowed::Data(b"\x02msg").decode_band(), Ok(Band::Progress(b"msg")));
    assert_eq!(Borrowed::Data(b"\x03err").decode_band(), Ok(Band::Error(b"err")));
}

#[test]
fn decode_band_rejects_empty_and_unknown_channels() {
    assert_eq!(Borrowed::Data(b"").decode_band(), Err(ProtocolError::InvalidChannel));
    assert_eq!(
        Borrowed::Data(b"\x04x").decode_band(),
        Err(ProtocolError::InvalidChannel)
    );
    assert_eq!(
        Borrowed::Data(b"\x00x").decode_band(),
        Err(ProtocolError::InvalidChannel)
    );
}

#[test]
fn to_band_wraps_the_whole_payload() {
    let line = Borrowed::Data(b"raw");
    assert_eq!(line.to_band(Channel::Data), Band::Data(b"raw"));
    assert_eq!(line.to_band(Channel::Progress), Band::Progress(b"raw"));
    assert_eq!(line.to_band(Channel::Error), Band::Error(b"raw"));
}

#[test]
fn band_to_write_prepends_the_channel_byte() {
    let mut out = Vec::new();
    assert_eq!(Band::Data(b"payload").to_write(&mut out).unwrap(), 12);
    assert_eq!(out.as_slice(), b"000c\x01payload");

    let mut out = Vec::new();
    assert_eq!(Band::Progress(b"msg").to_write(&mut out).unwrap(), 8);
    assert_eq!(out.as_slice(), b"0008\x02msg");

    let mut out = Vec::new();
    assert_eq!(Band::Error(b"err").to_write(&mut out).unwrap(), 8);
    assert_eq!(out.as_slice(), b"0008\x03err");
}

#[test]
fn band_round_trip_through_the_wire() {
    let mut wire = Vec::new();
    Band::Progress(b"half done").to_write(&mut wire).unwrap();
    let (line, used) = decode(&wire).unwrap();
    assert_eq!(used, wire.len());
    assert_eq!(line.decode_band(), Ok(Band::Progress(b"half done")));
}

#[test]
fn channel_byte_mapping_is_bidirectional() {
    assert_eq!(Channel::Data.to_byte(), 1);
    assert_eq!(Channel::Progress.to_byte(), 2);
    assert_eq!(Channel::Error.to_byte(), 3);
    for c in [Channel::Data, Channel::Progress, Channel::Error] {
        assert_eq!(Channel::from_byte(c.to_byte()), Some(c));
    }
    assert_eq!(Channel::from_byte(0), None);
    assert_eq!(Channel::from_byte(4), None);
}

#[test]
fn as_slice_exposes_the_payload() {
    assert_eq!(Borrowed::Data(b"abc").as_slice(), b"abc");
    assert_eq!(Borrowed::Flush.as_slice(), b"");
    assert_eq!(Borrowed::Delimiter.as_slice(), b"");
    assert_eq!(Borrowed::ResponseEnd.as_slice(), b"");
}

#[test]
fn as_bstr_wraps_the_payload_bytes() {
    let line = Borrowed::Data(b"hi there");
    assert_eq!(line.as_bstr(), bstr::BStr::new(b"hi there"));
    assert_eq!(Borrowed::Flush.as_bstr(), bstr::BStr::new(b""));
}

#[test]
fn parse_length_validates_without_payload() {
    assert_eq!(parse_length(b"0000"), Ok(0));
    assert_eq!(parse_length(b"0001"), Ok(1));
    assert_eq!(parse_length(b"0002"), Ok(2));
    assert_eq!(parse_length(b"0003"), Err(ProtocolError::ReservedLength));
    assert_eq!(parse_length(b"0004"), Ok(4));
    assert_eq!(parse_length(b"fff0"), Ok(65520));
    assert_eq!(parse_length(b"00"), Err(ProtocolError::UnexpectedEof));
    assert_eq!(parse_length(b"00!0"), Err(ProtocolError::InvalidLengthPrefix));
    // Extra bytes past the prefix do not disturb it.
    assert_eq!(parse_length(b"0009hello"), Ok(9));
}
