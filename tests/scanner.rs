use robomaster_s1_proto::proto::{parse_frame, ParseError};

#[test]
fn test_no_sof() {
    let buffer = [0x00, 0x00, 0x0E, 0x04, 0x66, 0x09, 0x03, 0x4E, 0x06];
    let result = parse_frame(&buffer);
    assert_eq!(result, Err(ParseError::NoStartOfFrame));
}

#[test]
fn test_header_not_enough_data() {
    // Three of the four header bytes are there: one more completes it.
    let buffer = [0x00, 0x55, 0x0E, 0x04];
    let result = parse_frame(&buffer);
    assert_eq!(result, Err(ParseError::NeedMoreData(1, 1)));
}

#[test]
fn test_header_invalid_crc() {
    let buffer = [0x00, 0x55, 0x0E, 0x00, 0x66, 0x09, 0x03, 0x4E, 0x06];
    let result = parse_frame(&buffer);
    assert_eq!(result, Err(ParseError::InvalidHeaderCRC(4)));
}

#[test]
fn test_need_more_data() {
    let buffer = [0x00, 0x55, 0x0E, 0x04, 0x66, 0x09, 0x03, 0x4E, 0x06];
    let result = parse_frame(&buffer);
    assert_eq!(result, Err(ParseError::NeedMoreData(6, 1)));
}

#[test]
fn test_full_parse() {
    let input = [
        0x00, 0x55, 0x0E, 0x04, 0x66, 0x09, 0x03, 0x4E, 0x06, 0xA0, 0x48, 0x08, 0x01, 0xC2,
        0xE8,
    ];

    let result = parse_frame(&input);

    assert_eq!(result, Ok((&input[1..], input.len())));
}

#[test]
fn test_stream_state_machine() {
    let mut buffer = [0u8; 64];
    let input1 = [0x00, 0x55, 0x0E, 0x04, 0x66, 0x09, 0x03, 0x4E, 0x06];
    let input2 = [0xA0, 0x48, 0x08, 0x01, 0xC2, 0xE8];

    let result = parse_frame(&input1);
    assert_eq!(result, Err(ParseError::NeedMoreData(6, 1)));

    buffer[..input1.len()].copy_from_slice(&input1);
    buffer[input1.len()..input1.len() + 6].copy_from_slice(&input2);

    let result = parse_frame(&buffer);
    assert_eq!(result, Ok((&buffer[1..0xF], 0xF)));
}
