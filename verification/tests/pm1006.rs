use airmon::pm1006::{encode_request, parse_response, Error};

// A response frame carrying the reading 34 (0x22 in DF4): header 0x16,
// 16 data bytes starting with the command echo 0x0b, and the trailing
// byte 0xD4 that brings the 8-bit wrapping sum of header, length and data
// (0x2C) to zero.
fn good_response() -> [u8; 19] {
    [
        0x16, 0x10, 0x0B, 0x00, 0x00, 0x00, 0x22, 0x00, 0x00, 0x03, 0xA7, 0x00, 0x00, 0x00, 0x2D,
        0x02, 0x00, 0x00, 0xD4,
    ]
}

/// Test the get_serial_number function
#[test]
fn test_parse_response() {
    let response: [u8; 19] = good_response();
    let result = parse_response(&response);
    assert!(result.is_ok());
    assert!(result.unwrap() == 34);
}

#[test]
fn test_parse_response_longer_frame() {
    let response: [u8; 20] = [
        0x16, 0x11, 0x0b, 0x00, 0x00, 0x00, 0x03, 0x00, 0x00, 0x03, 0x7e, 0x00, 0x00, 0x00, 0x19,
        0x02, 0x00, 0x00, 0x16, 0x19,
    ];
    let result = parse_response(&response);
    assert!(result.is_ok());
    assert_eq!(result.unwrap(), 3);
}

#[test]
fn test_invalid_header() {
    let mut response = good_response();
    response[0] = 0x15;
    assert_eq!(parse_response(&response), Err(Error::InvalidHeader(0x15)));
    response[0] = 0xFF;
    assert_eq!(parse_response(&response), Err(Error::InvalidHeader(0xFF)));
}

#[test]
fn test_invalid_command_response() {
    let mut response = good_response();
    response[2] = 0x0c;
    assert_eq!(
        parse_response(&response),
        Err(Error::InvalidCommandResponse(0x0c))
    );
}

#[test]
fn test_invalid_checksum_on_flipped_data_byte() {
    // Flip each data byte after the command echo in turn (the data frame
    // is indices 2..18): every flip must be caught by the checksum.
    for index in 3..18 {
        let mut bad = good_response();
        bad[index] ^= 0x01;
        match parse_response(&bad) {
            Err(Error::InvalidChecksum(diff)) => assert_ne!(diff, 0),
            other => panic!("flip at {} not caught: {:?}", index, other),
        }
    }
}

#[test]
fn test_invalid_checksum_diff_value() {
    let mut response = good_response();
    // 0x22 -> 0x23 raises the wrapping sum by exactly 1.
    response[6] = 0x23;
    assert_eq!(parse_response(&response), Err(Error::InvalidChecksum(1)));
}

#[test]
fn test_invalid_checksum_wrong_trailing_byte() {
    let mut response = good_response();
    response[18] = 0x0C;
    assert_eq!(
        parse_response(&response),
        Err(Error::InvalidChecksum(0x38))
    );
}

#[test]
fn test_encode_request() {
    let frame = encode_request();
    assert_eq!(frame, vec![0x11, 0x02, 0x0b, 0x01, 0xe1]);
    let sum = frame
        .iter()
        .fold(0u8, |acc, byte| acc.wrapping_add(*byte));
    assert_eq!(sum, 0);
}
