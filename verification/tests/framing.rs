use mysql_cdc::commands::query_command::QueryCommand;
use mysql_cdc::constants::checksum_type::ChecksumType;
use mysql_cdc::constants::{CHECKSUM_SIZE, EVENT_HEADER_SIZE, MAX_PACKET_LENGTH, PACKET_HEADER_SIZE};
use mysql_cdc::errors::Error;
use mysql_cdc::packet_channel::{packet_header, read_packet_header, write_packet};
use mysql_cdc::responses::error_packet::{check_error_packet, ErrorPacket};
use mysql_cdc::responses::result_set_row_packet::{
    read_len_enc_num, read_len_enc_str, ResultSetRowPacket,
};

fn protocol_message(error: &Error) -> Option<String> {
    match error {
        Error::String(message) => Some(message.clone()),
        _ => None,
    }
}

#[test]
fn constants_have_protocol_sizes() {
    assert_eq!(PACKET_HEADER_SIZE, 4);
    assert_eq!(EVENT_HEADER_SIZE, 19);
    assert_eq!(CHECKSUM_SIZE, 4);
    assert_eq!(MAX_PACKET_LENGTH, 16_777_215);
}

#[test]
fn packet_header_is_read_little_endian() {
    assert_eq!(read_packet_header(&[0x01, 0x02, 0x03, 0x07]), (0x030201, 7));
    assert_eq!(read_packet_header(&[0, 0, 0, 0]), (0, 0));
    assert_eq!(read_packet_header(&[0xFF, 0xFF, 0xFF, 0xFF]), (MAX_PACKET_LENGTH, 255));
    assert_eq!(read_packet_header(&[0x40, 0x42, 0x0F, 1]), (1_000_000, 1));
}

#[test]
fn packet_header_is_written_little_endian() {
    assert_eq!(packet_header(1_000_000, 9).unwrap(), [0x40, 0x42, 0x0F, 9]);
    assert_eq!(packet_header(0, 0).unwrap(), [0, 0, 0, 0]);
    assert_eq!(packet_header(5, 1).unwrap(), [5, 0, 0, 1]);
    assert_eq!(packet_header(MAX_PACKET_LENGTH, 2).unwrap(), [0xFF, 0xFF, 0xFF, 2]);
}

#[test]
fn packet_header_round_trips() {
    for length in [0usize, 1, 255, 256, 65_535, 65_536, 1_234_567, MAX_PACKET_LENGTH] {
        for seq_num in [0u8, 1, 200, 255] {
            let header = packet_header(length, seq_num).unwrap();
            assert_eq!(read_packet_header(&header), (length, seq_num));
        }
    }
}

#[test]
fn packet_header_refuses_too_long_payload() {
    let error = packet_header(MAX_PACKET_LENGTH + 1, 0).unwrap_err();
    assert_eq!(protocol_message(&error).unwrap(), "The packet is too long");
}

#[test]
fn write_packet_puts_header_before_payload() {
    let bytes = write_packet(&[0x03, b'a', b'b'], 4).unwrap();
    assert_eq!(bytes, vec![3, 0, 0, 4, 0x03, b'a', b'b']);
    let empty = write_packet(&[], 1).unwrap();
    assert_eq!(empty, vec![0, 0, 0, 1]);
}

#[test]
fn write_packet_refuses_too_long_payload() {
    let payload = vec![0u8; MAX_PACKET_LENGTH + 1];
    let error = write_packet(&payload, 0).unwrap_err();
    assert_eq!(protocol_message(&error).unwrap(), "The packet is too long");
}

#[test]
fn query_command_serializes_code_and_text() {
    let command = QueryCommand::new("show master status".to_string());
    let mut expected = vec![0x03u8];
    expected.extend_from_slice(b"show master status");
    assert_eq!(command.serialize(), expected);
    assert_eq!(QueryCommand::new(String::new()).serialize(), vec![0x03u8]);
}

#[test]
fn checksum_type_from_code() {
    assert_eq!(ChecksumType::from_code(0).unwrap(), ChecksumType::NONE);
    assert_eq!(ChecksumType::from_code(1).unwrap(), ChecksumType::CRC32);
    for code in [2u8, 3, 100, 255] {
        let error = ChecksumType::from_code(code).unwrap_err();
        assert_eq!(
            protocol_message(&error).unwrap(),
            "The master checksum type is not supported"
        );
    }
}

#[test]
fn checksum_type_from_name() {
    assert_eq!(ChecksumType::from_name(&"NONE".to_string()).unwrap(), ChecksumType::NONE);
    assert_eq!(ChecksumType::from_name(&"CRC32".to_string()).unwrap(), ChecksumType::CRC32);
    for name in ["", "crc32", "none", "CRC64", "NONE "] {
        let error = ChecksumType::from_name(&name.to_string()).unwrap_err();
        assert_eq!(
            protocol_message(&error).unwrap(),
            "The master checksum type is not supported"
        );
    }
}

#[test]
fn checksum_type_code_and_trailer() {
    assert_eq!(ChecksumType::NONE.code(), 0);
    assert_eq!(ChecksumType::CRC32.code(), 1);
    assert_eq!(ChecksumType::NONE.trailer_len(), 0);
    assert_eq!(ChecksumType::CRC32.trailer_len(), 4);
}

#[test]
fn error_packet_with_sql_state() {
    let mut bytes = vec![0xD4u8, 0x04];
    bytes.extend_from_slice(b"#HY000Could not find first log file name");
    let packet = ErrorPacket::parse(&bytes).unwrap();
    assert_eq!(packet.error_code, 1236);
    assert_eq!(packet.sql_state.as_deref(), Some("HY000"));
    assert_eq!(packet.error_message, "Could not find first log file name");
    assert_eq!(
        packet.text(),
        "error_code: 1236, sql_state: HY000, error_message: Could not find first log file name"
    );
}

#[test]
fn error_packet_without_sql_state() {
    let mut bytes = vec![0x01u8, 0x00];
    bytes.extend_from_slice(b"denied");
    let packet = ErrorPacket::parse(&bytes).unwrap();
    assert_eq!(packet.error_code, 1);
    assert_eq!(packet.sql_state, None);
    assert_eq!(packet.error_message, "denied");
    assert_eq!(packet.text(), "error_code: 1, sql_state: , error_message: denied");
}

#[test]
fn error_packet_with_short_sql_state() {
    let packet = ErrorPacket::parse(&[0x00, 0x01, b'#', b'4', b'2']).unwrap();
    assert_eq!(packet.error_code, 256);
    assert_eq!(packet.sql_state.as_deref(), Some("42"));
    assert_eq!(packet.error_message, "");
    let bare = ErrorPacket::parse(&[0x00, 0x00]).unwrap();
    assert_eq!(bare.error_code, 0);
    assert_eq!(bare.sql_state, None);
    assert_eq!(bare.error_message, "");
}

#[test]
fn error_packet_counts_characters_not_bytes() {
    let mut bytes = vec![0x02u8, 0x00];
    bytes.extend_from_slice("#é2345rest".as_bytes());
    let packet = ErrorPacket::parse(&bytes).unwrap();
    assert_eq!(packet.sql_state.as_deref(), Some("é2345"));
    assert_eq!(packet.error_message, "rest");
}

#[test]
fn error_packet_failures() {
    let short = ErrorPacket::parse(&[0x01]).unwrap_err();
    assert_eq!(protocol_message(&short).unwrap(), "Unexpected end of the packet");
    let not_text = ErrorPacket::parse(&[0x01, 0x00, 0xFF, 0xFE]).unwrap_err();
    assert!(matches!(not_text, Error::FromUtf8Error(_)));
}

#[test]
fn check_error_packet_passes_other_packets() {
    assert!(check_error_packet(&[0x00, 1, 2], "Setting master heartbeat error.").is_ok());
    assert!(check_error_packet(&[0xFE], "Setting master heartbeat error.").is_ok());
}

#[test]
fn check_error_packet_reports_server_error() {
    let mut bytes = vec![0xFFu8, 0x28, 0x04];
    bytes.extend_from_slice(b"#42000syntax");
    let error = check_error_packet(&bytes, "Setting master heartbeat error.").unwrap_err();
    assert_eq!(
        protocol_message(&error).unwrap(),
        "Setting master heartbeat error. error_code: 1064, sql_state: 42000, error_message: syntax"
    );
}

#[test]
fn check_error_packet_refuses_empty_and_broken_packets() {
    let empty = check_error_packet(&[], "Reading result set error.").unwrap_err();
    assert_eq!(protocol_message(&empty).unwrap(), "Unexpected end of the packet");
    let broken = check_error_packet(&[0xFF, 0x01], "Reading result set error.").unwrap_err();
    assert_eq!(protocol_message(&broken).unwrap(), "Unexpected end of the packet");
}

#[test]
fn length_encoded_numbers() {
    assert_eq!(read_len_enc_num(&[0x00], 0).unwrap(), (0, 1));
    assert_eq!(read_len_enc_num(&[0xFA], 0).unwrap(), (250, 1));
    assert_eq!(read_len_enc_num(&[0xFF], 0).unwrap(), (255, 1));
    assert_eq!(read_len_enc_num(&[9, 0xFC, 0x34, 0x12], 1).unwrap(), (0x1234, 4));
    assert_eq!(read_len_enc_num(&[0xFD, 0x56, 0x34, 0x12], 0).unwrap(), (0x123456, 4));
    assert_eq!(
        read_len_enc_num(&[0xFE, 8, 7, 6, 5, 4, 3, 2, 1], 0).unwrap(),
        (0x0102030405060708, 9)
    );
}

#[test]
fn length_encoded_number_failures() {
    let null = read_len_enc_num(&[0xFB], 0).unwrap_err();
    assert_eq!(protocol_message(&null).unwrap(), "Length encoded integer cannot be NULL.");
    for bytes in [vec![], vec![0xFC, 1], vec![0xFD, 1, 2], vec![0xFE, 1, 2, 3, 4, 5, 6, 7]] {
        let error = read_len_enc_num(&bytes, 0).unwrap_err();
        assert_eq!(protocol_message(&error).unwrap(), "Unexpected end of the packet");
    }
    for at in [2usize, 3, usize::MAX] {
        let behind = read_len_enc_num(&[1, 2], at).unwrap_err();
        assert_eq!(protocol_message(&behind).unwrap(), "Unexpected end of the packet");
        let behind = read_len_enc_str(&[1, 2], at).unwrap_err();
        assert_eq!(protocol_message(&behind).unwrap(), "Unexpected end of the packet");
    }
}

#[test]
fn length_encoded_text() {
    assert_eq!(read_len_enc_str(&[3, b'a', b'b', b'c', 9], 0).unwrap(), ("abc".to_string(), 4));
    assert_eq!(read_len_enc_str(&[0], 0).unwrap(), (String::new(), 1));
    let short = read_len_enc_str(&[4, b'a', b'b', b'c'], 0).unwrap_err();
    assert_eq!(protocol_message(&short).unwrap(), "Unexpected end of the packet");
    let huge = read_len_enc_str(&[0xFE, 0xFF, 0xFF, 0xFF, 0xFF, 0xFF, 0xFF, 0xFF, 0xFF], 0)
        .unwrap_err();
    assert_eq!(protocol_message(&huge).unwrap(), "Unexpected end of the packet");
    let not_text = read_len_enc_str(&[1, 0xFF], 0).unwrap_err();
    assert!(matches!(not_text, Error::FromUtf8Error(_)));
}

#[test]
fn row_packet_reads_every_cell() {
    let mut bytes = vec![13u8];
    bytes.extend_from_slice(b"binlog.000005");
    bytes.push(3);
    bytes.extend_from_slice(b"154");
    bytes.push(0);
    let row = ResultSetRowPacket::parse(&bytes).unwrap();
    assert_eq!(row.cells, vec!["binlog.000005".to_string(), "154".to_string(), String::new()]);
    assert_eq!(ResultSetRowPacket::parse(&[]).unwrap().cells, Vec::<String>::new());
}

#[test]
fn row_packet_failures() {
    let cut = ResultSetRowPacket::parse(&[1, b'a', 5, b'b']).unwrap_err();
    assert_eq!(protocol_message(&cut).unwrap(), "Unexpected end of the packet");
    let null = ResultSetRowPacket::parse(&[1, b'a', 0xFB]).unwrap_err();
    assert_eq!(protocol_message(&null).unwrap(), "Length encoded integer cannot be NULL.");
}
