use zkteco::protocol::cmd;
use zkteco::protocol::request_data;
use zkteco::protocol::{
    check_not_event_tcp, check_not_event_udp, command_name, create_checksum, create_tcp_header,
    create_udp_header, decode_record_data_16, decode_record_data_40, decode_record_data_8,
    decode_record_rows, decode_tcp_header, decode_udp_header, decode_user_data_28,
    decode_user_data_72, decode_user_rows, extract_ascii_string, parse_zk_time, read_u16,
    read_u32, remove_tcp_header, RecordLayout, UserLayout, MAX_CHUNK, TCP_PREFIX, USHRT_MAX,
};

fn pack_time(y: u32, mo: u32, d: u32, h: u32, mi: u32, s: u32) -> u32 {
    ((((y - 2000) * 12 + (mo - 1)) * 31 + (d - 1)) * 24 + h) * 3600 + mi * 60 + s
}

fn zeroed_checksum(packet: &[u8]) -> u16 {
    let mut copy = packet.to_vec();
    copy[2] = 0;
    copy[3] = 0;
    create_checksum(&copy)
}

#[test]
fn constants_have_the_protocol_values() {
    assert_eq!(cmd::CMD_CONNECT, 1000);
    assert_eq!(cmd::CMD_EXIT, 1001);
    assert_eq!(cmd::CMD_AUTH, 1102);
    assert_eq!(cmd::CMD_PREPARE_DATA, 1500);
    assert_eq!(cmd::CMD_DATA, 1501);
    assert_eq!(cmd::CMD_FREE_DATA, 1502);
    assert_eq!(cmd::CMD_DATA_WRRQ, 1503);
    assert_eq!(cmd::CMD_DATA_RDY, 1504);
    assert_eq!(cmd::CMD_ATTLOG_RRQ, 13);
    assert_eq!(cmd::CMD_GET_FREE_SIZES, 50);
    assert_eq!(cmd::CMD_REG_EVENT, 500);
    assert_eq!(cmd::CMD_ACK_OK, 2000);
    assert_eq!(cmd::CMD_ACK_ERROR, 2001);
    assert_eq!(cmd::CMD_ACK_DATA, 2002);
    assert_eq!(cmd::CMD_ACK_UNAUTH, 2005);
    assert_eq!(cmd::CMD_ACK_ERROR_DATA, 0xFFFB);
    assert_eq!(cmd::CMD_ACK_UNKNOWN, 0xFFFF);
    assert_eq!(USHRT_MAX, 65535);
    assert_eq!(MAX_CHUNK, 65472);
    assert_eq!(TCP_PREFIX, [0x50, 0x50, 0x82, 0x7d]);
    assert_eq!(
        request_data::GET_USERS,
        [0x01, 0x09, 0x00, 0x05, 0x00, 0x00, 0x00, 0x00, 0x00, 0x00, 0x00]
    );
    assert_eq!(
        request_data::GET_ATTENDANCE_LOGS,
        [0x01, 0x0d, 0x00, 0x00, 0x00, 0x00, 0x00, 0x00, 0x00, 0x00, 0x00]
    );
    assert_eq!(request_data::DISABLE_DEVICE, [0, 0, 0, 0]);
}

#[test]
fn little_endian_reads() {
    let data = [0x34, 0x12, 0x78, 0x56, 0xff, 0xff, 0xff, 0xff];
    assert_eq!(read_u16(&data, 0), 0x1234);
    assert_eq!(read_u16(&data, 2), 0x5678);
    assert_eq!(read_u32(&data, 0), 0x5678_1234);
    assert_eq!(read_u32(&data, 4), 0xffff_ffff);
}

#[test]
fn checksum_of_empty_buffer() {
    assert_eq!(create_checksum(&[]), 65534);
}

#[test]
fn checksum_of_connect_header() {
    let buf = [0xe8, 0x03, 0x00, 0x00, 0x00, 0x00, 0x01, 0x00];
    assert_eq!(create_checksum(&buf), 65535 - 1001 - 1);
}

#[test]
fn checksum_counts_an_odd_last_byte_as_a_byte() {
    assert_eq!(create_checksum(&[0x01, 0x02, 0x07]), 65535 - (0x0201 + 7) - 1);
    assert_eq!(create_checksum(&[0x09]), 65535 - 9 - 1);
}

#[test]
fn checksum_sums_modulo_65535() {
    // 0xffff is 65535, which is 0 modulo 65535.
    assert_eq!(create_checksum(&[0xff, 0xff]), 65534);
    assert_eq!(create_checksum(&[0xff, 0xff, 0x01, 0x00]), 65533);
    assert_eq!(create_checksum(&[0xfe, 0xff, 0x02, 0x00]), 65533);
}

#[test]
fn connect_packet_over_udp() {
    let packet = create_udp_header(cmd::CMD_CONNECT, 0, 0, &[]);
    assert_eq!(packet, vec![0xe8, 0x03, 0x15, 0xfc, 0x00, 0x00, 0x01, 0x00]);
}

#[test]
fn connect_packet_over_tcp() {
    let packet = create_tcp_header(cmd::CMD_CONNECT, 0, 0, &[]);
    assert_eq!(
        packet,
        vec![
            0x50, 0x50, 0x82, 0x7d, 0x08, 0x00, 0x00, 0x00, 0xe8, 0x03, 0x15, 0xfc, 0x00, 0x00,
            0x01, 0x00
        ]
    );
}

#[test]
fn encoder_stores_the_checksum_of_the_zeroed_packet() {
    let payloads: Vec<Vec<u8>> = vec![
        vec![],
        vec![1],
        vec![1, 2, 3],
        vec![0xff; 17],
        (0..=255u8).collect(),
    ];
    for data in &payloads {
        for &(command, session, reply) in
            &[(1000u16, 0u16, 0u16), (1503, 0x1234, 7), (65535, 65535, 65535), (13, 1, 65534)]
        {
            let udp = create_udp_header(command, session, reply, data);
            assert_eq!(read_u16(&udp, 2), zeroed_checksum(&udp));
            let tcp = create_tcp_header(command, session, reply, data);
            assert_eq!(&tcp[8..], &udp[..]);
        }
    }
}

#[test]
fn wire_reply_id_is_one_more_modulo_65535() {
    for &(local, wire) in
        &[(0u16, 1u16), (1, 2), (41, 42), (65533, 65534), (65534, 0), (65535, 1)]
    {
        let udp = create_udp_header(cmd::CMD_FREE_DATA, 9, local, &[]);
        assert_eq!(read_u16(&udp, 6), wire);
        let tcp = create_tcp_header(cmd::CMD_FREE_DATA, 9, local, &[]);
        assert_eq!(read_u16(&tcp, 14), wire);
    }
}

#[test]
fn header_round_trip_over_udp() {
    let packet = create_udp_header(1503, 0xbeef, 41, &[9, 8, 7]);
    let header = decode_udp_header(&packet);
    assert_eq!(header.command_id, 1503);
    assert_eq!(header.session_id, 0xbeef);
    assert_eq!(header.reply_id, 42);
    assert_eq!(header.checksum, zeroed_checksum(&packet));
    assert_eq!(&packet[8..], &[9, 8, 7]);
}

#[test]
fn header_round_trip_over_tcp() {
    let packet = create_tcp_header(1102, 77, 2, &[1, 2, 3, 4]);
    let (header, inner_len) = decode_tcp_header(&packet);
    assert_eq!(header.command_id, 1102);
    assert_eq!(header.session_id, 77);
    assert_eq!(header.reply_id, 3);
    assert_eq!(header.checksum, zeroed_checksum(&packet[8..]));
    assert_eq!(inner_len, 12);
    assert_eq!(packet.len(), 8 + 12);
}

#[test]
fn envelope_removal_inverts_envelope_addition() {
    let data = [5u8, 6, 7, 8, 9];
    let tcp = create_tcp_header(1500, 3, 4, &data);
    let udp = create_udp_header(1500, 3, 4, &data);
    assert_eq!(remove_tcp_header(&tcp), &udp[..]);
}

#[test]
fn envelope_removal_leaves_other_buffers_alone() {
    let short = [0x50u8, 0x50, 0x82, 0x7d, 0, 0, 0];
    assert_eq!(remove_tcp_header(&short), &short[..]);
    let other = [0x51u8, 0x50, 0x82, 0x7d, 0, 0, 0, 0, 1, 2];
    assert_eq!(remove_tcp_header(&other), &other[..]);
    let bare = [0x50u8, 0x50, 0x82, 0x7d, 8, 0, 0, 0];
    assert_eq!(remove_tcp_header(&bare), &[] as &[u8]);
    assert_eq!(remove_tcp_header(&[]), &[] as &[u8]);
}

#[test]
fn event_datagrams_are_recognised() {
    let event = create_udp_header(cmd::CMD_REG_EVENT, 1, 1, &[1, 2]);
    assert!(check_not_event_udp(&event));
    let data = create_udp_header(cmd::CMD_DATA, 1, 1, &[1, 2]);
    assert!(!check_not_event_udp(&data));
    assert!(!check_not_event_udp(&[0xf4, 0x01, 0, 0]));
}

#[test]
fn event_stream_packets_are_recognised() {
    // The command alone makes a packet an event, whatever its session.
    let event = create_tcp_header(cmd::CMD_REG_EVENT, 1, 1, &[1, 2]);
    assert!(check_not_event_tcp(&event));
    let other_session = create_tcp_header(cmd::CMD_REG_EVENT, 2, 1, &[1, 2]);
    assert!(check_not_event_tcp(&other_session));
    assert!(check_not_event_tcp(&[0xf4, 0x01, 0, 0, 0, 0, 0, 0]));
    assert!(check_not_event_tcp(&[0xf4, 0x01, 0, 0, 1, 0]));
    for command in [cmd::CMD_DATA, cmd::CMD_ACK_OK, cmd::CMD_PREPARE_DATA] {
        let packet = create_tcp_header(command, 1, 1, &[1, 2]);
        assert!(!check_not_event_tcp(&packet));
        assert!(!check_not_event_tcp(&packet[8..]));
    }
    assert!(!check_not_event_tcp(&[0xf4, 0x01, 0, 0, 1]));
    assert!(!check_not_event_tcp(&[]));
}

#[test]
fn text_field_stops_at_the_first_nul_and_is_trimmed() {
    assert_eq!(extract_ascii_string(b"Alice\0\0\0"), "Alice");
    assert_eq!(extract_ascii_string(b"  Bob \0junk"), "Bob");
    assert_eq!(extract_ascii_string(b"NoNul"), "NoNul");
    assert_eq!(extract_ascii_string(b"\0abc"), "");
    assert_eq!(extract_ascii_string(b""), "");
    assert_eq!(extract_ascii_string(b"\t x y \r\n"), "x y");
}

#[test]
fn text_field_replaces_malformed_bytes() {
    assert_eq!(extract_ascii_string(&[b'a', 0xff, b'b', 0]), "a\u{fffd}b");
}

fn user_row_28(uid: u16, name: &[u8], user_id: u32) -> Vec<u8> {
    let mut row = vec![0u8; 28];
    row[0..2].copy_from_slice(&uid.to_le_bytes());
    row[8..8 + name.len()].copy_from_slice(name);
    row[24..28].copy_from_slice(&user_id.to_le_bytes());
    row
}

fn user_row_72(uid: u16, name: &[u8], user_id: &[u8]) -> Vec<u8> {
    let mut row = vec![0u8; 72];
    row[0..2].copy_from_slice(&uid.to_le_bytes());
    row[11..11 + name.len()].copy_from_slice(name);
    row[48..48 + user_id.len()].copy_from_slice(user_id);
    row
}

fn record_row_40(user_id: &[u8], verify: u8, state: u8, time: u32) -> Vec<u8> {
    let mut row = vec![0u8; 40];
    row[2..2 + user_id.len()].copy_from_slice(user_id);
    row[11] = verify;
    row[12] = state;
    row[27..31].copy_from_slice(&time.to_le_bytes());
    row
}

fn record_row_16(uid: u16, time: u32) -> Vec<u8> {
    let mut row = vec![0u8; 16];
    row[0..2].copy_from_slice(&uid.to_le_bytes());
    row[4..8].copy_from_slice(&time.to_le_bytes());
    row
}

#[test]
fn compact_user_row() {
    let row = user_row_28(7, b"Carol", 4_000_000_123);
    let (uid, user_id, name) = decode_user_data_28(&row);
    assert_eq!(uid, 7);
    assert_eq!(user_id, "4000000123");
    assert_eq!(name, "Carol");
    let (_, zero_id, no_name) = decode_user_data_28(&user_row_28(1, b"", 0));
    assert_eq!(zero_id, "0");
    assert_eq!(no_name, "");
}

#[test]
fn compact_user_row_name_is_eight_bytes_at_most() {
    let mut row = user_row_28(1, b"ABCDEFGH", 5);
    row[16] = b'Z';
    let (_, _, name) = decode_user_data_28(&row);
    assert_eq!(name, "ABCDEFGH");
}

#[test]
fn extended_user_row() {
    let row = user_row_72(513, b"Dave Smith", b"10042");
    let (uid, user_id, name) = decode_user_data_72(&row);
    assert_eq!(uid, 513);
    assert_eq!(user_id, "10042");
    assert_eq!(name, "Dave Smith");
}

#[test]
fn extended_user_row_fields_have_fixed_widths() {
    let mut row = vec![b'x'; 72];
    row[11..35].copy_from_slice(b"ABCDEFGHIJKLMNOPQRSTUVWX");
    row[48..57].copy_from_slice(b"123456789");
    let (_, user_id, name) = decode_user_data_72(&row);
    assert_eq!(name, "ABCDEFGHIJKLMNOPQRSTUVWX");
    assert_eq!(user_id, "123456789");
}

#[test]
fn full_attendance_row() {
    let time = pack_time(2024, 1, 15, 9, 0, 0);
    let row = record_row_40(b"10042", 15, 1, time);
    let (user_id, timestamp, verify, state) = decode_record_data_40(&row);
    assert_eq!(user_id, "10042");
    assert_eq!(timestamp, "2024-01-15T09:00:00.000Z");
    assert_eq!(verify, 15);
    assert_eq!(state, 1);
}

#[test]
fn compact_attendance_rows() {
    let time = pack_time(2023, 12, 31, 23, 59, 59);
    let row = record_row_16(65535, time);
    let (user_id, timestamp, verify, state) = decode_record_data_16(&row);
    assert_eq!(user_id, "65535");
    assert_eq!(timestamp, "2023-12-31T23:59:59.000Z");
    assert_eq!((verify, state), (0, 0));
    let (user_id, timestamp, verify, state) = decode_record_data_8(&row[..8]);
    assert_eq!(user_id, "65535");
    assert_eq!(timestamp, "2023-12-31T23:59:59.000Z");
    assert_eq!((verify, state), (0, 0));
}

#[test]
fn concatenated_user_rows_decode_one_for_one() {
    for n in 0..5usize {
        let mut data = vec![0u8; 4];
        for i in 0..n {
            let name = format!("N{}", i);
            let id = format!("{}", 100 + i);
            data.extend(user_row_72(i as u16, name.as_bytes(), id.as_bytes()));
        }
        let users = decode_user_rows(&data, UserLayout::Extended);
        assert_eq!(users.len(), n);
        assert_eq!(data.len(), 4 + n * 72);
        for (i, user) in users.iter().enumerate() {
            assert_eq!(user.0, i as u16);
            assert_eq!(user.1, format!("{}", 100 + i));
            assert_eq!(user.2, format!("N{}", i));
        }
        let mut compact = vec![0u8; 4];
        for i in 0..n {
            compact.extend(user_row_28(i as u16, b"Q", 7 + i as u32));
        }
        let users = decode_user_rows(&compact, UserLayout::Compact);
        assert_eq!(users.len(), n);
        for (i, user) in users.iter().enumerate() {
            assert_eq!(user.1, format!("{}", 7 + i));
        }
    }
}

#[test]
fn concatenated_attendance_rows_decode_one_for_one() {
    for n in 0..5usize {
        let mut full = vec![0u8; 4];
        let mut compact = vec![0u8; 4];
        let mut small = vec![0u8; 4];
        for i in 0..n {
            let time = pack_time(2024, 3, 1 + i as u32, 8, 0, 0);
            full.extend(record_row_40(b"5", 1, 0, time));
            compact.extend(record_row_16(5, time));
            small.extend(&record_row_16(5, time)[..8]);
        }
        let rows = decode_record_rows(&full, RecordLayout::Full);
        assert_eq!(rows.len(), n);
        let rows16 = decode_record_rows(&compact, RecordLayout::Compact);
        assert_eq!(rows16.len(), n);
        let rows8 = decode_record_rows(&small, RecordLayout::CompactSmall);
        assert_eq!(rows8.len(), n);
        for i in 0..n {
            let expected = format!("2024-03-0{}T08:00:00.000Z", 1 + i);
            assert_eq!(rows[i].1, expected);
            assert_eq!(rows16[i].1, expected);
            assert_eq!(rows8[i].1, expected);
        }
    }
}

#[test]
fn rows_ignore_a_short_remainder_and_a_short_payload() {
    let mut data = vec![0u8; 4];
    data.extend(user_row_72(1, b"A", b"1"));
    data.extend(vec![0u8; 71]);
    assert_eq!(decode_user_rows(&data, UserLayout::Extended).len(), 1);
    assert_eq!(decode_user_rows(&[1, 2, 3], UserLayout::Extended).len(), 0);
    assert_eq!(decode_user_rows(&[], UserLayout::Compact).len(), 0);
    assert_eq!(decode_record_rows(&[0u8; 43], RecordLayout::Full).len(), 0);
    assert_eq!(decode_record_rows(&[0u8; 44], RecordLayout::Full).len(), 1);
}

#[test]
fn packed_timestamp_zero() {
    assert_eq!(parse_zk_time(0), "2000-01-01T00:00:00.000Z");
}

#[test]
fn packed_timestamp_maximum() {
    assert_eq!(parse_zk_time(u32::MAX), "2133-08-18T06:28:15.000Z");
}

#[test]
fn packed_timestamp_follows_the_division_formula() {
    assert_eq!(parse_zk_time(0x1F88CA44), "2016-06-17T08:39:32.000Z");
    assert_eq!(parse_zk_time(627177600), "2019-07-06T00:00:00.000Z");
}

#[test]
fn packed_day_31_in_a_month_of_30_days_is_day_30() {
    assert_eq!(parse_zk_time(621355968), "2019-04-30T14:52:48.000Z");
    assert_eq!(parse_zk_time(pack_time(2024, 4, 31, 10, 20, 30)), "2024-04-30T10:20:30.000Z");
    assert_eq!(parse_zk_time(pack_time(2024, 11, 31, 0, 0, 0)), "2024-11-30T00:00:00.000Z");
}

#[test]
fn packed_days_beyond_february_are_its_last_day() {
    assert_eq!(parse_zk_time(pack_time(2023, 2, 31, 1, 2, 3)), "2023-02-28T01:02:03.000Z");
    assert_eq!(parse_zk_time(pack_time(2023, 2, 29, 1, 2, 3)), "2023-02-28T01:02:03.000Z");
    assert_eq!(parse_zk_time(pack_time(2024, 2, 30, 1, 2, 3)), "2024-02-29T01:02:03.000Z");
    assert_eq!(parse_zk_time(pack_time(2024, 2, 29, 1, 2, 3)), "2024-02-29T01:02:03.000Z");
    assert_eq!(parse_zk_time(pack_time(2100, 2, 29, 0, 0, 0)), "2100-02-28T00:00:00.000Z");
}

#[test]
fn packed_day_31_stays_in_long_months() {
    assert_eq!(parse_zk_time(pack_time(2024, 12, 31, 23, 59, 59)), "2024-12-31T23:59:59.000Z");
    assert_eq!(parse_zk_time(pack_time(2024, 1, 31, 0, 0, 1)), "2024-01-31T00:00:01.000Z");
}

#[test]
fn every_sampled_timestamp_is_a_calendar_instant() {
    let mut t: u64 = 0;
    while t <= u32::MAX as u64 {
        let text = parse_zk_time(t as u32);
        assert_eq!(text.len(), 24);
        assert!(text.ends_with(".000Z"));
        let year: u32 = text[0..4].parse().unwrap();
        let month: u32 = text[5..7].parse().unwrap();
        let day: u32 = text[8..10].parse().unwrap();
        let hour: u32 = text[11..13].parse().unwrap();
        let minute: u32 = text[14..16].parse().unwrap();
        let second: u32 = text[17..19].parse().unwrap();
        assert!(year >= 2000);
        assert!((1..=12).contains(&month));
        let leap = year % 4 == 0 && (year % 100 != 0 || year % 400 == 0);
        let last = match month {
            4 | 6 | 9 | 11 => 30,
            2 => {
                if leap {
                    29
                } else {
                    28
                }
            }
            _ => 31,
        };
        assert!(day >= 1 && day <= last);
        assert!(hour < 24 && minute < 60 && second < 60);
        t += 7_654_321;
    }
}

#[test]
fn acknowledgement_names() {
    assert_eq!(command_name(2000), "CMD_ACK_OK");
    assert_eq!(command_name(2001), "CMD_ACK_ERROR");
    assert_eq!(command_name(2002), "CMD_ACK_DATA");
    assert_eq!(command_name(2003), "CMD_ACK_RETRY");
    assert_eq!(command_name(2004), "CMD_ACK_REPEAT");
    assert_eq!(command_name(2005), "CMD_ACK_UNAUTH");
    assert_eq!(command_name(0xFFFF), "CMD_ACK_UNKNOWN");
    assert_eq!(command_name(0xFFFD), "CMD_ACK_ERROR_CMD");
    assert_eq!(command_name(0xFFFC), "CMD_ACK_ERROR_INIT");
    assert_eq!(command_name(0xFFFB), "CMD_ACK_ERROR_DATA");
    assert_eq!(command_name(1000), "UNKNOWN_COMMAND");
    assert_eq!(command_name(0), "UNKNOWN_COMMAND");
}

fn word_sum_checksum(buf: &[u8]) -> u16 {
    let mut sum: u64 = 0;
    for pair in buf.chunks(2) {
        sum += if pair.len() == 2 {
            u16::from_le_bytes([pair[0], pair[1]]) as u64
        } else {
            pair[0] as u64
        };
    }
    (65535 - (sum % 65535) - 1) as u16
}

#[test]
fn checksum_is_the_complement_of_the_word_sum() {
    let mut state: u32 = 12345;
    for len in 0..300usize {
        let mut buf = Vec::with_capacity(len);
        for _ in 0..len {
            state = state.wrapping_mul(1664525).wrapping_add(1013904223);
            buf.push((state >> 24) as u8);
        }
        assert_eq!(create_checksum(&buf), word_sum_checksum(&buf));
    }
    assert_eq!(create_checksum(&vec![0xff; 100001]), word_sum_checksum(&vec![0xff; 100001]));
}

#[test]
fn every_reply_id_travels_as_one_more_modulo_65535() {
    for local in 0..=65535u32 {
        let packet = create_udp_header(cmd::CMD_GET_TIME, 1, local as u16, &[]);
        assert_eq!(read_u16(&packet, 6) as u32, (local + 1) % 65535);
        assert_eq!(read_u16(&packet, 2), zeroed_checksum(&packet));
    }
}

#[test]
fn envelope_announces_the_inner_length_modulo_65536() {
    let data = vec![7u8; 65535];
    let packet = create_tcp_header(cmd::CMD_DATA, 1, 1, &data);
    assert_eq!(packet.len(), 16 + 65535);
    assert_eq!(read_u16(&packet, 4) as usize, (8 + 65535) % 65536);
    assert_eq!(&packet[6..8], &[0, 0]);
}
