use zkteco::protocol::cmd;
use zkteco::protocol::{create_udp_header, read_u16, read_u32, MAX_CHUNK};
use zkteco::session::Payload;
use zkteco::step::{Action, Event, Step};
use zkteco::udp::{UdpPhase, ZKUdp};

fn udp_sent(step: Step<Payload>) -> Vec<u8> {
    match step {
        Step::Next(Action::Send { bytes }) => bytes,
        other => panic!("expected a send, got {:?}", other),
    }
}

fn udp_receive_timeout(step: Step<Payload>) -> u64 {
    match step {
        Step::Next(Action::Receive { timeout_ms }) => timeout_ms,
        other => panic!("expected a receive, got {:?}", other),
    }
}

fn udp_receive_until(step: Step<Payload>) -> (u64, bool) {
    match step {
        Step::Next(Action::ReceiveUntil { budget_secs, restart }) => (budget_secs, restart),
        other => panic!("expected a chunk receive, got {:?}", other),
    }
}

fn udp_error(step: Step<Payload>) -> String {
    match step {
        Step::Finished(Err(message)) => message,
        other => panic!("expected an error, got {:?}", other),
    }
}

fn udp_nothing(step: Step<Payload>) {
    match step {
        Step::Finished(Ok(Payload::Nothing)) => {}
        other => panic!("expected success, got {:?}", other),
    }
}

fn udp_buffer(step: Step<Payload>) -> (Vec<u8>, bool) {
    match step {
        Step::Finished(Ok(Payload::Buffer(bytes, small))) => (bytes, small),
        other => panic!("expected a buffer, got {:?}", other),
    }
}

fn datagram(command: u16, session: u16, payload: &[u8]) -> Vec<u8> {
    create_udp_header(command, session, 0, payload)
}

fn udp_connected(session: u16) -> ZKUdp {
    let mut udp = ZKUdp::new("192.168.1.201", 4370, 8000);
    match udp.connect() {
        Step::Next(Action::Bind { .. }) => {}
        other => panic!("expected a bind, got {:?}", other),
    }
    let _ = udp_sent(udp.resume(Event::Done));
    let _ = udp_receive_timeout(udp.resume(Event::Done));
    udp_nothing(udp.resume(Event::Data(datagram(cmd::CMD_ACK_OK, session, &[]))));
    udp
}

fn udp_prepare(size: u32) -> Vec<u8> {
    let mut payload = vec![0u8];
    payload.extend_from_slice(&size.to_le_bytes());
    datagram(cmd::CMD_PREPARE_DATA, 5, &payload)
}

fn udp_user_row(uid: u16, name: &[u8], user_id: u32) -> Vec<u8> {
    let mut row = vec![0u8; 28];
    row[0..2].copy_from_slice(&uid.to_le_bytes());
    row[8..8 + name.len()].copy_from_slice(name);
    row[24..28].copy_from_slice(&user_id.to_le_bytes());
    row
}

fn udp_record_row(uid: u16, time: u32) -> Vec<u8> {
    let mut row = vec![0u8; 16];
    row[0..2].copy_from_slice(&uid.to_le_bytes());
    row[4..8].copy_from_slice(&time.to_le_bytes());
    row
}

#[test]
fn udp_connect_binds_and_sends_the_connect_command() {
    let mut udp = ZKUdp::new("10.1.2.3", 4370, 8000);
    match udp.connect() {
        Step::Next(Action::Bind { address }) => assert_eq!(address, "10.1.2.3:4370"),
        other => panic!("expected a bind, got {:?}", other),
    }
    let packet = udp_sent(udp.resume(Event::Done));
    assert_eq!(packet, vec![0xe8, 0x03, 0x15, 0xfc, 0x00, 0x00, 0x01, 0x00]);
    assert!(udp.connected);
    assert_eq!(udp_receive_timeout(udp.resume(Event::Done)), 8000);
    udp_nothing(udp.resume(Event::Data(datagram(cmd::CMD_ACK_OK, 0x0908, &[]))));
    assert_eq!(udp.session_id, 0x0908);
    assert_eq!(udp.reply_id, 0);
}

#[test]
fn udp_connect_failures_are_reported() {
    let mut udp = ZKUdp::new("10.1.2.3", 4370, 8000);
    let _ = udp.connect();
    assert_eq!(
        udp_error(udp.resume(Event::BindFailed("in use".to_string()))),
        "Failed to bind UDP socket: in use"
    );
    let _ = udp.connect();
    assert_eq!(
        udp_error(udp.resume(Event::AddressInvalid("invalid socket address syntax".to_string()))),
        "Invalid device address: invalid socket address syntax"
    );
    let _ = udp.connect();
    assert_eq!(
        udp_error(udp.resume(Event::Failed("unreachable".to_string()))),
        "UDP connect failed: unreachable"
    );
    assert!(!udp.connected);
    let _ = udp.connect();
    let _ = udp.resume(Event::Done);
    assert_eq!(udp_error(udp.resume(Event::Failed("e".to_string()))), "UDP send failed: e");
    let _ = udp.connect();
    let _ = udp.resume(Event::Done);
    let _ = udp.resume(Event::Done);
    assert_eq!(udp_error(udp.resume(Event::TimedOut)), "Timeout waiting for UDP response");
    let _ = udp.connect();
    let _ = udp.resume(Event::Done);
    let _ = udp.resume(Event::Done);
    assert_eq!(udp_error(udp.resume(Event::Failed("f".to_string()))), "UDP recv failed: f");
}

#[test]
fn udp_command_uses_the_session_timeout_for_every_command() {
    let mut udp = udp_connected(5);
    let packet = udp_sent(udp.disconnect());
    assert_eq!(packet, create_udp_header(cmd::CMD_EXIT, 5, 1, &[]));
    assert_eq!(udp_receive_timeout(udp.resume(Event::Done)), 8000);
    match udp.resume(Event::TimedOut) {
        Step::Next(Action::Close) => {}
        other => panic!("expected a close, got {:?}", other),
    }
    udp_nothing(udp.resume(Event::Done));
    assert!(!udp.connected);
}

#[test]
fn udp_command_accepts_an_empty_datagram() {
    let mut udp = udp_connected(5);
    let _ = udp.execute_cmd(cmd::CMD_GET_TIME, &[]);
    let _ = udp.resume(Event::Done);
    match udp.resume(Event::Data(vec![])) {
        Step::Finished(Ok(Payload::Bytes(bytes))) => assert!(bytes.is_empty()),
        other => panic!("expected bytes, got {:?}", other),
    }
}

#[test]
fn udp_command_without_socket_fails() {
    let mut udp = ZKUdp::new("10.1.2.3", 4370, 8000);
    assert_eq!(udp_error(udp.execute_cmd(cmd::CMD_GET_TIME, &[])), "UDP not connected");
    assert_eq!(udp.reply_id, 1);
    assert_eq!(udp_error(udp.read_with_buffer(&[1])), "UDP not connected");
    udp_nothing(udp.disconnect());
}

#[test]
fn udp_authentication() {
    let mut udp = udp_connected(5);
    let packet = udp_sent(udp.auth(12345));
    assert_eq!(packet, create_udp_header(cmd::CMD_AUTH, 5, 1, &[0x39, 0x30, 0, 0]));
    let _ = udp.resume(Event::Done);
    udp_nothing(udp.resume(Event::Data(datagram(cmd::CMD_ACK_OK, 5, &[]))));
    let _ = udp.auth(12345);
    let _ = udp.resume(Event::Done);
    assert_eq!(
        udp_error(udp.resume(Event::Data(datagram(cmd::CMD_ACK_ERROR, 5, &[])))),
        "Device authentication failed (response: CMD_ACK_ERROR)"
    );
    let _ = udp.auth(12345);
    let _ = udp.resume(Event::Done);
    assert_eq!(
        udp_error(udp.resume(Event::Data(vec![]))),
        "Device authentication failed: empty response"
    );
}

#[test]
fn udp_info_reads_the_counts() {
    let mut udp = udp_connected(5);
    let _ = udp.get_info();
    let _ = udp.resume(Event::Done);
    let mut payload = vec![0u8; 80];
    payload[24..28].copy_from_slice(&12u32.to_le_bytes());
    payload[40..44].copy_from_slice(&3456u32.to_le_bytes());
    match udp.resume(Event::Data(datagram(cmd::CMD_ACK_OK, 5, &payload))) {
        Step::Finished(Ok(Payload::Counts(users, logs))) => assert_eq!((users, logs), (12, 3456)),
        other => panic!("expected counts, got {:?}", other),
    }
    let _ = udp.get_info();
    let _ = udp.resume(Event::Done);
    match udp.resume(Event::Data(datagram(cmd::CMD_ACK_OK, 5, &[1, 2, 3]))) {
        Step::Finished(Ok(Payload::Counts(users, logs))) => assert_eq!((users, logs), (0, 0)),
        other => panic!("expected counts, got {:?}", other),
    }
}

#[test]
fn udp_bulk_read_of_a_small_data_set() {
    let mut udp = udp_connected(5);
    let request = udp_sent(udp.read_with_buffer(&[1, 13]));
    assert_eq!(request, create_udp_header(cmd::CMD_DATA_WRRQ, 5, 1, &[1, 13]));
    assert_eq!(udp_receive_timeout(udp.resume(Event::Done)), 8000);
    let (data, small) =
        udp_buffer(udp.resume(Event::Data(datagram(cmd::CMD_DATA, 5, &[1, 2, 3]))));
    assert_eq!(data, vec![1, 2, 3]);
    assert!(small);
}

#[test]
fn udp_bulk_read_of_an_empty_data_set_asks_for_no_chunk() {
    let mut udp = udp_connected(5);
    let _ = udp.read_with_buffer(&[1]);
    let _ = udp.resume(Event::Done);
    let before = udp.reply_id;
    let (data, small) = udp_buffer(udp.resume(Event::Data(udp_prepare(0))));
    assert!(data.is_empty());
    assert!(!small);
    assert_eq!(udp.reply_id, before);
}

#[test]
fn udp_bulk_read_in_chunks() {
    let mut udp = udp_connected(5);
    let _ = udp.read_with_buffer(&[1]);
    let _ = udp.resume(Event::Done);
    let size = MAX_CHUNK as u32 + 1;
    let first = udp_sent(udp.resume(Event::Data(udp_prepare(size))));
    assert_eq!(read_u16(&first, 0), cmd::CMD_DATA_RDY);
    assert_eq!(read_u16(&first, 6), 3);
    assert_eq!((read_u32(&first, 8), read_u32(&first, 12)), (0, MAX_CHUNK as u32));
    let second = udp_sent(udp.resume(Event::Done));
    assert_eq!(read_u16(&second, 6), 4);
    assert_eq!((read_u32(&second, 8), read_u32(&second, 12)), (MAX_CHUNK as u32, 1));
    assert_eq!(udp.reply_id, 3);
    assert_eq!(udp_receive_until(udp.resume(Event::Done)), (120, true));
    // Announcements, events, short datagrams and acknowledgements add
    // nothing.
    assert_eq!(udp_receive_until(udp.resume(Event::Data(udp_prepare(size)))), (120, false));
    assert_eq!(
        udp_receive_until(udp.resume(Event::Data(datagram(cmd::CMD_REG_EVENT, 5, &[1, 2])))),
        (120, false)
    );
    assert_eq!(udp_receive_until(udp.resume(Event::Data(vec![1, 2, 3]))), (120, false));
    assert_eq!(
        udp_receive_until(udp.resume(Event::Data(datagram(cmd::CMD_ACK_OK, 5, &[])))),
        (120, false)
    );
    assert!(udp.data.is_empty());
    let part: Vec<u8> = vec![7u8; 40000];
    assert_eq!(
        udp_receive_until(udp.resume(Event::Data(datagram(cmd::CMD_DATA, 5, &part)))),
        (120, false)
    );
    let rest: Vec<u8> = vec![8u8; size as usize - 40000];
    let (data, small) = udp_buffer(udp.resume(Event::Data(datagram(cmd::CMD_DATA, 5, &rest))));
    assert_eq!(data.len(), size as usize);
    assert_eq!(data[39999], 7);
    assert_eq!(data[40000], 8);
    assert!(!small);
}

#[test]
fn udp_bulk_read_failures_are_reported() {
    let mut udp = udp_connected(5);
    let _ = udp.read_with_buffer(&[1]);
    assert_eq!(udp_error(udp.resume(Event::Failed("a".to_string()))), "UDP send failed: a");
    let _ = udp.read_with_buffer(&[1]);
    let _ = udp.resume(Event::Done);
    assert_eq!(udp_error(udp.resume(Event::TimedOut)), "Timeout receiving data request response");
    let _ = udp.read_with_buffer(&[1]);
    let _ = udp.resume(Event::Done);
    assert_eq!(udp_error(udp.resume(Event::Failed("b".to_string()))), "UDP recv failed: b");
    let _ = udp.read_with_buffer(&[1]);
    let _ = udp.resume(Event::Done);
    assert_eq!(udp_error(udp.resume(Event::Data(vec![1, 2, 3, 4, 5, 6, 7]))), "Response too short");
    let _ = udp.read_with_buffer(&[1]);
    let _ = udp.resume(Event::Done);
    assert_eq!(
        udp_error(udp.resume(Event::Data(datagram(cmd::CMD_ACK_OK, 5, &[0, 1, 2, 3])))),
        "Prepare data response too short"
    );
    let _ = udp.read_with_buffer(&[1]);
    let _ = udp.resume(Event::Done);
    assert_eq!(
        udp_error(udp.resume(Event::Data(datagram(cmd::CMD_ACK_ERROR, 5, &[])))),
        "Unexpected command in data response: 2001 (CMD_ACK_ERROR)"
    );
    let _ = udp.read_with_buffer(&[1]);
    let _ = udp.resume(Event::Done);
    let _ = udp_sent(udp.resume(Event::Data(udp_prepare(100))));
    assert_eq!(
        udp_error(udp.resume(Event::Failed("c".to_string()))),
        "UDP send chunk request failed: c"
    );
}

#[test]
fn udp_chunk_timeouts_name_the_progress() {
    let mut udp = udp_connected(5);
    let _ = udp.read_with_buffer(&[1]);
    let _ = udp.resume(Event::Done);
    let _ = udp_sent(udp.resume(Event::Data(udp_prepare(100))));
    let _ = udp_receive_until(udp.resume(Event::Done));
    let _ = udp.resume(Event::Data(datagram(cmd::CMD_DATA, 5, &[0u8; 30])));
    assert_eq!(
        udp_error(udp.resume(Event::Expired)),
        "Timeout receiving UDP chunks, got 30/100 bytes"
    );
    assert_eq!(udp.phase, UdpPhase::Idle);

    let mut udp = udp_connected(5);
    let _ = udp.read_with_buffer(&[1]);
    let _ = udp.resume(Event::Done);
    let _ = udp_sent(udp.resume(Event::Data(udp_prepare(100))));
    let _ = udp_receive_until(udp.resume(Event::Done));
    assert_eq!(
        udp_error(udp.resume(Event::TimedOut)),
        "Timeout receiving UDP chunk, got 0/100 bytes"
    );

    let mut udp = udp_connected(5);
    let _ = udp.read_with_buffer(&[1]);
    let _ = udp.resume(Event::Done);
    let _ = udp_sent(udp.resume(Event::Data(udp_prepare(100))));
    let _ = udp_receive_until(udp.resume(Event::Done));
    assert_eq!(udp_error(udp.resume(Event::Failed("d".to_string()))), "UDP recv chunk failed: d");
}

#[test]
fn udp_users_come_in_rows_of_28_bytes() {
    let mut udp = udp_connected(5);
    let free = udp_sent(udp.get_users());
    assert_eq!(free, create_udp_header(cmd::CMD_FREE_DATA, 5, 1, &[]));
    let _ = udp.resume(Event::Done);
    let request = udp_sent(udp.resume(Event::Data(datagram(cmd::CMD_ACK_OK, 5, &[]))));
    assert_eq!(
        request,
        create_udp_header(cmd::CMD_DATA_WRRQ, 5, 2, &[1, 9, 0, 5, 0, 0, 0, 0, 0, 0, 0])
    );
    let _ = udp.resume(Event::Done);
    let mut payload = 56u32.to_le_bytes().to_vec();
    payload.extend(udp_user_row(1, b"Ann", 77));
    payload.extend(udp_user_row(2, b"", 78));
    let _ = udp_sent(udp.resume(Event::Data(datagram(cmd::CMD_DATA, 5, &payload))));
    let _ = udp.resume(Event::Done);
    match udp.resume(Event::Data(datagram(cmd::CMD_ACK_OK, 5, &[]))) {
        Step::Finished(Ok(Payload::UserRows(rows))) => {
            assert_eq!(rows.len(), 2);
            assert_eq!(rows[0], (1, "77".to_string(), "Ann".to_string()));
            assert_eq!(rows[1], (2, "78".to_string(), "".to_string()));
        }
        other => panic!("expected user rows, got {:?}", other),
    }
}

#[test]
fn udp_attendances_of_a_small_response_come_in_rows_of_8_bytes() {
    let mut udp = udp_connected(5);
    let _ = udp.get_attendances();
    let _ = udp.resume(Event::Done);
    let _ = udp_sent(udp.resume(Event::Data(datagram(cmd::CMD_ACK_OK, 5, &[]))));
    let _ = udp.resume(Event::Done);
    let mut payload = 16u32.to_le_bytes().to_vec();
    payload.extend(&udp_record_row(9, 772621200)[..8]);
    payload.extend(&udp_record_row(10, 772621260)[..8]);
    let _ = udp_sent(udp.resume(Event::Data(datagram(cmd::CMD_DATA, 5, &payload))));
    let _ = udp.resume(Event::Done);
    match udp.resume(Event::Data(datagram(cmd::CMD_ACK_OK, 5, &[]))) {
        Step::Finished(Ok(Payload::RecordRows(rows))) => {
            assert_eq!(rows.len(), 2);
            assert_eq!(rows[0], ("9".to_string(), "2024-01-15T09:00:00.000Z".to_string(), 0, 0));
            assert_eq!(rows[1], ("10".to_string(), "2024-01-15T09:01:00.000Z".to_string(), 0, 0));
        }
        other => panic!("expected record rows, got {:?}", other),
    }
}

#[test]
fn udp_attendances_of_a_large_response_come_in_rows_of_16_bytes() {
    let mut udp = udp_connected(5);
    let _ = udp.get_attendances();
    let _ = udp.resume(Event::Done);
    let _ = udp_sent(udp.resume(Event::Data(datagram(cmd::CMD_ACK_OK, 5, &[]))));
    let _ = udp.resume(Event::Done);
    let _ = udp_sent(udp.resume(Event::Data(udp_prepare(36))));
    let _ = udp_receive_until(udp.resume(Event::Done));
    let mut data = 32u32.to_le_bytes().to_vec();
    data.extend(udp_record_row(9, 772621200));
    data.extend(udp_record_row(10, 772621260));
    let _ = udp_sent(udp.resume(Event::Data(datagram(cmd::CMD_DATA, 5, &data))));
    let _ = udp.resume(Event::Done);
    match udp.resume(Event::Data(datagram(cmd::CMD_ACK_OK, 5, &[]))) {
        Step::Finished(Ok(Payload::RecordRows(rows))) => {
            assert_eq!(rows.len(), 2);
            assert_eq!(rows[1], ("10".to_string(), "2024-01-15T09:01:00.000Z".to_string(), 0, 0));
        }
        other => panic!("expected record rows, got {:?}", other),
    }
}

#[test]
fn udp_unexpected_outcomes_end_the_operation() {
    let mut udp = udp_connected(5);
    assert_eq!(udp_error(udp.resume(Event::Done)), "Unexpected event");
    let _ = udp.connect();
    assert_eq!(udp_error(udp.resume(Event::TimedOut)), "Unexpected event");
}
