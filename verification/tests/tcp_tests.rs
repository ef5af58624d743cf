use zkteco::protocol::cmd;
use zkteco::protocol::{create_tcp_header, read_u16, read_u32, MAX_CHUNK};
use zkteco::session::Payload;
use zkteco::step::{Action, Event, Step};
use zkteco::tcp::assembly::drain_stream;
use zkteco::tcp::{TcpPhase, ZKTcp};
use zkteco::transfer::{chunk_request, receive_budget, total_chunks};

fn sent(step: Step<Payload>) -> Vec<u8> {
    match step {
        Step::Next(Action::Send { bytes }) => bytes,
        other => panic!("expected a send, got {:?}", other),
    }
}

fn receive_timeout(step: Step<Payload>) -> u64 {
    match step {
        Step::Next(Action::Receive { timeout_ms }) => timeout_ms,
        other => panic!("expected a receive, got {:?}", other),
    }
}

fn receive_until(step: Step<Payload>) -> (u64, bool) {
    match step {
        Step::Next(Action::ReceiveUntil { budget_secs, restart }) => (budget_secs, restart),
        other => panic!("expected a chunk receive, got {:?}", other),
    }
}

fn error(step: Step<Payload>) -> String {
    match step {
        Step::Finished(Err(message)) => message,
        other => panic!("expected an error, got {:?}", other),
    }
}

fn nothing(step: Step<Payload>) {
    match step {
        Step::Finished(Ok(Payload::Nothing)) => {}
        other => panic!("expected success, got {:?}", other),
    }
}

fn buffer(step: Step<Payload>) -> (Vec<u8>, bool) {
    match step {
        Step::Finished(Ok(Payload::Buffer(bytes, small))) => (bytes, small),
        other => panic!("expected a buffer, got {:?}", other),
    }
}

fn reply(command: u16, session: u16, payload: &[u8]) -> Vec<u8> {
    create_tcp_header(command, session, 0, payload)
}

fn connected(session: u16) -> ZKTcp {
    let mut tcp = ZKTcp::new("192.168.1.201", 4370, 10000);
    match tcp.connect() {
        Step::Next(Action::Dial { .. }) => {}
        other => panic!("expected a dial, got {:?}", other),
    }
    let _ = sent(tcp.resume(Event::Done));
    let _ = receive_timeout(tcp.resume(Event::Done));
    nothing(tcp.resume(Event::Data(reply(cmd::CMD_ACK_OK, session, &[]))));
    tcp
}

fn user_row_72(uid: u16, name: &[u8], user_id: &[u8]) -> Vec<u8> {
    let mut row = vec![0u8; 72];
    row[0..2].copy_from_slice(&uid.to_le_bytes());
    row[11..11 + name.len()].copy_from_slice(name);
    row[48..48 + user_id.len()].copy_from_slice(user_id);
    row
}

fn record_row_40(user_id: &[u8], verify: u8, state: u8, time: u32) -> Vec<u8> {
    let mut row = vec![0u8; 40];
    row[2..2 + user_id.len()].copy_from_slice(user_id);
    row[11] = verify;
    row[12] = state;
    row[27..31].copy_from_slice(&time.to_le_bytes());
    row
}

fn prepare(size: u32) -> Vec<u8> {
    let mut payload = vec![0u8];
    payload.extend_from_slice(&size.to_le_bytes());
    payload.extend_from_slice(&[0, 0, 0]);
    reply(cmd::CMD_PREPARE_DATA, 5, &payload)
}

fn chunk_packet(data: &[u8]) -> Vec<u8> {
    let mut payload = vec![0u8; 8];
    payload.extend_from_slice(data);
    reply(cmd::CMD_DATA, 5, &payload)
}

/// Runs a bulk read up to the point where the chunks are awaited.
fn bulk_until_chunks(tcp: &mut ZKTcp, size: u32) -> Vec<Vec<u8>> {
    let _ = sent(tcp.read_with_buffer(&[1, 2, 3]));
    let _ = receive_timeout(tcp.resume(Event::Done));
    let mut requests = Vec::new();
    let mut step = tcp.resume(Event::Data(prepare(size)));
    loop {
        match step {
            Step::Next(Action::Send { bytes }) => {
                requests.push(bytes);
                step = tcp.resume(Event::Done);
            }
            Step::Next(Action::ReceiveUntil { budget_secs, restart }) => {
                assert!(restart);
                assert_eq!(budget_secs, 60 + 30 * requests.len() as u64);
                return requests;
            }
            other => panic!("unexpected step {:?}", other),
        }
    }
}

#[test]
fn new_session_is_closed_and_idle() {
    let tcp = ZKTcp::new("10.0.0.7", 4370, 30000);
    assert_eq!(tcp.ip, "10.0.0.7");
    assert_eq!(tcp.port, 4370);
    assert_eq!(tcp.timeout_ms, 30000);
    assert!(!tcp.connected);
    assert_eq!(tcp.session_id, 0);
    assert_eq!(tcp.reply_id, 0);
    assert_eq!(tcp.phase, TcpPhase::Idle);
    assert_eq!(tcp.address(), "10.0.0.7:4370");
}

#[test]
fn connect_dials_within_five_seconds_at_most() {
    let mut tcp = ZKTcp::new("10.0.0.7", 4370, 30000);
    match tcp.connect() {
        Step::Next(Action::Dial { address, timeout_ms }) => {
            assert_eq!(address, "10.0.0.7:4370");
            assert_eq!(timeout_ms, 5000);
        }
        other => panic!("expected a dial, got {:?}", other),
    }
    let mut quick = ZKTcp::new("10.0.0.7", 1, 1200);
    match quick.connect() {
        Step::Next(Action::Dial { address, timeout_ms }) => {
            assert_eq!(address, "10.0.0.7:1");
            assert_eq!(timeout_ms, 1200);
        }
        other => panic!("expected a dial, got {:?}", other),
    }
}

#[test]
fn connect_sends_one_connect_command_and_learns_the_session_id() {
    let mut tcp = ZKTcp::new("10.0.0.7", 4370, 30000);
    tcp.session_id = 99;
    tcp.reply_id = 17;
    let _ = tcp.connect();
    let packet = sent(tcp.resume(Event::Done));
    assert_eq!(packet, create_tcp_header(cmd::CMD_CONNECT, 0, 0, &[]));
    assert_eq!(&packet[..4], &[0x50, 0x50, 0x82, 0x7d]);
    assert_eq!(read_u16(&packet, 8), 1000);
    assert_eq!(read_u16(&packet, 14), 1);
    assert!(tcp.connected);
    assert_eq!(receive_timeout(tcp.resume(Event::Done)), 2000);
    let ack = reply(cmd::CMD_ACK_OK, 0x4a3b, &[]);
    assert_eq!(read_u16(&ack[8..], 4), 0x4a3b);
    nothing(tcp.resume(Event::Data(ack)));
    assert_eq!(tcp.session_id, 0x4a3b);
    assert_eq!(tcp.reply_id, 0);
    assert_eq!(tcp.phase, TcpPhase::Idle);
}

#[test]
fn connect_keeps_the_session_id_when_the_ack_is_too_short() {
    let mut tcp = ZKTcp::new("10.0.0.7", 4370, 30000);
    let _ = tcp.connect();
    let _ = tcp.resume(Event::Done);
    let _ = tcp.resume(Event::Done);
    nothing(tcp.resume(Event::Data(vec![0xd0, 0x07, 0, 0, 9])));
    assert_eq!(tcp.session_id, 0);
}

#[test]
fn connect_reads_the_session_id_of_a_bare_ack() {
    let mut tcp = ZKTcp::new("10.0.0.7", 4370, 30000);
    let _ = tcp.connect();
    let _ = tcp.resume(Event::Done);
    let _ = tcp.resume(Event::Done);
    nothing(tcp.resume(Event::Data(vec![0xd0, 0x07, 0, 0, 0x22, 0x11])));
    assert_eq!(tcp.session_id, 0x1122);
}

#[test]
fn connect_reports_a_dial_timeout() {
    let mut tcp = ZKTcp::new("10.0.0.7", 4370, 30000);
    let _ = tcp.connect();
    assert_eq!(error(tcp.resume(Event::TimedOut)), "TCP connect timeout to 10.0.0.7:4370");
    assert!(!tcp.connected);
    assert_eq!(tcp.phase, TcpPhase::Idle);
}

#[test]
fn connect_reports_a_dial_failure() {
    let mut tcp = ZKTcp::new("10.0.0.7", 4370, 30000);
    let _ = tcp.connect();
    assert_eq!(
        error(tcp.resume(Event::Failed("Connection refused (os error 111)".to_string()))),
        "TCP connect failed to 10.0.0.7:4370: Connection refused (os error 111)"
    );
    assert!(!tcp.connected);
}

#[test]
fn command_failures_are_reported() {
    let mut tcp = connected(5);
    let _ = sent(tcp.execute_cmd(cmd::CMD_GET_TIME, &[]));
    assert_eq!(error(tcp.resume(Event::Failed("broken".to_string()))), "TCP write failed: broken");
    let _ = sent(tcp.execute_cmd(cmd::CMD_GET_TIME, &[]));
    let _ = tcp.resume(Event::Done);
    assert_eq!(error(tcp.resume(Event::TimedOut)), "Timeout waiting for TCP response");
    let _ = sent(tcp.execute_cmd(cmd::CMD_GET_TIME, &[]));
    let _ = tcp.resume(Event::Done);
    assert_eq!(error(tcp.resume(Event::Failed("reset".to_string()))), "TCP read failed: reset");
    let _ = sent(tcp.execute_cmd(cmd::CMD_GET_TIME, &[]));
    let _ = tcp.resume(Event::Done);
    assert_eq!(error(tcp.resume(Event::Data(vec![]))), "Connection closed by device");
    assert_eq!(tcp.reply_id, 4);
}

#[test]
fn command_counts_the_reply_id_and_hands_back_the_raw_reply() {
    let mut tcp = connected(0x0102);
    let packet = sent(tcp.execute_cmd(cmd::CMD_GET_TIME, &[7, 8]));
    assert_eq!(packet, create_tcp_header(cmd::CMD_GET_TIME, 0x0102, 1, &[7, 8]));
    assert_eq!(read_u16(&packet, 14), 2);
    assert_eq!(tcp.reply_id, 1);
    assert_eq!(receive_timeout(tcp.resume(Event::Done)), 10000);
    let raw = reply(cmd::CMD_ACK_OK, 0x0102, &[1, 2, 3]);
    match tcp.resume(Event::Data(raw.clone())) {
        Step::Finished(Ok(Payload::Bytes(bytes))) => assert_eq!(bytes, raw),
        other => panic!("expected bytes, got {:?}", other),
    }
    let next = sent(tcp.execute_cmd(cmd::CMD_GET_TIME, &[]));
    assert_eq!(read_u16(&next, 14), 3);
    assert_eq!(tcp.reply_id, 2);
}

#[test]
fn reply_id_wraps_at_sixteen_bits() {
    let mut tcp = connected(1);
    tcp.reply_id = 65535;
    let packet = sent(tcp.execute_cmd(cmd::CMD_GET_TIME, &[]));
    assert_eq!(tcp.reply_id, 0);
    assert_eq!(read_u16(&packet, 14), 1);
}

#[test]
fn command_without_connection_fails_after_counting() {
    let mut tcp = ZKTcp::new("10.0.0.7", 4370, 30000);
    assert_eq!(error(tcp.execute_cmd(cmd::CMD_GET_TIME, &[])), "TCP not connected");
    assert_eq!(tcp.reply_id, 1);
    assert_eq!(error(tcp.read_with_buffer(&[1])), "TCP not connected");
    assert_eq!(tcp.reply_id, 2);
    assert_eq!(error(tcp.get_users()), "TCP not connected");
    assert_eq!(error(tcp.free_data()), "TCP not connected");
    assert_eq!(error(tcp.get_info()), "TCP not connected");
}

#[test]
fn authentication_sends_the_key_in_four_bytes() {
    let mut tcp = connected(5);
    let packet = sent(tcp.auth(0x0403_0201));
    assert_eq!(packet, create_tcp_header(cmd::CMD_AUTH, 5, 1, &[1, 2, 3, 4]));
    let _ = tcp.resume(Event::Done);
    nothing(tcp.resume(Event::Data(reply(cmd::CMD_ACK_OK, 5, &[]))));
}

#[test]
fn authentication_failure_names_the_response() {
    let mut tcp = connected(5);
    let _ = tcp.auth(1);
    let _ = tcp.resume(Event::Done);
    assert_eq!(
        error(tcp.resume(Event::Data(reply(cmd::CMD_ACK_UNAUTH, 5, &[])))),
        "Device authentication failed (response: CMD_ACK_UNAUTH)"
    );
    let _ = tcp.auth(1);
    let _ = tcp.resume(Event::Done);
    assert_eq!(
        error(tcp.resume(Event::Data(reply(1234, 5, &[])))),
        "Device authentication failed (response: UNKNOWN_COMMAND)"
    );
    let _ = tcp.auth(1);
    let _ = tcp.resume(Event::Done);
    assert_eq!(
        error(tcp.resume(Event::Data(vec![0xd0]))),
        "Device authentication failed: empty response"
    );
}

#[test]
fn info_reads_the_counts_at_offsets_24_and_40() {
    let mut tcp = connected(5);
    let packet = sent(tcp.get_info());
    assert_eq!(read_u16(&packet, 8), cmd::CMD_GET_FREE_SIZES);
    let _ = tcp.resume(Event::Done);
    let mut payload = vec![0u8; 76];
    payload[24..28].copy_from_slice(&321u32.to_le_bytes());
    payload[40..44].copy_from_slice(&98765u32.to_le_bytes());
    match tcp.resume(Event::Data(reply(cmd::CMD_ACK_OK, 5, &payload))) {
        Step::Finished(Ok(Payload::Counts(users, logs))) => {
            assert_eq!(users, 321);
            assert_eq!(logs, 98765);
        }
        other => panic!("expected counts, got {:?}", other),
    }
}

#[test]
fn info_of_a_short_payload_is_zero() {
    let mut tcp = connected(5);
    let _ = tcp.get_info();
    let _ = tcp.resume(Event::Done);
    let mut payload = vec![0xffu8; 75];
    payload[24] = 1;
    match tcp.resume(Event::Data(reply(cmd::CMD_ACK_OK, 5, &payload))) {
        Step::Finished(Ok(Payload::Counts(users, logs))) => assert_eq!((users, logs), (0, 0)),
        other => panic!("expected counts, got {:?}", other),
    }
}

#[test]
fn free_data_succeeds_on_any_reply() {
    let mut tcp = connected(5);
    let packet = sent(tcp.free_data());
    assert_eq!(read_u16(&packet, 8), cmd::CMD_FREE_DATA);
    let _ = tcp.resume(Event::Done);
    nothing(tcp.resume(Event::Data(reply(cmd::CMD_ACK_ERROR, 5, &[]))));
}

#[test]
fn disconnect_sends_one_exit_command_and_closes() {
    let mut tcp = connected(5);
    let packet = sent(tcp.disconnect());
    assert_eq!(packet, create_tcp_header(cmd::CMD_EXIT, 5, 1, &[]));
    assert_eq!(receive_timeout(tcp.resume(Event::Done)), 2000);
    match tcp.resume(Event::Data(reply(cmd::CMD_ACK_OK, 5, &[]))) {
        Step::Next(Action::Close) => {}
        other => panic!("expected a close, got {:?}", other),
    }
    assert!(tcp.connected);
    nothing(tcp.resume(Event::Done));
    assert!(!tcp.connected);
    assert_eq!(tcp.phase, TcpPhase::Idle);
}

#[test]
fn disconnect_closes_even_when_the_exit_command_fails() {
    let mut tcp = connected(5);
    let _ = sent(tcp.disconnect());
    match tcp.resume(Event::Failed("broken pipe".to_string())) {
        Step::Next(Action::Close) => {}
        other => panic!("expected a close, got {:?}", other),
    }
    nothing(tcp.resume(Event::Failed("not connected".to_string())));
    assert!(!tcp.connected);
    let mut other = connected(5);
    let _ = sent(other.disconnect());
    let _ = other.resume(Event::Done);
    match other.resume(Event::TimedOut) {
        Step::Next(Action::Close) => {}
        step => panic!("expected a close, got {:?}", step),
    }
}

#[test]
fn disconnect_without_connection_does_nothing() {
    let mut tcp = ZKTcp::new("10.0.0.7", 4370, 30000);
    nothing(tcp.disconnect());
    assert_eq!(tcp.reply_id, 0);
}

#[test]
fn unexpected_outcomes_end_the_operation() {
    let mut tcp = connected(5);
    assert_eq!(error(tcp.resume(Event::Done)), "Unexpected event");
    let _ = tcp.execute_cmd(cmd::CMD_GET_TIME, &[]);
    assert_eq!(error(tcp.resume(Event::Data(vec![1]))), "Unexpected event");
    assert_eq!(tcp.phase, TcpPhase::Idle);
    let _ = tcp.execute_cmd(cmd::CMD_GET_TIME, &[]);
    let _ = tcp.resume(Event::Done);
    assert_eq!(error(tcp.resume(Event::Expired)), "Unexpected event");
}

#[test]
fn chunk_plan_of_an_empty_data_set() {
    assert_eq!(total_chunks(0), 0);
    assert_eq!(receive_budget(0), 60);
}

#[test]
fn chunk_plan_of_one_full_chunk() {
    let size = MAX_CHUNK as u32;
    assert_eq!(total_chunks(size), 1);
    assert_eq!(size % MAX_CHUNK as u32, 0);
    let payload = chunk_request(size, 0);
    assert_eq!(read_u32(&payload, 0), 0);
    assert_eq!(read_u32(&payload, 4), MAX_CHUNK as u32);
    assert_eq!(receive_budget(size), 90);
}

#[test]
fn chunk_plan_of_one_byte_more_than_a_chunk() {
    let size = MAX_CHUNK as u32 + 1;
    assert_eq!(total_chunks(size), 2);
    let first = chunk_request(size, 0);
    assert_eq!((read_u32(&first, 0), read_u32(&first, 4)), (0, MAX_CHUNK as u32));
    let last = chunk_request(size, 1);
    assert_eq!((read_u32(&last, 0), read_u32(&last, 4)), (MAX_CHUNK as u32, 1));
    assert_eq!(receive_budget(size), 120);
}

#[test]
fn chunk_plan_covers_the_data_set() {
    for &size in &[1u32, 65471, 65472, 65473, 130944, 130945, 464_000, u32::MAX] {
        let total = total_chunks(size);
        let mut end: u64 = 0;
        for i in 0..total {
            let payload = chunk_request(size, i);
            assert_eq!(payload.len(), 8);
            assert_eq!(read_u32(&payload, 0) as u64, end);
            let len = read_u32(&payload, 4) as u64;
            assert!(len >= 1 && len <= MAX_CHUNK as u64);
            end += len;
        }
        assert_eq!(end, size as u64);
    }
}

#[test]
fn bulk_read_of_a_small_data_set() {
    let mut tcp = connected(5);
    let request = sent(tcp.read_with_buffer(&[1, 9, 0, 5]));
    assert_eq!(request, create_tcp_header(cmd::CMD_DATA_WRRQ, 5, 1, &[1, 9, 0, 5]));
    assert_eq!(receive_timeout(tcp.resume(Event::Done)), 10000);
    let (data, small) = buffer(tcp.resume(Event::Data(reply(cmd::CMD_DATA, 5, &[9, 8, 7]))));
    assert_eq!(data, vec![9, 8, 7]);
    assert!(small);
    assert_eq!(tcp.phase, TcpPhase::Idle);
}

#[test]
fn bulk_read_collects_the_first_response_across_reads() {
    let mut tcp = connected(5);
    let _ = tcp.read_with_buffer(&[1]);
    let _ = tcp.resume(Event::Done);
    let whole = reply(cmd::CMD_DATA, 5, &[4, 5, 6, 7]);
    assert_eq!(receive_timeout(tcp.resume(Event::Data(whole[..10].to_vec()))), 10000);
    assert_eq!(receive_timeout(tcp.resume(Event::Data(whole[10..15].to_vec()))), 10000);
    let (data, small) = buffer(tcp.resume(Event::Data(whole[15..].to_vec())));
    assert_eq!(data, vec![4, 5, 6, 7]);
    assert!(small);
}

#[test]
fn bulk_read_of_an_empty_data_set_asks_for_no_chunk() {
    let mut tcp = connected(5);
    let _ = tcp.read_with_buffer(&[1]);
    let _ = tcp.resume(Event::Done);
    let before = tcp.reply_id;
    let (data, small) = buffer(tcp.resume(Event::Data(prepare(0))));
    assert!(data.is_empty());
    assert!(!small);
    assert_eq!(tcp.size, 0);
    assert_eq!(tcp.packets_remaining, 0);
    assert_eq!(tcp.reply_id, before);
}

#[test]
fn bulk_read_of_one_full_chunk() {
    let mut tcp = connected(5);
    let requests = bulk_until_chunks(&mut tcp, MAX_CHUNK as u32);
    assert_eq!(requests.len(), 1);
    let mut expected = Vec::new();
    expected.extend_from_slice(&0u32.to_le_bytes());
    expected.extend_from_slice(&(MAX_CHUNK as u32).to_le_bytes());
    assert_eq!(requests[0], create_tcp_header(cmd::CMD_DATA_RDY, 5, 2, &expected));
    let data: Vec<u8> = (0..MAX_CHUNK).map(|i| (i % 251) as u8).collect();
    let (got, small) = buffer(tcp.resume(Event::Data(chunk_packet(&data))));
    assert_eq!(got, data);
    assert!(!small);
}

#[test]
fn bulk_read_of_one_byte_more_than_a_chunk() {
    let mut tcp = connected(5);
    let size = MAX_CHUNK as u32 + 1;
    let requests = bulk_until_chunks(&mut tcp, size);
    assert_eq!(requests.len(), 2);
    assert_eq!(read_u16(&requests[0], 14), 3);
    assert_eq!(read_u16(&requests[1], 14), 4);
    assert_eq!(read_u32(&requests[1], 16), MAX_CHUNK as u32);
    assert_eq!(read_u32(&requests[1], 20), 1);
    assert_eq!(tcp.reply_id, 3);
    let first: Vec<u8> = (0..MAX_CHUNK).map(|i| (i % 7) as u8).collect();
    assert_eq!(receive_until(tcp.resume(Event::Data(chunk_packet(&first)))), (120, false));
    assert_eq!(tcp.packets_remaining, 1);
    let (got, small) = buffer(tcp.resume(Event::Data(chunk_packet(&[0xab]))));
    assert_eq!(got.len(), size as usize);
    assert_eq!(&got[..MAX_CHUNK], &first[..]);
    assert_eq!(got[MAX_CHUNK], 0xab);
    assert!(!small);
}

#[test]
fn bulk_read_takes_packets_apart_across_reads() {
    let mut tcp = connected(5);
    let _ = bulk_until_chunks(&mut tcp, 10);
    let packet = chunk_packet(&[1, 2, 3, 4, 5, 6, 7, 8, 9, 10]);
    assert_eq!(receive_until(tcp.resume(Event::Data(packet[..5].to_vec()))), (90, false));
    assert_eq!(receive_until(tcp.resume(Event::Data(packet[5..20].to_vec()))), (90, false));
    let (got, _) = buffer(tcp.resume(Event::Data(packet[20..].to_vec())));
    assert_eq!(got, vec![1, 2, 3, 4, 5, 6, 7, 8, 9, 10]);
}

#[test]
fn bulk_read_joins_the_inner_packets_of_one_chunk() {
    let mut tcp = connected(5);
    let _ = bulk_until_chunks(&mut tcp, 6);
    // The chunk arrives in two inner packets: metadata and three bytes,
    // then three bytes more.
    let mut first_payload = vec![0u8; 8];
    first_payload.extend_from_slice(&[1, 2, 3]);
    let mut stream = reply(cmd::CMD_DATA, 5, &first_payload);
    stream.extend(reply(cmd::CMD_DATA, 5, &[4, 5, 6]));
    let (got, _) = buffer(tcp.resume(Event::Data(stream)));
    assert_eq!(got, vec![1, 2, 3, 4, 5, 6]);
}

#[test]
fn bulk_read_skips_events() {
    let mut tcp = connected(5);
    let _ = bulk_until_chunks(&mut tcp, 3);
    let event = create_tcp_header(cmd::CMD_REG_EVENT, 1, 0, &[1, 2, 3, 4, 5, 6, 7, 8, 9, 9, 9]);
    assert_eq!(receive_until(tcp.resume(Event::Data(event))), (90, false));
    let in_session = create_tcp_header(cmd::CMD_REG_EVENT, 5, 7, &[0; 11]);
    assert_eq!(receive_until(tcp.resume(Event::Data(in_session))), (90, false));
    let bare = vec![0xf4, 1, 0, 0, 0, 0, 0, 0];
    assert_eq!(receive_until(tcp.resume(Event::Data(bare))), (90, false));
    assert_eq!(tcp.packets_remaining, 1);
    assert!(tcp.stream.is_empty());
    let (got, _) = buffer(tcp.resume(Event::Data(chunk_packet(&[7, 8, 9]))));
    assert_eq!(got, vec![7, 8, 9]);
}

#[test]
fn bulk_read_failures_are_reported() {
    let mut tcp = connected(5);
    let _ = tcp.read_with_buffer(&[1]);
    assert_eq!(error(tcp.resume(Event::Failed("x".to_string()))), "TCP write failed: x");
    let _ = tcp.read_with_buffer(&[1]);
    let _ = tcp.resume(Event::Done);
    assert_eq!(error(tcp.resume(Event::TimedOut)), "Timeout receiving data request response");
    let _ = tcp.read_with_buffer(&[1]);
    let _ = tcp.resume(Event::Done);
    assert_eq!(error(tcp.resume(Event::Failed("y".to_string()))), "TCP read failed: y");
    let _ = tcp.read_with_buffer(&[1]);
    let _ = tcp.resume(Event::Done);
    assert_eq!(error(tcp.resume(Event::Data(vec![]))), "Connection closed during data request");
    let _ = tcp.read_with_buffer(&[1]);
    let _ = tcp.resume(Event::Done);
    assert_eq!(
        error(tcp.resume(Event::Data(reply(cmd::CMD_PREPARE_DATA, 5, &[0, 1, 0, 0])))),
        "Prepare data response too short"
    );
    let _ = tcp.read_with_buffer(&[1]);
    let _ = tcp.resume(Event::Done);
    assert_eq!(
        error(tcp.resume(Event::Data(reply(cmd::CMD_ACK_UNAUTH, 5, &[])))),
        "Unexpected command in data response: 2005 (CMD_ACK_UNAUTH)"
    );
    let _ = tcp.read_with_buffer(&[1]);
    let _ = tcp.resume(Event::Done);
    assert_eq!(
        error(tcp.resume(Event::Data(reply(77, 5, &[])))),
        "Unexpected command in data response: 77 (UNKNOWN_COMMAND)"
    );
}

#[test]
fn chunk_failures_are_reported_with_the_progress() {
    let mut tcp = connected(5);
    let _ = tcp.read_with_buffer(&[1]);
    let _ = tcp.resume(Event::Done);
    let _ = sent(tcp.resume(Event::Data(prepare(70000))));
    assert_eq!(
        error(tcp.resume(Event::Failed("z".to_string()))),
        "TCP write chunk request failed: z"
    );

    let mut tcp = connected(5);
    let _ = bulk_until_chunks(&mut tcp, 70000);
    let first: Vec<u8> = vec![3u8; MAX_CHUNK];
    let _ = receive_until(tcp.resume(Event::Data(chunk_packet(&first))));
    assert_eq!(
        error(tcp.resume(Event::Expired)),
        "Timeout receiving chunks, 1 packets remain, got 65472/70000 bytes"
    );

    let mut tcp = connected(5);
    let _ = bulk_until_chunks(&mut tcp, 70000);
    assert_eq!(
        error(tcp.resume(Event::TimedOut)),
        "Timeout receiving chunk data, 2 packets remain"
    );

    let mut tcp = connected(5);
    let _ = bulk_until_chunks(&mut tcp, 70000);
    assert_eq!(error(tcp.resume(Event::Failed("q".to_string()))), "TCP read chunk failed: q");

    let mut tcp = connected(5);
    let _ = bulk_until_chunks(&mut tcp, 70000);
    assert_eq!(error(tcp.resume(Event::Data(vec![]))), "Connection closed during chunk transfer");
}

#[test]
fn chunk_with_a_length_below_its_header_is_malformed() {
    let mut tcp = connected(5);
    let _ = bulk_until_chunks(&mut tcp, 4);
    let bad = vec![0x50, 0x50, 0x82, 0x7d, 7, 0, 0, 0, 1, 2, 3, 4, 5, 6, 7];
    assert_eq!(error(tcp.resume(Event::Data(bad))), "Malformed chunk packet");
}

#[test]
fn drain_stops_when_no_chunk_is_to_come() {
    let mut stream = chunk_packet(&[1, 2, 3]);
    let mut chunk = Vec::new();
    let mut data = Vec::new();
    let before = stream.clone();
    let left = drain_stream(&mut stream, &mut chunk, &mut data, 0, 3);
    assert_eq!(left, (0, false));
    assert_eq!(stream, before);
    assert!(chunk.is_empty() && data.is_empty());
}

#[test]
fn drain_keeps_an_incomplete_packet() {
    let whole = chunk_packet(&[1, 2, 3]);
    let mut stream = whole[..whole.len() - 1].to_vec();
    let mut chunk = Vec::new();
    let mut data = Vec::new();
    let left = drain_stream(&mut stream, &mut chunk, &mut data, 1, 3);
    assert_eq!(left, (1, false));
    assert_eq!(stream.len(), whole.len() - 1);
    assert!(chunk.is_empty() && data.is_empty());
}

#[test]
fn users_are_read_in_bulk_between_two_releases() {
    let mut tcp = connected(5);
    let free = sent(tcp.get_users());
    assert_eq!(free, create_tcp_header(cmd::CMD_FREE_DATA, 5, 1, &[]));
    let _ = tcp.resume(Event::Done);
    let request = sent(tcp.resume(Event::Data(reply(cmd::CMD_ACK_OK, 5, &[]))));
    assert_eq!(
        request,
        create_tcp_header(cmd::CMD_DATA_WRRQ, 5, 2, &[1, 9, 0, 5, 0, 0, 0, 0, 0, 0, 0])
    );
    let _ = tcp.resume(Event::Done);
    let mut payload = 144u32.to_le_bytes().to_vec();
    payload.extend(user_row_72(1, b"Alice", b"1001"));
    payload.extend(user_row_72(2, b"", b"1002"));
    let free_again = sent(tcp.resume(Event::Data(reply(cmd::CMD_DATA, 5, &payload))));
    assert_eq!(free_again, create_tcp_header(cmd::CMD_FREE_DATA, 5, 3, &[]));
    let _ = tcp.resume(Event::Done);
    match tcp.resume(Event::TimedOut) {
        Step::Finished(Ok(Payload::UserRows(rows))) => {
            assert_eq!(rows.len(), 2);
            assert_eq!(rows[0], (1, "1001".to_string(), "Alice".to_string()));
            assert_eq!(rows[1], (2, "1002".to_string(), "".to_string()));
        }
        other => panic!("expected user rows, got {:?}", other),
    }
}

#[test]
fn users_are_read_in_chunks() {
    let mut tcp = connected(5);
    let _ = tcp.get_users();
    let _ = tcp.resume(Event::Done);
    let _ = sent(tcp.resume(Event::Failed("release failed".to_string())));
    let _ = tcp.resume(Event::Done);
    let request = sent(tcp.resume(Event::Data(prepare(148))));
    assert_eq!(read_u32(&request, 16), 0);
    assert_eq!(read_u32(&request, 20), 148);
    assert_eq!(receive_until(tcp.resume(Event::Done)), (90, true));
    let mut data = 144u32.to_le_bytes().to_vec();
    data.extend(user_row_72(7, b"Bob", b"42"));
    data.extend(user_row_72(8, b"Eve", b"43"));
    let _ = sent(tcp.resume(Event::Data(chunk_packet(&data))));
    let _ = tcp.resume(Event::Done);
    match tcp.resume(Event::Data(reply(cmd::CMD_ACK_OK, 5, &[]))) {
        Step::Finished(Ok(Payload::UserRows(rows))) => {
            assert_eq!(rows.len(), 2);
            assert_eq!(rows[0], (7, "42".to_string(), "Bob".to_string()));
            assert_eq!(rows[1], (8, "43".to_string(), "Eve".to_string()));
        }
        other => panic!("expected user rows, got {:?}", other),
    }
}

#[test]
fn users_fail_when_the_bulk_read_fails() {
    let mut tcp = connected(5);
    let _ = tcp.get_users();
    let _ = tcp.resume(Event::Done);
    let _ = sent(tcp.resume(Event::TimedOut));
    let _ = tcp.resume(Event::Done);
    assert_eq!(error(tcp.resume(Event::TimedOut)), "Timeout receiving data request response");
}

#[test]
fn attendances_are_read_in_bulk() {
    let mut tcp = connected(5);
    let _ = tcp.get_attendances();
    let _ = tcp.resume(Event::Done);
    let request = sent(tcp.resume(Event::Data(reply(cmd::CMD_ACK_OK, 5, &[]))));
    assert_eq!(
        request,
        create_tcp_header(cmd::CMD_DATA_WRRQ, 5, 2, &[1, 13, 0, 0, 0, 0, 0, 0, 0, 0, 0])
    );
    let _ = tcp.resume(Event::Done);
    let mut payload = 80u32.to_le_bytes().to_vec();
    payload.extend(record_row_40(b"1001", 1, 0, 772621200));
    payload.extend(record_row_40(b"1002", 15, 1, 772621201));
    let _ = sent(tcp.resume(Event::Data(reply(cmd::CMD_DATA, 5, &payload))));
    let _ = tcp.resume(Event::Done);
    match tcp.resume(Event::Data(reply(cmd::CMD_ACK_OK, 5, &[]))) {
        Step::Finished(Ok(Payload::RecordRows(rows))) => {
            assert_eq!(rows.len(), 2);
            assert_eq!(
                rows[0],
                ("1001".to_string(), "2024-01-15T09:00:00.000Z".to_string(), 1, 0)
            );
            assert_eq!(
                rows[1],
                ("1002".to_string(), "2024-01-15T09:00:01.000Z".to_string(), 15, 1)
            );
        }
        other => panic!("expected record rows, got {:?}", other),
    }
}
