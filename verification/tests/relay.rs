use bastion_tunnel::error::Error;
use bastion_tunnel::serve::copy;
use bastion_tunnel::serve::RelayAction;
use bastion_tunnel::serve::RelayEvent;
use bastion_tunnel::serve::CHUNK_SIZE;

/// Feeds events to the relay until it finishes; gives what was sent to the
/// tunnel, what was written locally, and the result if it finished.
fn drive(events: Vec<RelayEvent>) -> (Vec<Vec<u8>>, Vec<u8>, Option<Result<(), Error>>) {
    let mut sent: Vec<Vec<u8>> = Vec::new();
    let mut written: Vec<u8> = Vec::new();
    for event in events {
        match copy(event) {
            RelayAction::Send(message) => sent.push(message),
            RelayAction::Write(data) => written.extend_from_slice(&data),
            RelayAction::Finish(result) => return (sent, written, Some(result)),
        }
    }
    (sent, written, None)
}

#[test]
fn chunk_size_is_4096() {
    assert_eq!(CHUNK_SIZE, 4096);
}

#[test]
fn a_chunk_becomes_one_message() {
    match copy(RelayEvent::LocalRead(vec![1, 2, 3])) {
        RelayAction::Send(message) => assert_eq!(message, vec![1, 2, 3]),
        _ => panic!("a message was expected"),
    }
}

#[test]
fn a_message_is_written_in_full() {
    match copy(RelayEvent::TunnelMessage(vec![9, 8, 7, 6])) {
        RelayAction::Write(data) => assert_eq!(data, vec![9, 8, 7, 6]),
        _ => panic!("a write was expected"),
    }
    match copy(RelayEvent::TunnelMessage(Vec::new())) {
        RelayAction::Write(data) => assert!(data.is_empty()),
        _ => panic!("a write was expected"),
    }
}

#[test]
fn local_close_ends_the_relay() {
    assert!(matches!(copy(RelayEvent::LocalRead(Vec::new())), RelayAction::Finish(Ok(()))));
}

#[test]
fn tunnel_close_ends_the_relay() {
    assert!(matches!(copy(RelayEvent::TunnelClosed), RelayAction::Finish(Ok(()))));
}

#[test]
fn failures_end_the_relay_with_their_error() {
    assert!(matches!(
        copy(RelayEvent::ConnectFailed),
        RelayAction::Finish(Err(Error::TunnelConnect))
    ));
    assert!(matches!(copy(RelayEvent::LocalFailed), RelayAction::Finish(Err(Error::Io))));
    assert!(matches!(copy(RelayEvent::TunnelFailed), RelayAction::Finish(Err(Error::Io))));
}

#[test]
fn echo_returns_the_bytes_in_order() {
    let input: Vec<u8> = (0..10000u32).map(|i| (i % 251) as u8).collect();
    let mut events: Vec<RelayEvent> = Vec::new();
    for chunk in input.chunks(CHUNK_SIZE) {
        events.push(RelayEvent::LocalRead(chunk.to_vec()));
    }
    let (sent, written, result) = drive(events);
    assert_eq!(result, None);
    assert!(written.is_empty());
    assert_eq!(sent.len(), 3);
    assert_eq!(sent.concat(), input);
    let echoed: Vec<u8> = sent.concat();
    let mut back: Vec<RelayEvent> = Vec::new();
    for piece in echoed.chunks(777) {
        back.push(RelayEvent::TunnelMessage(piece.to_vec()));
    }
    back.push(RelayEvent::LocalRead(Vec::new()));
    let (sent_back, written_back, result_back) = drive(back);
    assert!(sent_back.is_empty());
    assert_eq!(written_back, input);
    assert_eq!(result_back, Some(Ok(())));
}

#[test]
fn interleaved_traffic_keeps_both_orders() {
    let events = vec![
        RelayEvent::LocalRead(vec![1, 2]),
        RelayEvent::TunnelMessage(vec![10]),
        RelayEvent::LocalRead(vec![3]),
        RelayEvent::TunnelMessage(vec![11, 12]),
        RelayEvent::TunnelClosed,
    ];
    let (sent, written, result) = drive(events);
    assert_eq!(sent, vec![vec![1, 2], vec![3]]);
    assert_eq!(written, vec![10, 11, 12]);
    assert_eq!(result, Some(Ok(())));
}

#[test]
fn nothing_is_relayed_after_the_end() {
    let events = vec![
        RelayEvent::LocalRead(vec![1]),
        RelayEvent::LocalRead(Vec::new()),
        RelayEvent::TunnelMessage(vec![5]),
        RelayEvent::LocalRead(vec![2]),
    ];
    let (sent, written, result) = drive(events);
    assert_eq!(sent, vec![vec![1]]);
    assert!(written.is_empty());
    assert_eq!(result, Some(Ok(())));
}

#[test]
fn failed_handshake_relays_nothing() {
    let events = vec![RelayEvent::ConnectFailed, RelayEvent::LocalRead(vec![1])];
    let (sent, written, result) = drive(events);
    assert!(sent.is_empty());
    assert!(written.is_empty());
    assert_eq!(result, Some(Err(Error::TunnelConnect)));
}

#[test]
fn a_full_chunk_is_one_message() {
    match copy(RelayEvent::LocalRead(vec![7; CHUNK_SIZE])) {
        RelayAction::Send(message) => assert_eq!(message, vec![7; CHUNK_SIZE]),
        _ => panic!("a message was expected"),
    }
}

#[test]
fn a_burst_read_in_chunks_goes_out_in_as_many_messages() {
    let burst: Vec<u8> = (0..5000u32).map(|i| (i % 251) as u8).collect();
    let reads: Vec<RelayEvent> =
        burst.chunks(CHUNK_SIZE).map(|chunk| RelayEvent::LocalRead(chunk.to_vec())).collect();
    let (sent, written, result) = drive(reads);
    assert_eq!(sent.len(), 2);
    assert_eq!(sent[0].len(), 4096);
    assert_eq!(sent[1].len(), 904);
    assert!(sent.iter().all(|message| 1 <= message.len() && message.len() <= CHUNK_SIZE));
    assert_eq!(sent.concat(), burst);
    assert!(written.is_empty());
    assert_eq!(result, None);
}
