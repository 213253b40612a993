use shmem_channel::channel::{wait_failure, ChannelError, Endpoint, Role, ShmemChannel, Teardown};
use shmem_channel::layout::{offsets, Layout};

const REGION: usize = 4096;
const EVENT: usize = 40;

fn pair() -> (Endpoint, Endpoint) {
    let server = Endpoint::server(EVENT, EVENT, REGION).unwrap();
    let client = Endpoint::client(EVENT, EVENT, REGION).unwrap();
    (server, client)
}

#[test]
fn offsets_follow_the_events() {
    assert_eq!(offsets(40, 40), (80, 81, 89));
    assert_eq!(offsets(0, 0), (0, 1, 9));
    assert_eq!(offsets(64, 16), (80, 81, 89));
}

#[test]
fn layout_needs_room_for_the_header() {
    assert!(Layout::new(40, 40, 88).is_none());
    let exact = Layout::new(40, 40, 89).unwrap();
    assert_eq!(exact.payload_capacity(), 0);
    assert!(Layout::new(usize::MAX, 1, usize::MAX).is_none());
    let l = Layout::new(40, 40, REGION).unwrap();
    assert_eq!(l.disconnect_offset, 80);
    assert_eq!(l.len_offset, 81);
    assert_eq!(l.data_offset, 89);
    assert_eq!(l.payload_capacity(), REGION - 89);
}

#[test]
fn length_validity() {
    let l = Layout::new(0, 0, 19).unwrap();
    assert_eq!(l.payload_capacity(), 10);
    assert!(!l.is_valid_len(0));
    assert!(l.is_valid_len(1));
    assert!(l.is_valid_len(9));
    assert!(!l.is_valid_len(10));
    assert!(!l.is_valid_len(u64::MAX));
    assert!(l.message_fits(10));
    assert!(!l.message_fits(11));
}

#[test]
fn both_ends_derive_the_same_layout() {
    let (server, client) = pair();
    assert_eq!(server.layout, client.layout);
    assert_eq!(server.role, Role::Server);
    assert_eq!(client.role, Role::Client);
    assert_eq!(Endpoint::server(EVENT, EVENT, 50), Err(ChannelError::RegionTooSmall));
    assert_eq!(Endpoint::client(EVENT, EVENT, 50), Err(ChannelError::RegionTooSmall));
}

#[test]
fn events_waited_on_and_signaled() {
    let (server, client) = pair();
    assert_eq!(server.wait_event(), Role::Server);
    assert_eq!(server.signal_event(), Role::Client);
    assert_eq!(client.wait_event(), Role::Client);
    assert_eq!(client.signal_event(), Role::Server);
}

#[test]
fn send_writes_only_the_payload() {
    let (_, client) = pair();
    let mut region = vec![0xAAu8; REGION];
    let n = client.send(&mut region, b"hello").unwrap();
    assert_eq!(n, 5);
    assert_eq!(&region[89..94], b"hello");
    assert!(region[..89].iter().all(|b| *b == 0xAA));
    assert!(region[94..].iter().all(|b| *b == 0xAA));
}

#[test]
fn hello_round_trip() {
    let (server, client) = pair();
    let mut region = vec![0u8; REGION];
    let n = client.send(&mut region, b"hello").unwrap();
    let got = server.receive(false, n, &region).unwrap();
    assert_eq!(got, Some(b"hello".to_vec()));
}

#[test]
fn round_trip_server_to_client() {
    let (server, client) = pair();
    let mut region = vec![0u8; REGION];
    let msg: Vec<u8> = (0..=255u8).collect();
    let n = server.send(&mut region, &msg).unwrap();
    assert_eq!(client.receive(false, n, &region).unwrap(), Some(msg));
}

#[test]
fn no_stale_bytes_after_send() {
    let (server, client) = pair();
    let mut region: Vec<u8> = (0..REGION).map(|i| (i % 251) as u8).collect();
    let n = client.send(&mut region, &[7, 8, 9]).unwrap();
    assert_eq!(server.receive(false, n, &region).unwrap(), Some(vec![7, 8, 9]));
}

#[test]
fn oversize_message_is_refused_untouched() {
    let client = Endpoint::client(0, 0, 19).unwrap();
    let mut region = vec![3u8; 19];
    let msg = vec![1u8; 11];
    assert_eq!(client.send(&mut region, &msg), Err(ChannelError::MessageTooLarge));
    assert_eq!(region, vec![3u8; 19]);
    let full = vec![1u8; 10];
    assert_eq!(client.send(&mut region, &full), Ok(10));
}

#[test]
fn last_write_wins() {
    let (server, client) = pair();
    let mut region = vec![0u8; REGION];
    client.send(&mut region, b"first message").unwrap();
    let n = client.send(&mut region, b"hi").unwrap();
    assert_eq!(server.receive(false, n, &region).unwrap(), Some(b"hi".to_vec()));
}

#[test]
fn disconnect_comes_before_the_payload() {
    let (server, client) = pair();
    let mut region = vec![0u8; REGION];
    let n = client.send(&mut region, b"hello").unwrap();
    assert_eq!(server.receive(true, n, &region), Ok(None));
    assert_eq!(server.receive(true, 0, &region), Ok(None));
}

#[test]
fn corrupt_length_is_a_protocol_violation() {
    let (server, _) = pair();
    let region = vec![0u8; REGION];
    assert_eq!(server.receive(false, 0, &region), Err(ChannelError::ProtocolViolation));
    let cap = (REGION - 89) as u64;
    assert_eq!(server.receive(false, cap, &region), Err(ChannelError::ProtocolViolation));
    assert_eq!(server.receive(false, u64::MAX, &region), Err(ChannelError::ProtocolViolation));
    assert_eq!(server.receive(false, cap - 1, &region).unwrap().unwrap().len(), REGION - 90);
}

#[test]
fn teardown_decisions() {
    let (server, client) = pair();
    assert_eq!(client.teardown(false), Teardown::Disconnect);
    assert_eq!(client.teardown(true), Teardown::Disconnect);
    assert_eq!(server.teardown(true), Teardown::CleanClose);
    assert_eq!(server.teardown(false), Teardown::ClosedBeforeDisconnect);
}

#[test]
fn failed_waits() {
    assert_eq!(wait_failure(true), ChannelError::Timeout);
    assert_eq!(wait_failure(false), ChannelError::WaitFailed);
}

#[test]
fn channel_over_a_mapping() {
    let memory = shared_memory::ShmemConf::new().size(REGION).create().unwrap();
    let len = memory.len();
    let channel = ShmemChannel::new_server(memory, EVENT, EVENT).unwrap();
    let e = channel.endpoint();
    assert_eq!(e.role, Role::Server);
    assert_eq!(e.layout.region_len, len);
    assert_eq!(e.layout.data_offset, 89);
    assert_eq!(channel.memory().len(), len);
    let mut region = vec![0u8; len];
    let n = channel.send(&mut region, b"ping").unwrap();
    assert_eq!(channel.receive(false, n, &region).unwrap(), Some(b"ping".to_vec()));
    assert_eq!(channel.teardown(false), Teardown::ClosedBeforeDisconnect);
}

#[test]
fn channel_refuses_a_small_mapping() {
    let memory = shared_memory::ShmemConf::new().size(64).create().unwrap();
    let r = ShmemChannel::new_client(memory, EVENT, EVENT);
    assert_eq!(r.err(), Some(ChannelError::RegionTooSmall));
}
