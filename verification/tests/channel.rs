use dori::operation::FileTransferOperation;
use dori::operation::Operation;
use dori::operation::Response;
use dori::stream::frame;
use dori::stream::payload_length;
use dori::stream::unframe;
use dori::stream::ChannelFault;
use dori::stream::SecureChannel;
use magic_crypt::MagicCrypt256;
use magic_crypt::MagicCryptTrait;

fn channel(key: &str) -> SecureChannel {
    SecureChannel::new(key.to_string())
}

#[test]
fn frame_puts_the_length_in_front() {
    assert_eq!(frame(&[1, 2, 3]), Some(vec![3u8, 0, 0, 0, 1, 2, 3]));
    assert_eq!(frame(&[]), Some(vec![0u8, 0, 0, 0]));
}

#[test]
fn unframe_wants_exactly_one_whole_frame() {
    assert_eq!(unframe(&[3, 0, 0, 0, 1, 2, 3]), Some(vec![1u8, 2, 3]));
    assert_eq!(unframe(&[0, 0, 0, 0]), Some(Vec::new()));
    assert_eq!(unframe(&[3, 0, 0, 0, 1, 2]), None);
    assert_eq!(unframe(&[3, 0, 0, 0, 1, 2, 3, 4]), None);
    assert_eq!(unframe(&[3, 0, 0]), None);
}

#[test]
fn payload_length_reads_the_header() {
    assert_eq!(payload_length(&[16, 0, 0, 0]), Some(16));
    assert_eq!(payload_length(&[0, 1, 0, 0]), Some(256));
    assert_eq!(payload_length(&[16, 0, 0]), None);
    assert_eq!(payload_length(&[]), None);
}

#[test]
fn secure_tcp_stream_is_the_secure_channel() {
    let mut sender = dori::stream::SecureTcpStream::new("K1".to_string());
    sender.writes_flag(true).unwrap();
    let bytes = sender.flush().unwrap();
    let mut receiver = channel("K1");
    receiver.receive(&bytes).unwrap();
    assert_eq!(receiver.reads_flag(), Ok(true));
}

#[test]
fn fresh_channel_is_empty_and_usable() {
    let c = channel("K1");
    assert!(c.is_usable());
    assert_eq!(c.fault(), None);
    assert_eq!(c.pending_len(), 0);
    assert_eq!(c.unread_len(), 0);
}

#[test]
fn writes_only_fill_the_buffer() {
    let mut c = channel("K1");
    assert_eq!(c.write(&[1, 2, 3]), Ok(3));
    assert_eq!(c.pending_len(), 3);
    assert_eq!(c.writes_flag(true), Ok(()));
    assert_eq!(c.pending_len(), 4);
    assert_eq!(c.writes_text("ab"), Ok(()));
    assert_eq!(c.pending_len(), 10);
    assert_eq!(c.writes_operation(&Operation::Ping), Ok(()));
    assert_eq!(c.pending_len(), 11);
    assert_eq!(c.writes_response(&Response::Pong), Ok(()));
    assert_eq!(c.pending_len(), 12);
}

#[test]
fn flush_makes_one_frame_of_the_whole_buffer() {
    let mut c = channel("K1");
    c.write(b"first").unwrap();
    c.write(b"second").unwrap();
    let bytes = c.flush().unwrap();
    assert_eq!(c.pending_len(), 0);
    let length = u32::from_le_bytes([bytes[0], bytes[1], bytes[2], bytes[3]]) as usize;
    assert_eq!(length, bytes.len() - 4);
    let cipher = MagicCrypt256::new("K1", None::<&str>);
    assert_eq!(cipher.decrypt_bytes_to_bytes(&bytes[4..]).unwrap(), b"firstsecond".to_vec());
}

#[test]
fn flush_encrypts_with_the_256_bit_cipher() {
    let mut c = channel("magickey");
    c.write(b"http://magiclen.org").unwrap();
    let bytes = c.flush().unwrap();
    let expected: Vec<u8> = vec![
        32, 0, 0, 0, 13, 47, 246, 83, 202, 232, 200, 57, 201, 14, 35, 88, 218, 155, 55, 127, 166,
        104, 77, 186, 89, 163, 198, 109, 80, 102, 11, 24, 72, 240, 44, 52,
    ];
    assert_eq!(bytes, expected);
}

#[test]
fn flush_of_nothing_is_a_frame_of_one_block() {
    let mut c = channel("K1");
    let bytes = c.flush().unwrap();
    assert_eq!(bytes.len(), 4 + 16);
    let mut peer = channel("K1");
    assert_eq!(peer.receive(&bytes), Ok(()));
    assert_eq!(peer.unread_len(), 0);
}

#[test]
fn ciphertext_is_not_the_plaintext() {
    let mut c = channel("K1");
    c.write(b"sixteen byte msg").unwrap();
    let bytes = c.flush().unwrap();
    assert_ne!(&bytes[4..20], b"sixteen byte msg");
    assert_eq!(bytes.len(), 4 + 32);
}

#[test]
fn receive_opens_what_flush_sealed() {
    let mut sender = channel("K1");
    let mut receiver = channel("K1");
    sender.writes_text("agentA").unwrap();
    let bytes = sender.flush().unwrap();
    assert_eq!(receiver.receive(&bytes), Ok(()));
    assert_eq!(receiver.unread_len(), 10);
    assert_eq!(receiver.reads_text(), Ok("agentA".to_string()));
    assert_eq!(receiver.unread_len(), 0);
}

#[test]
fn several_values_travel_in_one_frame() {
    let mut sender = channel("K1");
    let mut receiver = channel("K1");
    let op = Operation::Upload(FileTransferOperation::new("f".to_string(), vec![1, 2]));
    sender.writes_text("one").unwrap();
    sender.writes_flag(false).unwrap();
    sender.writes_operation(&op).unwrap();
    sender.writes_response(&Response::Pong).unwrap();
    sender.writes_flag(true).unwrap();
    let bytes = sender.flush().unwrap();
    receiver.receive(&bytes).unwrap();
    assert_eq!(receiver.reads_text(), Ok("one".to_string()));
    assert_eq!(receiver.reads_flag(), Ok(false));
    assert_eq!(receiver.reads_operation(), Ok(op));
    assert_eq!(receiver.reads_response(), Ok(Response::Pong));
    assert_eq!(receiver.reads_flag(), Ok(true));
    assert_eq!(receiver.unread_len(), 0);
}

#[test]
fn what_is_left_unread_is_lost_with_the_next_frame() {
    let mut sender = channel("K1");
    let mut receiver = channel("K1");
    sender.writes_text("kept").unwrap();
    sender.writes_text("lost").unwrap();
    let first = sender.flush().unwrap();
    sender.writes_text("next").unwrap();
    let second = sender.flush().unwrap();
    receiver.receive(&first).unwrap();
    assert_eq!(receiver.reads_text(), Ok("kept".to_string()));
    assert_eq!(receiver.unread_len(), 8);
    receiver.receive(&second).unwrap();
    assert_eq!(receiver.unread_len(), 8);
    assert_eq!(receiver.reads_text(), Ok("next".to_string()));
    assert_eq!(receiver.unread_len(), 0);
}

#[test]
fn wrong_secret_is_a_crypto_fault() {
    let mut sender = channel("K1");
    let mut receiver = channel("K2");
    sender.writes_text("agentA").unwrap();
    let bytes = sender.flush().unwrap();
    assert_eq!(receiver.receive(&bytes), Err(ChannelFault::CryptoFault));
    assert_eq!(receiver.fault(), Some(ChannelFault::CryptoFault));
    assert!(!receiver.is_usable());
}

#[test]
fn ciphertext_of_a_broken_length_is_a_crypto_fault() {
    let mut sender = channel("K1");
    let mut receiver = channel("K1");
    sender.writes_text("agentA").unwrap();
    let bytes = sender.flush().unwrap();
    let cut = frame(&bytes[4..bytes.len() - 1]).unwrap();
    assert_eq!(receiver.receive(&cut), Err(ChannelFault::CryptoFault));
    let mut receiver = channel("K1");
    assert_eq!(receiver.receive(&[0, 0, 0, 0]), Err(ChannelFault::CryptoFault));
}

#[test]
fn a_fault_ends_the_channel_for_good() {
    let mut sender = channel("K1");
    let mut receiver = channel("K2");
    sender.writes_flag(true).unwrap();
    let bytes = sender.flush().unwrap();
    assert_eq!(receiver.receive(&bytes), Err(ChannelFault::CryptoFault));
    assert_eq!(receiver.write(&[1]), Err(ChannelFault::CryptoFault));
    assert_eq!(receiver.writes_flag(true), Err(ChannelFault::CryptoFault));
    assert_eq!(receiver.writes_text("x"), Err(ChannelFault::CryptoFault));
    assert_eq!(receiver.writes_operation(&Operation::Ping), Err(ChannelFault::CryptoFault));
    assert_eq!(receiver.writes_response(&Response::Pong), Err(ChannelFault::CryptoFault));
    assert_eq!(receiver.flush(), Err(ChannelFault::CryptoFault));
    assert_eq!(receiver.reads_flag(), Err(ChannelFault::CryptoFault));
    assert_eq!(receiver.reads_text(), Err(ChannelFault::CryptoFault));
    assert_eq!(receiver.reads_operation(), Err(ChannelFault::CryptoFault));
    assert_eq!(receiver.reads_response(), Err(ChannelFault::CryptoFault));
    let mut again = channel("K2");
    again.writes_flag(true).unwrap();
    let good = again.flush().unwrap();
    assert_eq!(receiver.receive(&good), Err(ChannelFault::CryptoFault));
    assert_eq!(receiver.pending_len(), 0);
}

#[test]
fn bytes_that_are_no_whole_frame_are_a_transport_fault() {
    let mut sender = channel("K1");
    sender.writes_flag(true).unwrap();
    let bytes = sender.flush().unwrap();
    let mut receiver = channel("K1");
    assert_eq!(receiver.receive(&bytes[..bytes.len() - 1]), Err(ChannelFault::TransportFault));
    assert_eq!(receiver.fault(), Some(ChannelFault::TransportFault));
    let mut receiver = channel("K1");
    assert_eq!(receiver.receive(&bytes[..3]), Err(ChannelFault::TransportFault));
    let mut receiver = channel("K1");
    let mut longer = bytes.clone();
    longer.push(0);
    assert_eq!(receiver.receive(&longer), Err(ChannelFault::TransportFault));
    let mut receiver = channel("K1");
    assert_eq!(receiver.receive(&[]), Err(ChannelFault::TransportFault));
}

#[test]
fn reading_past_the_plaintext_is_a_protocol_fault() {
    let mut sender = channel("K1");
    let mut receiver = channel("K1");
    sender.writes_flag(true).unwrap();
    let bytes = sender.flush().unwrap();
    receiver.receive(&bytes).unwrap();
    assert_eq!(receiver.reads_flag(), Ok(true));
    assert_eq!(receiver.reads_flag(), Err(ChannelFault::ProtocolFault));
    assert_eq!(receiver.fault(), Some(ChannelFault::ProtocolFault));
    assert_eq!(receiver.write(&[1]), Err(ChannelFault::ProtocolFault));
}

#[test]
fn reading_before_any_frame_is_a_protocol_fault() {
    let mut c = channel("K1");
    assert_eq!(c.reads_text(), Err(ChannelFault::ProtocolFault));
    assert!(!c.is_usable());
}

#[test]
fn plaintext_that_is_no_value_is_a_protocol_fault() {
    let mut sender = channel("K1");
    sender.write(&[9, 9, 9]).unwrap();
    let bytes = sender.flush().unwrap();
    let mut receiver = channel("K1");
    receiver.receive(&bytes).unwrap();
    assert_eq!(receiver.reads_operation(), Err(ChannelFault::ProtocolFault));
    let mut receiver = channel("K1");
    receiver.receive(&bytes).unwrap();
    assert_eq!(receiver.reads_response(), Err(ChannelFault::ProtocolFault));
    let mut receiver = channel("K1");
    receiver.receive(&bytes).unwrap();
    assert_eq!(receiver.reads_text(), Err(ChannelFault::ProtocolFault));
}

#[test]
fn discard_drops_what_was_written() {
    let mut c = channel("K1");
    c.write(&[1, 2, 3]).unwrap();
    c.discard();
    assert_eq!(c.pending_len(), 0);
    assert!(c.is_usable());
}

#[test]
fn poison_ends_the_channel_once() {
    let mut c = channel("K1");
    c.poison(ChannelFault::TransportFault);
    assert_eq!(c.fault(), Some(ChannelFault::TransportFault));
    c.poison(ChannelFault::CryptoFault);
    assert_eq!(c.fault(), Some(ChannelFault::TransportFault));
    assert_eq!(c.flush(), Err(ChannelFault::TransportFault));
}

#[test]
fn all_faults_but_too_large_are_fatal() {
    assert!(ChannelFault::CryptoFault.fatal());
    assert!(ChannelFault::ProtocolFault.fatal());
    assert!(ChannelFault::TransportFault.fatal());
    assert!(!ChannelFault::TooLarge.fatal());
}
