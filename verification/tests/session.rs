use dori::operation::Fault;
use dori::operation::FileTransferOperation;
use dori::operation::Operation;
use dori::operation::Response;
use dori::session::agent_step;
use dori::session::controller_step;
use dori::session::reply;
use dori::session::side_effect;
use dori::session::AgentEvent;
use dori::session::AgentState;
use dori::session::ClientConnection;
use dori::session::ControllerEvent;
use dori::session::ControllerState;
use dori::session::HostConnection;
use dori::session::SideEffect;
use dori::stream::ChannelFault;
use dori::stream::SecureChannel;
use magic_crypt::MagicCrypt256;
use magic_crypt::MagicCryptTrait;

fn pair(key: &str) -> (ClientConnection, HostConnection) {
    (
        ClientConnection::new(SecureChannel::new(key.to_string())),
        HostConnection::new(SecureChannel::new(key.to_string())),
    )
}

fn words(items: &[&str]) -> Vec<String> {
    items.iter().map(|s| s.to_string()).collect()
}

fn upload(path: &str, content: &[u8]) -> Operation {
    Operation::Upload(FileTransferOperation::new(path.to_string(), content.to_vec()))
}

fn exchange(
    controller: &mut ClientConnection,
    agent: &mut HostConnection,
    operation: &Operation,
    outcome: Result<(), Fault>,
) -> Response {
    let request = controller.send_operation(operation).unwrap();
    let received = agent.read_operation(&request).unwrap();
    assert_eq!(&received, operation);
    let response = agent.send_response(&reply(&received, outcome)).unwrap();
    controller.read_response(&response).unwrap()
}

// ----- state machines -------------------------------------------------------

#[test]
fn controller_walks_from_idle_to_serving_and_back_to_listening() {
    let s = controller_step(ControllerState::Idle, ControllerEvent::Started);
    assert_eq!(s, ControllerState::Listening);
    let s = controller_step(s, ControllerEvent::Connected);
    assert_eq!(s, ControllerState::Handshaking);
    let s = controller_step(s, ControllerEvent::Accepted);
    assert_eq!(s, ControllerState::Serving);
    let s = controller_step(s, ControllerEvent::ChannelLost);
    assert_eq!(s, ControllerState::Listening);
}

#[test]
fn controller_goes_on_listening_after_a_rejection() {
    assert_eq!(
        controller_step(ControllerState::Handshaking, ControllerEvent::Rejected),
        ControllerState::Listening
    );
    assert_eq!(
        controller_step(ControllerState::Handshaking, ControllerEvent::ChannelLost),
        ControllerState::Listening
    );
}

#[test]
fn controller_serves_one_client_at_a_time() {
    assert_eq!(
        controller_step(ControllerState::Serving, ControllerEvent::Connected),
        ControllerState::Serving
    );
    assert_eq!(
        controller_step(ControllerState::Serving, ControllerEvent::Accepted),
        ControllerState::Serving
    );
}

#[test]
fn controller_ignores_events_out_of_place() {
    assert_eq!(controller_step(ControllerState::Idle, ControllerEvent::Connected), ControllerState::Idle);
    assert_eq!(controller_step(ControllerState::Idle, ControllerEvent::ChannelLost), ControllerState::Idle);
    assert_eq!(
        controller_step(ControllerState::Listening, ControllerEvent::Accepted),
        ControllerState::Listening
    );
    assert_eq!(
        controller_step(ControllerState::Listening, ControllerEvent::Started),
        ControllerState::Listening
    );
}

#[test]
fn agent_walks_from_idle_to_serving_and_back_to_connecting() {
    let s = agent_step(AgentState::Idle, AgentEvent::Started);
    assert_eq!(s, AgentState::Connecting);
    let s = agent_step(s, AgentEvent::Connected);
    assert_eq!(s, AgentState::Handshaking);
    let s = agent_step(s, AgentEvent::Accepted);
    assert_eq!(s, AgentState::Serving);
    let s = agent_step(s, AgentEvent::ChannelLost);
    assert_eq!(s, AgentState::Connecting);
}

#[test]
fn agent_connects_again_after_a_rejection() {
    assert_eq!(agent_step(AgentState::Handshaking, AgentEvent::Rejected), AgentState::Connecting);
    assert_eq!(agent_step(AgentState::Handshaking, AgentEvent::ChannelLost), AgentState::Connecting);
    assert_eq!(agent_step(AgentState::Connecting, AgentEvent::ChannelLost), AgentState::Connecting);
}

#[test]
fn agent_ignores_events_out_of_place() {
    assert_eq!(agent_step(AgentState::Idle, AgentEvent::Accepted), AgentState::Idle);
    assert_eq!(agent_step(AgentState::Serving, AgentEvent::Connected), AgentState::Serving);
    assert_eq!(agent_step(AgentState::Connecting, AgentEvent::Accepted), AgentState::Connecting);
}

// ----- what the agent does ----------------------------------------------------

#[test]
fn side_effect_of_each_operation() {
    assert_eq!(side_effect(&upload("p", &[1])), SideEffect::WriteFile);
    assert_eq!(side_effect(&Operation::Download { path: "p".to_string() }), SideEffect::ReadFile);
    assert_eq!(side_effect(&Operation::Command { argv: words(&["ls"]) }), SideEffect::Execute);
    assert_eq!(
        side_effect(&Operation::ThreadedCommand { argv: words(&["ls"]) }),
        SideEffect::ExecuteInBackground
    );
    assert_eq!(side_effect(&Operation::Ping), SideEffect::Nothing);
}

#[test]
fn reply_carries_the_outcome_in_the_matching_kind() {
    let fault = Fault::new(13, Some("permission denied".to_string()));
    assert_eq!(reply(&upload("p", &[1]), Ok(())), Response::UploadResult(Ok(())));
    assert_eq!(
        reply(&upload("p", &[1]), Err(fault.clone())),
        Response::UploadResult(Err(fault.clone()))
    );
    assert_eq!(
        reply(&Operation::Download { path: "p".to_string() }, Err(fault.clone())),
        Response::DownloadResult(Err(fault.clone()))
    );
    assert_eq!(
        reply(&Operation::Command { argv: Vec::new() }, Ok(())),
        Response::DownloadResult(Ok(()))
    );
    assert_eq!(
        reply(&Operation::ThreadedCommand { argv: Vec::new() }, Err(fault.clone())),
        Response::DownloadResult(Err(fault.clone()))
    );
    assert_eq!(reply(&Operation::Ping, Ok(())), Response::Pong);
    assert_eq!(reply(&Operation::Ping, Err(fault)), Response::Pong);
}

#[test]
fn reply_is_always_of_the_kind_of_its_operation() {
    let operations = vec![
        upload("p", &[]),
        Operation::Download { path: String::new() },
        Operation::Command { argv: Vec::new() },
        Operation::ThreadedCommand { argv: Vec::new() },
        Operation::Ping,
    ];
    for operation in &operations {
        for outcome in [Ok(()), Err(Fault::new(1, None))] {
            assert_eq!(reply(operation, outcome).category(), operation.category());
        }
    }
}

// ----- a served session -----------------------------------------------------------

#[test]
fn send_operation_seals_the_encoding_in_one_frame() {
    let (mut controller, _) = pair("K1");
    let operation = upload("a.txt", &[9, 8, 7]);
    let request = controller.send_operation(&operation).unwrap();
    let length = u32::from_le_bytes([request[0], request[1], request[2], request[3]]) as usize;
    assert_eq!(length, request.len() - 4);
    let plain = MagicCrypt256::new("K1", None::<&str>).decrypt_bytes_to_bytes(&request[4..]).unwrap();
    assert_eq!(plain, operation.encode().unwrap());
    assert!(controller.is_awaiting());
}

#[test]
fn every_operation_and_response_round_trips_through_a_session() {
    let (mut controller, mut agent) = pair("secret");
    let fault = Fault::new(2, Some("no such file or directory".to_string()));
    let cases: Vec<(Operation, Result<(), Fault>, Response)> = vec![
        (upload("a", &[1, 2, 3]), Ok(()), Response::UploadResult(Ok(()))),
        (upload("", &[]), Err(fault.clone()), Response::UploadResult(Err(fault.clone()))),
        (
            Operation::Download { path: "b".to_string() },
            Ok(()),
            Response::DownloadResult(Ok(())),
        ),
        (
            Operation::Command { argv: Vec::new() },
            Err(Fault::new(38, None)),
            Response::DownloadResult(Err(Fault::new(38, None))),
        ),
        (
            Operation::ThreadedCommand { argv: words(&["make", "-j", "8"]) },
            Ok(()),
            Response::DownloadResult(Ok(())),
        ),
        (Operation::Ping, Ok(()), Response::Pong),
    ];
    for (operation, outcome, expected) in cases {
        assert_eq!(exchange(&mut controller, &mut agent, &operation, outcome), expected);
        assert!(!controller.is_awaiting());
        assert!(!agent.is_owing());
    }
    assert_eq!(controller.fault(), None);
    assert_eq!(agent.fault(), None);
}

#[test]
fn a_hundred_pings_yield_a_hundred_pongs() {
    let (mut controller, mut agent) = pair("K1");
    let mut pongs = 0;
    for _ in 0..100 {
        let request = controller.send_operation(&Operation::Ping).unwrap();
        let operation = agent.read_operation(&request).unwrap();
        assert_eq!(side_effect(&operation), SideEffect::Nothing);
        let response = agent.send_response(&reply(&operation, Ok(()))).unwrap();
        assert_eq!(controller.read_response(&response), Ok(Response::Pong));
        pongs += 1;
    }
    assert_eq!(pongs, 100);
    assert!(!controller.is_awaiting());
    assert!(!agent.is_owing());
    assert_eq!(controller.fault(), None);
}

#[test]
fn a_failed_write_travels_as_a_fault_and_the_session_goes_on() {
    let (mut controller, mut agent) = pair("K1");
    let fault = Fault::new(13, Some("Permission denied (os error 13)".to_string()));
    let response = exchange(&mut controller, &mut agent, &upload("/root/x", &[1]), Err(fault));
    match response {
        Response::UploadResult(Err(found)) => {
            assert_eq!(found.code(), 13);
            assert_eq!(found.message(), Some("Permission denied (os error 13)"));
        }
        other => panic!("unexpected response: {:?}", other),
    }
    assert_eq!(controller.fault(), None);
    assert_eq!(agent.fault(), None);
    assert_eq!(
        exchange(&mut controller, &mut agent, &upload("/tmp/x", &[1]), Ok(())),
        Response::UploadResult(Ok(()))
    );
    assert_eq!(exchange(&mut controller, &mut agent, &Operation::Ping, Ok(())), Response::Pong);
}

#[test]
fn a_second_operation_before_the_response_is_a_protocol_fault() {
    let (mut controller, _) = pair("K1");
    controller.send_operation(&Operation::Ping).unwrap();
    assert_eq!(controller.send_operation(&Operation::Ping), Err(ChannelFault::ProtocolFault));
    assert_eq!(controller.fault(), Some(ChannelFault::ProtocolFault));
    assert_eq!(controller.send_operation(&Operation::Ping), Err(ChannelFault::ProtocolFault));
}

#[test]
fn a_response_that_nothing_awaits_is_a_protocol_fault() {
    let (mut controller, mut agent) = pair("K1");
    let response = exchange(&mut controller, &mut agent, &Operation::Ping, Ok(()));
    assert_eq!(response, Response::Pong);
    let mut other = SecureChannel::new("K1".to_string());
    other.writes_response(&Response::Pong).unwrap();
    let stray = other.flush().unwrap();
    assert_eq!(controller.read_response(&stray), Err(ChannelFault::ProtocolFault));
    assert_eq!(controller.fault(), Some(ChannelFault::ProtocolFault));
}

#[test]
fn a_response_of_another_kind_is_a_protocol_fault() {
    let (mut controller, _) = pair("K1");
    controller.send_operation(&upload("p", &[1])).unwrap();
    let mut other = SecureChannel::new("K1".to_string());
    other.writes_response(&Response::Pong).unwrap();
    let wrong = other.flush().unwrap();
    assert_eq!(controller.read_response(&wrong), Err(ChannelFault::ProtocolFault));
    assert_eq!(controller.fault(), Some(ChannelFault::ProtocolFault));
    assert_eq!(controller.send_operation(&Operation::Ping), Err(ChannelFault::ProtocolFault));
}

#[test]
fn a_frame_that_holds_no_response_is_a_protocol_fault() {
    let (mut controller, _) = pair("K1");
    controller.send_operation(&Operation::Ping).unwrap();
    let mut other = SecureChannel::new("K1".to_string());
    other.write(&[77]).unwrap();
    let garbage = other.flush().unwrap();
    assert_eq!(controller.read_response(&garbage), Err(ChannelFault::ProtocolFault));
}

#[test]
fn a_response_under_another_secret_is_a_crypto_fault() {
    let (mut controller, _) = pair("K1");
    controller.send_operation(&Operation::Ping).unwrap();
    let mut other = SecureChannel::new("K2".to_string());
    other.writes_response(&Response::Pong).unwrap();
    let foreign = other.flush().unwrap();
    assert_eq!(controller.read_response(&foreign), Err(ChannelFault::CryptoFault));
    assert_eq!(controller.fault(), Some(ChannelFault::CryptoFault));
}

#[test]
fn a_response_cut_short_is_a_transport_fault() {
    let (mut controller, mut agent) = pair("K1");
    let request = controller.send_operation(&Operation::Ping).unwrap();
    let operation = agent.read_operation(&request).unwrap();
    let response = agent.send_response(&reply(&operation, Ok(()))).unwrap();
    assert_eq!(
        controller.read_response(&response[..response.len() - 1]),
        Err(ChannelFault::TransportFault)
    );
    assert_eq!(controller.fault(), Some(ChannelFault::TransportFault));
}

#[test]
fn the_agent_reads_one_operation_at_a_time() {
    let (mut controller, mut agent) = pair("K1");
    let request = controller.send_operation(&Operation::Ping).unwrap();
    assert_eq!(agent.read_operation(&request), Ok(Operation::Ping));
    assert!(agent.is_owing());
    assert_eq!(agent.read_operation(&request), Err(ChannelFault::ProtocolFault));
    assert_eq!(agent.fault(), Some(ChannelFault::ProtocolFault));
}

#[test]
fn the_agent_answers_only_what_was_asked() {
    let (_, mut agent) = pair("K1");
    assert_eq!(agent.send_response(&Response::Pong), Err(ChannelFault::ProtocolFault));
    assert_eq!(agent.fault(), Some(ChannelFault::ProtocolFault));
}

#[test]
fn the_agent_answers_in_the_kind_of_the_operation() {
    let (mut controller, mut agent) = pair("K1");
    let request = controller.send_operation(&upload("p", &[1])).unwrap();
    agent.read_operation(&request).unwrap();
    assert_eq!(agent.send_response(&Response::Pong), Err(ChannelFault::ProtocolFault));
    assert_eq!(agent.fault(), Some(ChannelFault::ProtocolFault));
}

#[test]
fn the_agent_refuses_a_frame_that_holds_no_operation() {
    let (_, mut agent) = pair("K1");
    let mut other = SecureChannel::new("K1".to_string());
    other.write(&[5, 1, 2, 3]).unwrap();
    let garbage = other.flush().unwrap();
    assert_eq!(agent.read_operation(&garbage), Err(ChannelFault::ProtocolFault));
    let (_, mut agent) = pair("K1");
    let mut other = SecureChannel::new("K9".to_string());
    other.writes_operation(&Operation::Ping).unwrap();
    let foreign = other.flush().unwrap();
    assert_eq!(agent.read_operation(&foreign), Err(ChannelFault::CryptoFault));
}

#[test]
fn a_connection_over_a_dead_channel_reports_its_fault() {
    let mut channel = SecureChannel::new("K1".to_string());
    channel.poison(ChannelFault::TransportFault);
    let mut controller = ClientConnection::new(channel);
    assert_eq!(controller.fault(), Some(ChannelFault::TransportFault));
    assert_eq!(controller.send_operation(&Operation::Ping), Err(ChannelFault::TransportFault));
    assert_eq!(controller.read_response(&[]), Err(ChannelFault::TransportFault));
    let mut channel = SecureChannel::new("K1".to_string());
    channel.poison(ChannelFault::CryptoFault);
    let mut agent = HostConnection::new(channel);
    assert_eq!(agent.read_operation(&[]), Err(ChannelFault::CryptoFault));
    assert_eq!(agent.send_response(&Response::Pong), Err(ChannelFault::CryptoFault));
}

#[test]
fn bytes_written_before_the_session_are_never_sent() {
    let mut channel = SecureChannel::new("K1".to_string());
    channel.write(&[1, 2, 3]).unwrap();
    let mut controller = ClientConnection::new(channel);
    let mut agent = HostConnection::new(SecureChannel::new("K1".to_string()));
    let request = controller.send_operation(&Operation::Ping).unwrap();
    assert_eq!(agent.read_operation(&request), Ok(Operation::Ping));
}
