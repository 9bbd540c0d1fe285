use rithmic_api::api_client::{shutdown_outcome, HeartbeatSwitch, RithmicApiClient, Teardown};
use rithmic_api::credentials::RithmicCredentials;
use rithmic_api::errors::RithmicApiError;
use rithmic_api::handshake::{HandshakeAction, HandshakeEvent};
use rithmic_api::framing::encode_frame;
use rithmic_api::heartbeat::HeartbeatAction;
use rithmic_api::inbound::{InboundAction, InboundEvent};
use rithmic_api::messages::MessageType;
use rithmic_api::plants::SysInfraType;
use rithmic_api::servers::RithmicServer;
use rithmic_api::systems::RithmicSystem;

fn credentials() -> RithmicCredentials {
    RithmicCredentials {
        user: "trader".to_string(),
        server_name: RithmicServer::Test,
        system_name: RithmicSystem::RithmicTest,
        password: "SECRET-REDACTED".to_string(),
        base_url: "wss://example.invalid:443".to_string(),
        app_name: "demo".to_string(),
        app_version: "1.2".to_string(),
        template_version: "5.27".to_string(),
        aggregated_quotes: false,
    }
}

fn heartbeat_request(app_name: &str) -> Vec<u8> {
    let mut payload = Vec::new();
    prost::encoding::string::encode(132760, &format!("{} Testing heartbeat", app_name), &mut payload);
    prost::encoding::int32::encode(154467, &18, &mut payload);
    payload
}

/// Runs the whole handshake as a transport that never fails would, and
/// registers the plant with the given write half.
fn connect(client: &mut RithmicApiClient, plant: SysInfraType, writer: u64, now: u64) -> HeartbeatAction {
    let mut handshake = client.connect_and_login(plant.as_i32()).unwrap();
    let mut action = HandshakeAction::Connect;
    loop {
        let event = match action {
            HandshakeAction::Connect => HandshakeEvent::Connected,
            HandshakeAction::RequestSystemInfo(_) => {
                HandshakeEvent::SystemInfo(vec!["Rithmic Test".to_string()])
            }
            HandshakeAction::Close => HandshakeEvent::Closed,
            HandshakeAction::Login(_) => HandshakeEvent::LoginResponse(Some(60)),
            HandshakeAction::Register(system_name, interval) => {
                return client
                    .register_login(plant, system_name, interval, writer, now)
                    .unwrap();
            }
            HandshakeAction::Fail(error) => panic!("handshake failed: {:?}", error),
        };
        action = client.handshake_step(&mut handshake, event);
    }
}

#[test]
fn new_client_has_nothing_connected() {
    let client = RithmicApiClient::new(credentials());
    for plant in SysInfraType::all() {
        assert!(!client.is_connected(plant));
        assert_eq!(client.get_writer(&plant), None);
        assert_eq!(client.get_system_name(&plant), None);
        assert_eq!(client.get_last_message_time(&plant), None);
        assert!(!client.is_heartbeat_running(&plant));
    }
    assert!(client.connected_plants().is_empty());
}

#[test]
fn test_rithmic_connection() {
    let mut client = RithmicApiClient::new(credentials());

    connect(&mut client, SysInfraType::TickerPlant, 1, 1_000);
    assert!(client.is_connected(SysInfraType::TickerPlant));

    connect(&mut client, SysInfraType::HistoryPlant, 2, 1_001);
    assert!(client.is_connected(SysInfraType::HistoryPlant));

    connect(&mut client, SysInfraType::OrderPlant, 3, 1_002);
    assert!(client.is_connected(SysInfraType::OrderPlant));

    connect(&mut client, SysInfraType::PnlPlant, 4, 1_003);
    assert!(client.is_connected(SysInfraType::PnlPlant));

    connect(&mut client, SysInfraType::RepositoryPlant, 5, 1_004);
    assert!(client.is_connected(SysInfraType::RepositoryPlant));

    let heart_beat = heartbeat_request("demo");
    match client.send_message(&SysInfraType::TickerPlant, &heart_beat) {
        Ok(_) => println!("Heart beat sent"),
        Err(e) => panic!("Heartbeat send failed: {}", e.message()),
    }
    let out = client.send_message(&SysInfraType::TickerPlant, &heart_beat).unwrap();
    assert_eq!(out.writer, 1);
    assert_eq!(client.extract_template_id(&out.frame[4..]), Some(18));

    let results = client.shutdown_all();
    assert_eq!(results.len(), 5);
    assert!(results.iter().all(|(_, result)| result.is_ok()));
    for plant in SysInfraType::all() {
        assert!(!client.is_connected(plant));
    }
}

#[test]
fn end_to_end_on_the_order_plant() {
    let mut client = RithmicApiClient::new(credentials());
    let first = connect(&mut client, SysInfraType::OrderPlant, 42, 10_000);
    assert_eq!(first, HeartbeatAction::Transmit(42));
    assert_eq!(
        client.heartbeat_sent(SysInfraType::OrderPlant, true, 10_000),
        HeartbeatAction::SleepUntil(69_500)
    );
    assert!(client.is_connected(SysInfraType::OrderPlant));
    assert!(client.is_heartbeat_running(&SysInfraType::OrderPlant));
    assert_eq!(client.get_system_name(&SysInfraType::OrderPlant), Some("Rithmic Test".to_string()));
    assert_eq!(client.get_writer(&SysInfraType::OrderPlant), Some(42));
    assert_eq!(client.get_heartbeat_interval(&SysInfraType::OrderPlant), Some(60));
    assert_eq!(client.get_last_message_time(&SysInfraType::OrderPlant), Some(10_000));

    let payload = heartbeat_request("demo");
    let out = client.send_message(&SysInfraType::OrderPlant, &payload).unwrap();
    assert_eq!(out.writer, 42);
    assert_eq!(&out.frame[..4], &(payload.len() as u32).to_be_bytes());
    assert_eq!(&out.frame[4..], &payload[..]);
    client.update_heartbeat(SysInfraType::OrderPlant, 25_000);
    assert_eq!(client.get_last_message_time(&SysInfraType::OrderPlant), Some(25_000));

    let results = client.shutdown_all();
    assert_eq!(results.len(), 1);
    assert_eq!(results[0].0, SysInfraType::OrderPlant);
    let plan = results[0].1.as_ref().unwrap();
    assert_eq!(plan.writer, 42);
    assert!(plan.abort_heartbeat);
    assert_eq!(plan.logout.template_id, 12);
    assert_eq!(plan.logout.user_msg, "demo Signing Out");

    assert!(!client.is_connected(SysInfraType::OrderPlant));
    assert!(!client.is_heartbeat_running(&SysInfraType::OrderPlant));
    assert_eq!(client.heartbeat_wake(SysInfraType::OrderPlant, 99_999), HeartbeatAction::Stop);
    assert_eq!(client.get_writer(&SysInfraType::OrderPlant), None);
}

#[test]
fn second_login_of_a_connected_plant_is_turned_down() {
    let mut client = RithmicApiClient::new(credentials());
    connect(&mut client, SysInfraType::PnlPlant, 7, 100);
    assert!(matches!(
        client.connect_and_login(4),
        Err(RithmicApiError::ClientErrorDebug(_))
    ));
    assert!(matches!(
        client.register_login(SysInfraType::PnlPlant, "Other".to_string(), Some(30), 8, 200),
        Err(RithmicApiError::ClientErrorDebug(_))
    ));
    assert_eq!(client.connected_plants(), vec![SysInfraType::PnlPlant]);
    assert_eq!(client.get_writer(&SysInfraType::PnlPlant), Some(7));
    assert_eq!(client.get_system_name(&SysInfraType::PnlPlant), Some("Rithmic Test".to_string()));
    assert_eq!(client.get_heartbeat_interval(&SysInfraType::PnlPlant), Some(60));
    assert_eq!(client.get_last_message_time(&SysInfraType::PnlPlant), Some(100));
}

#[test]
fn plant_can_connect_again_after_disconnect() {
    let mut client = RithmicApiClient::new(credentials());
    connect(&mut client, SysInfraType::PnlPlant, 7, 100);
    let teardown = client.register_disconnect(SysInfraType::PnlPlant);
    assert_eq!(teardown, Teardown { writer: Some(7), abort_heartbeat: true });
    assert!(!client.is_connected(SysInfraType::PnlPlant));
    connect(&mut client, SysInfraType::PnlPlant, 8, 300);
    assert_eq!(client.connected_plants(), vec![SysInfraType::PnlPlant]);
    assert_eq!(client.get_writer(&SysInfraType::PnlPlant), Some(8));
}

#[test]
fn connect_refuses_codes_that_name_no_plant() {
    let client = RithmicApiClient::new(credentials());
    for code in [0, 6, -1, i32::MAX] {
        assert!(matches!(
            client.connect_and_login(code),
            Err(RithmicApiError::ClientErrorDebug(_))
        ));
    }
}

#[test]
fn login_without_heartbeat_interval_leaves_nothing_connected() {
    let mut client = RithmicApiClient::new(credentials());
    let result = client.register_login(SysInfraType::TickerPlant, "S".to_string(), None, 1, 0);
    assert!(matches!(result, Err(RithmicApiError::ClientErrorDebug(_))));
    assert!(!client.is_connected(SysInfraType::TickerPlant));
    assert_eq!(client.get_writer(&SysInfraType::TickerPlant), None);
    assert!(matches!(
        client.subscribe(SysInfraType::TickerPlant, "a".to_string(), 1),
        Err(RithmicApiError::ClientErrorDebug(_))
    ));
}

#[test]
fn send_before_connect_is_a_client_error() {
    let client = RithmicApiClient::new(credentials());
    assert!(matches!(
        client.send_message(&SysInfraType::TickerPlant, &[1, 2, 3]),
        Err(RithmicApiError::ClientErrorDebug(_))
    ));
}

#[test]
fn send_after_shutdown_is_a_client_error() {
    let mut client = RithmicApiClient::new(credentials());
    connect(&mut client, SysInfraType::HistoryPlant, 3, 0);
    connect(&mut client, SysInfraType::TickerPlant, 4, 0);
    assert!(client.send_message(&SysInfraType::HistoryPlant, &[1]).is_ok());
    let plan = client.shutdown_plant(SysInfraType::HistoryPlant).unwrap();
    assert_eq!(plan.writer, 3);
    assert!(!client.is_connected(SysInfraType::HistoryPlant));
    assert!(matches!(
        client.send_message(&SysInfraType::HistoryPlant, &[1]),
        Err(RithmicApiError::ClientErrorDebug(_))
    ));
    // the other plant is untouched
    assert!(client.is_connected(SysInfraType::TickerPlant));
    assert_eq!(client.send_message(&SysInfraType::TickerPlant, &[1]).unwrap().writer, 4);
}

#[test]
fn shutdown_of_a_plant_that_is_not_connected_is_a_server_error() {
    let mut client = RithmicApiClient::new(credentials());
    assert!(matches!(
        client.shutdown_plant(SysInfraType::OrderPlant),
        Err(RithmicApiError::ServerErrorDebug(_))
    ));
    assert!(client.shutdown_all().is_empty());
}

#[test]
fn failed_send_drops_the_writer_and_the_heartbeat() {
    let mut client = RithmicApiClient::new(credentials());
    connect(&mut client, SysInfraType::TickerPlant, 4, 0);
    let error = client.send_failed(SysInfraType::TickerPlant, "connection reset");
    match error {
        RithmicApiError::WebSocket(text) => assert_eq!(
            text,
            "Failed to send RithmicMessage, possible disconnect, try reconnecting to plant TickerPlant: connection reset"
        ),
        other => panic!("unexpected: {:?}", other),
    }
    // still listed: the list tells what was established, not what is healthy
    assert!(client.is_connected(SysInfraType::TickerPlant));
    assert_eq!(client.get_writer(&SysInfraType::TickerPlant), None);
    assert!(!client.is_heartbeat_running(&SysInfraType::TickerPlant));
    assert!(matches!(
        client.send_message(&SysInfraType::TickerPlant, &[1]),
        Err(RithmicApiError::ClientErrorDebug(_))
    ));
    // shutting down takes the plant out, though no logout can be sent
    assert!(matches!(
        client.shutdown_plant(SysInfraType::TickerPlant),
        Err(RithmicApiError::ServerErrorDebug(_))
    ));
    assert!(!client.is_connected(SysInfraType::TickerPlant));
}

#[test]
fn shutdown_all_goes_on_after_a_failure() {
    let mut client = RithmicApiClient::new(credentials());
    connect(&mut client, SysInfraType::TickerPlant, 1, 0);
    connect(&mut client, SysInfraType::OrderPlant, 2, 0);
    connect(&mut client, SysInfraType::PnlPlant, 3, 0);
    client.send_failed(SysInfraType::OrderPlant, "gone");
    let results = client.shutdown_all();
    assert_eq!(results.len(), 3);
    assert_eq!(results[0].0, SysInfraType::TickerPlant);
    assert_eq!(results[1].0, SysInfraType::OrderPlant);
    assert_eq!(results[2].0, SysInfraType::PnlPlant);
    assert_eq!(results[0].1.as_ref().unwrap().writer, 1);
    assert!(matches!(results[1].1, Err(RithmicApiError::ServerErrorDebug(_))));
    assert_eq!(results[2].1.as_ref().unwrap().writer, 3);
    assert!(client.connected_plants().is_empty());
}

#[test]
fn shutdown_outcome_surfaces_the_first_failure() {
    assert!(shutdown_outcome(Vec::new()).is_ok());
    assert!(shutdown_outcome(vec![Ok(()), Ok(())]).is_ok());
    let results = vec![
        Ok(()),
        Err(RithmicApiError::WebSocket("first".to_string())),
        Err(RithmicApiError::ServerErrorDebug("second".to_string())),
    ];
    match shutdown_outcome(results) {
        Err(RithmicApiError::ServerErrorDebug(text)) => assert_eq!(
            text,
            "Failed to properly shutdown a rithmic plant connection: first"
        ),
        other => panic!("unexpected: {:?}", other),
    }
}

#[test]
fn last_message_time_only_moves_forward() {
    let mut client = RithmicApiClient::new(credentials());
    connect(&mut client, SysInfraType::TickerPlant, 1, 5_000);
    client.update_heartbeat(SysInfraType::TickerPlant, 4_000);
    assert_eq!(client.get_last_message_time(&SysInfraType::TickerPlant), Some(5_000));
    client.update_heartbeat(SysInfraType::TickerPlant, 6_000);
    assert_eq!(client.get_last_message_time(&SysInfraType::TickerPlant), Some(6_000));
    client.update_heartbeat(SysInfraType::OrderPlant, 9_000);
    assert_eq!(client.get_last_message_time(&SysInfraType::OrderPlant), None);
}

#[test]
fn traffic_suppresses_the_heartbeat() {
    let mut client = RithmicApiClient::new(credentials());
    let first = connect(&mut client, SysInfraType::TickerPlant, 1, 0);
    assert_eq!(first, HeartbeatAction::Transmit(1));
    // the first heartbeat goes out at once
    assert_eq!(
        client.heartbeat_sent(SysInfraType::TickerPlant, true, 0),
        HeartbeatAction::SleepUntil(59_500)
    );
    // a frame goes out at 30_000
    client.update_heartbeat(SysInfraType::TickerPlant, 30_000);
    // the activity wakes as scheduled and sends nothing
    assert_eq!(
        client.heartbeat_wake(SysInfraType::TickerPlant, 59_500),
        HeartbeatAction::SleepUntil(89_500)
    );
    assert_eq!(
        client.heartbeat_wake(SysInfraType::TickerPlant, 89_499),
        HeartbeatAction::SleepUntil(89_500)
    );
    // no traffic since: the heartbeat is due
    assert_eq!(
        client.heartbeat_wake(SysInfraType::TickerPlant, 89_500),
        HeartbeatAction::Transmit(1)
    );
    assert_eq!(
        client.heartbeat_sent(SysInfraType::TickerPlant, true, 89_510),
        HeartbeatAction::SleepUntil(149_010)
    );
    assert_eq!(client.get_last_message_time(&SysInfraType::TickerPlant), Some(89_510));
}

#[test]
fn failed_heartbeat_ends_the_activity() {
    let mut client = RithmicApiClient::new(credentials());
    connect(&mut client, SysInfraType::TickerPlant, 1, 0);
    assert_eq!(
        client.heartbeat_sent(SysInfraType::TickerPlant, false, 60_000),
        HeartbeatAction::Stop
    );
    assert!(!client.is_heartbeat_running(&SysInfraType::TickerPlant));
    assert_eq!(client.heartbeat_wake(SysInfraType::TickerPlant, 120_000), HeartbeatAction::Stop);
    assert!(matches!(
        client.send_message(&SysInfraType::TickerPlant, &[1]),
        Err(RithmicApiError::ClientErrorDebug(_))
    ));
    // not restarted behind the caller's back
    assert!(matches!(
        client.start_heartbeat(SysInfraType::TickerPlant, 130_000),
        Err(RithmicApiError::ClientErrorDebug(_))
    ));
}

#[test]
fn heartbeat_switch() {
    let mut client = RithmicApiClient::new(credentials());
    connect(&mut client, SysInfraType::TickerPlant, 1, 0);
    let plant = SysInfraType::TickerPlant;
    // already running: nothing to do
    assert_eq!(
        client.switch_heartbeat_required(&plant, true, 10).unwrap(),
        HeartbeatSwitch::Unchanged
    );
    assert_eq!(
        client.switch_heartbeat_required(&plant, false, 20).unwrap(),
        HeartbeatSwitch::Stopped
    );
    assert!(!client.is_heartbeat_running(&plant));
    assert_eq!(client.heartbeat_wake(plant, 100_000), HeartbeatAction::Stop);
    assert_eq!(
        client.switch_heartbeat_required(&plant, false, 30).unwrap(),
        HeartbeatSwitch::Unchanged
    );
    assert_eq!(
        client.switch_heartbeat_required(&plant, true, 1_000).unwrap(),
        HeartbeatSwitch::Started(HeartbeatAction::Transmit(1))
    );
    assert!(client.is_heartbeat_running(&plant));
    assert_eq!(client.get_last_message_time(&plant), Some(1_000));
}

#[test]
fn heartbeat_switch_on_a_plant_that_is_not_connected() {
    let mut client = RithmicApiClient::new(credentials());
    let plant = SysInfraType::OrderPlant;
    assert_eq!(
        client.switch_heartbeat_required(&plant, false, 0).unwrap(),
        HeartbeatSwitch::Unchanged
    );
    assert!(matches!(
        client.switch_heartbeat_required(&plant, true, 0),
        Err(RithmicApiError::ClientErrorDebug(_))
    ));
    assert!(matches!(
        client.start_heartbeat(plant, 0),
        Err(RithmicApiError::ClientErrorDebug(_))
    ));
}

#[test]
fn heartbeat_cannot_be_started_twice() {
    let mut client = RithmicApiClient::new(credentials());
    connect(&mut client, SysInfraType::TickerPlant, 1, 0);
    assert!(matches!(
        client.start_heartbeat(SysInfraType::TickerPlant, 5),
        Err(RithmicApiError::ClientErrorDebug(_))
    ));
    assert_eq!(client.get_last_message_time(&SysInfraType::TickerPlant), Some(0));
}

#[test]
fn subscribers_of_a_connected_plant_get_the_frames() {
    let mut client = RithmicApiClient::new(credentials());
    assert!(matches!(
        client.subscribe(SysInfraType::TickerPlant, "a".to_string(), 2),
        Err(RithmicApiError::ClientErrorDebug(_))
    ));
    connect(&mut client, SysInfraType::TickerPlant, 1, 0);
    client.subscribe(SysInfraType::TickerPlant, "a".to_string(), 2).unwrap();
    client.subscribe(SysInfraType::TickerPlant, "b".to_string(), 1).unwrap();
    client.publish(SysInfraType::TickerPlant, vec![1]);
    client.publish(SysInfraType::TickerPlant, vec![2]);
    assert_eq!(client.receive(SysInfraType::TickerPlant, &"a".to_string()), Some(vec![1]));
    assert_eq!(client.receive(SysInfraType::TickerPlant, &"a".to_string()), Some(vec![2]));
    assert_eq!(client.receive(SysInfraType::TickerPlant, &"b".to_string()), Some(vec![1]));
    assert_eq!(client.receive(SysInfraType::TickerPlant, &"b".to_string()), None);
    client.unsubscribe(SysInfraType::TickerPlant, &"a".to_string());
    client.publish(SysInfraType::TickerPlant, vec![3]);
    assert_eq!(client.receive(SysInfraType::TickerPlant, &"a".to_string()), None);
    assert_eq!(client.receive(SysInfraType::TickerPlant, &"b".to_string()), Some(vec![3]));
    client.inbound_closed(SysInfraType::TickerPlant);
    client.publish(SysInfraType::TickerPlant, vec![4]);
    assert_eq!(client.receive(SysInfraType::TickerPlant, &"b".to_string()), None);
    // the plant has connected once: subscribing stays possible after shutdown
    client.shutdown_plant(SysInfraType::TickerPlant).unwrap();
    assert!(client.subscribe(SysInfraType::TickerPlant, "c".to_string(), 1).is_ok());
}

#[test]
fn errors_carry_their_text() {
    let error = RithmicApiError::ClientErrorDebug("misuse".to_string());
    assert!(error.is_client_error());
    assert_eq!(error.message(), "misuse");
    let error = RithmicApiError::ProtobufDecode("bad payload".to_string());
    assert!(!error.is_client_error());
    assert_eq!(error.message(), "bad payload");
}

#[test]
fn inbound_frames_reach_the_subscribers() {
    let mut client = RithmicApiClient::new(credentials());
    connect(&mut client, SysInfraType::TickerPlant, 1, 0);
    connect(&mut client, SysInfraType::OrderPlant, 2, 0);
    client.subscribe(SysInfraType::TickerPlant, "a".to_string(), 4).unwrap();
    client.subscribe(SysInfraType::OrderPlant, "a".to_string(), 4).unwrap();
    let mut payload = Vec::new();
    prost::encoding::int32::encode(154467, &150, &mut payload);
    let frame = encode_frame(&payload).unwrap();
    match client.handle_inbound(SysInfraType::TickerPlant, InboundEvent::Binary(&frame)) {
        InboundAction::Dispatch(received) => {
            assert_eq!(received.template_id, Some(150));
            assert_eq!(received.message, Some(MessageType::LastTrade));
            assert_eq!(received.payload, &payload[..]);
        }
        other => panic!("unexpected: {:?}", other),
    }
    assert_eq!(client.receive(SysInfraType::TickerPlant, &"a".to_string()), Some(frame.clone()));
    assert_eq!(client.receive(SysInfraType::TickerPlant, &"a".to_string()), None);
    assert_eq!(client.receive(SysInfraType::OrderPlant, &"a".to_string()), None);
}

#[test]
fn frame_that_is_not_whole_reaches_nobody() {
    let mut client = RithmicApiClient::new(credentials());
    connect(&mut client, SysInfraType::TickerPlant, 1, 0);
    client.subscribe(SysInfraType::TickerPlant, "a".to_string(), 4).unwrap();
    assert!(matches!(
        client.handle_inbound(SysInfraType::TickerPlant, InboundEvent::Binary(&[0, 0, 0, 9, 1])),
        InboundAction::Skip
    ));
    assert!(matches!(
        client.handle_inbound(SysInfraType::TickerPlant, InboundEvent::Other),
        InboundAction::Skip
    ));
    assert_eq!(client.receive(SysInfraType::TickerPlant, &"a".to_string()), None);
    assert!(client.is_subscribed(SysInfraType::TickerPlant, &"a".to_string()));
}

#[test]
fn read_failure_ends_the_inbound_loop_and_drops_the_subscribers() {
    let mut client = RithmicApiClient::new(credentials());
    connect(&mut client, SysInfraType::TickerPlant, 1, 0);
    connect(&mut client, SysInfraType::OrderPlant, 2, 0);
    client.subscribe(SysInfraType::TickerPlant, "a".to_string(), 4).unwrap();
    client.subscribe(SysInfraType::OrderPlant, "b".to_string(), 4).unwrap();
    assert!(matches!(
        client.handle_inbound(SysInfraType::TickerPlant, InboundEvent::Failed("reset".to_string())),
        InboundAction::Stop
    ));
    assert!(!client.is_subscribed(SysInfraType::TickerPlant, &"a".to_string()));
    assert!(client.is_subscribed(SysInfraType::OrderPlant, &"b".to_string()));
    // the registry is as it was: the failure is not raised to anybody
    assert!(client.is_connected(SysInfraType::TickerPlant));
    assert_eq!(client.get_writer(&SysInfraType::TickerPlant), Some(1));
    assert!(matches!(
        client.handle_inbound(SysInfraType::OrderPlant, InboundEvent::Ended),
        InboundAction::Stop
    ));
    assert!(!client.is_subscribed(SysInfraType::OrderPlant, &"b".to_string()));
}
