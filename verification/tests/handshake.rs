use rithmic_api::credentials::RithmicCredentials;
use rithmic_api::errors::RithmicApiError;
use rithmic_api::handshake::{Handshake, HandshakeAction, HandshakeEvent};
use rithmic_api::plants::SysInfraType;
use rithmic_api::servers::RithmicServer;
use rithmic_api::systems::RithmicSystem;

fn credentials() -> RithmicCredentials {
    RithmicCredentials {
        user: "trader".to_string(),
        server_name: RithmicServer::Test,
        system_name: RithmicSystem::RithmicTest,
        password: "SECRET-REDACTED".to_string(),
        base_url: "wss://example.invalid:443".to_string(),
        app_name: "demo".to_string(),
        app_version: "1.2".to_string(),
        template_version: "5.27".to_string(),
        aggregated_quotes: true,
    }
}

#[test]
fn plant_codes() {
    assert_eq!(SysInfraType::TickerPlant.as_i32(), 1);
    assert_eq!(SysInfraType::OrderPlant.as_i32(), 2);
    assert_eq!(SysInfraType::HistoryPlant.as_i32(), 3);
    assert_eq!(SysInfraType::PnlPlant.as_i32(), 4);
    assert_eq!(SysInfraType::RepositoryPlant.as_i32(), 5);
    for plant in SysInfraType::all() {
        assert_eq!(SysInfraType::from_i32(plant.as_i32()), Some(plant));
    }
    for code in [i32::MIN, -1, 0, 6, 7, i32::MAX] {
        assert_eq!(SysInfraType::from_i32(code), None);
    }
    assert_eq!(SysInfraType::PnlPlant.as_str(), "PnlPlant");
}

#[test]
fn out_of_range_plant_fails_before_anything_is_sent() {
    for code in [0, 6, -3, 100] {
        assert!(matches!(
            Handshake::begin(code),
            Err(RithmicApiError::ClientErrorDebug(_))
        ));
    }
}

#[test]
fn handshake_runs_discovery_then_login() {
    let credentials = credentials();
    let mut handshake = Handshake::begin(2).unwrap();
    assert_eq!(handshake.target(), SysInfraType::OrderPlant);
    assert!(!handshake.is_done());

    match handshake.step(&credentials, HandshakeEvent::Connected) {
        HandshakeAction::RequestSystemInfo(request) => {
            assert_eq!(request.template_id, 16);
            assert_eq!(request.user_msg, "demo Signing In");
        }
        other => panic!("unexpected: {:?}", other),
    }
    let names = vec!["Rithmic Test".to_string(), "Other".to_string()];
    assert!(matches!(
        handshake.step(&credentials, HandshakeEvent::SystemInfo(names)),
        HandshakeAction::Close
    ));
    assert!(matches!(
        handshake.step(&credentials, HandshakeEvent::Closed),
        HandshakeAction::Connect
    ));
    match handshake.step(&credentials, HandshakeEvent::Connected) {
        HandshakeAction::Login(request) => {
            assert_eq!(request.template_id, 10);
            assert_eq!(request.template_version, "5.27");
            assert_eq!(request.user, "trader");
            assert_eq!(request.password, "SECRET-REDACTED");
            assert_eq!(request.app_name, "demo");
            assert_eq!(request.app_version, "1.2");
            assert_eq!(request.system_name, "Rithmic Test");
            assert_eq!(request.infra_type, 2);
            assert!(request.aggregated_quotes);
        }
        other => panic!("unexpected: {:?}", other),
    }
    assert!(!handshake.is_done());
    match handshake.step(&credentials, HandshakeEvent::LoginResponse(Some(60))) {
        HandshakeAction::Register(system_name, interval) => {
            assert_eq!(system_name, "Rithmic Test");
            assert_eq!(interval, Some(60));
        }
        other => panic!("unexpected: {:?}", other),
    }
    assert!(handshake.is_done());
}

#[test]
fn login_response_without_interval_is_passed_on() {
    let credentials = credentials();
    let mut handshake = Handshake::begin(1).unwrap();
    handshake.step(&credentials, HandshakeEvent::Connected);
    handshake.step(&credentials, HandshakeEvent::SystemInfo(vec!["S".to_string()]));
    handshake.step(&credentials, HandshakeEvent::Closed);
    handshake.step(&credentials, HandshakeEvent::Connected);
    match handshake.step(&credentials, HandshakeEvent::LoginResponse(None)) {
        HandshakeAction::Register(system_name, interval) => {
            assert_eq!(system_name, "S");
            assert_eq!(interval, None);
        }
        other => panic!("unexpected: {:?}", other),
    }
}

#[test]
fn response_without_system_name_is_a_server_error() {
    let credentials = credentials();
    let mut handshake = Handshake::begin(1).unwrap();
    handshake.step(&credentials, HandshakeEvent::Connected);
    match handshake.step(&credentials, HandshakeEvent::SystemInfo(Vec::new())) {
        HandshakeAction::Fail(RithmicApiError::ServerErrorDebug(text)) => {
            assert_eq!(text, "No system name found in response")
        }
        other => panic!("unexpected: {:?}", other),
    }
    assert!(handshake.is_done());
}

#[test]
fn transport_failure_ends_the_handshake() {
    let credentials = credentials();
    let mut handshake = Handshake::begin(3).unwrap();
    match handshake.step(&credentials, HandshakeEvent::Failed("refused".to_string())) {
        HandshakeAction::Fail(RithmicApiError::WebSocket(text)) => assert_eq!(text, "refused"),
        other => panic!("unexpected: {:?}", other),
    }
    assert!(handshake.is_done());
    assert!(matches!(
        handshake.step(&credentials, HandshakeEvent::Connected),
        HandshakeAction::Fail(RithmicApiError::ClientErrorDebug(_))
    ));
    assert!(matches!(
        handshake.step(&credentials, HandshakeEvent::Failed("again".to_string())),
        HandshakeAction::Fail(RithmicApiError::ClientErrorDebug(_))
    ));
}

#[test]
fn transport_failure_in_the_middle_ends_the_handshake() {
    let credentials = credentials();
    let mut handshake = Handshake::begin(3).unwrap();
    handshake.step(&credentials, HandshakeEvent::Connected);
    handshake.step(&credentials, HandshakeEvent::SystemInfo(vec!["S".to_string()]));
    assert!(matches!(
        handshake.step(&credentials, HandshakeEvent::Failed("close failed".to_string())),
        HandshakeAction::Fail(RithmicApiError::WebSocket(_))
    ));
    assert!(handshake.is_done());
}

#[test]
fn report_out_of_turn_ends_the_handshake() {
    let credentials = credentials();
    let mut handshake = Handshake::begin(4).unwrap();
    assert!(matches!(
        handshake.step(&credentials, HandshakeEvent::LoginResponse(Some(30))),
        HandshakeAction::Fail(RithmicApiError::ClientErrorDebug(_))
    ));
    assert!(handshake.is_done());

    let mut handshake = Handshake::begin(4).unwrap();
    handshake.step(&credentials, HandshakeEvent::Connected);
    assert!(matches!(
        handshake.step(&credentials, HandshakeEvent::Connected),
        HandshakeAction::Fail(RithmicApiError::ClientErrorDebug(_))
    ));
    assert!(handshake.is_done());

    let mut handshake = Handshake::begin(4).unwrap();
    handshake.step(&credentials, HandshakeEvent::Connected);
    handshake.step(&credentials, HandshakeEvent::SystemInfo(vec!["S".to_string()]));
    assert!(matches!(
        handshake.step(&credentials, HandshakeEvent::Connected),
        HandshakeAction::Fail(RithmicApiError::ClientErrorDebug(_))
    ));
}
