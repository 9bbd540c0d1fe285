use rithmic_api::credentials::RithmicCredentials;
use rithmic_api::servers::RithmicServer;
use rithmic_api::systems::RithmicSystem;

fn all_systems() -> Vec<(RithmicSystem, &'static str, &'static str)> {
    vec![
        (RithmicSystem::Rithmic01, "Rithmic 01", "rithmic_01.toml"),
        (RithmicSystem::Rithmic04Colo, "Rithmic 04 Colo", "rithmic_04_colo.toml"),
        (RithmicSystem::RithmicPaperTrading, "Rithmic Paper Trading", "rithmic_paper_trading.toml"),
        (RithmicSystem::RithmicTest, "Rithmic Test", "rithmic_test.toml"),
        (RithmicSystem::TopstepTrader, "TopstepTrader", "topstep_trader.toml"),
        (RithmicSystem::SpeedUp, "SpeedUp", "speedup.toml"),
        (RithmicSystem::TradeFundrr, "TradeFundrr", "tradefundrr.toml"),
        (RithmicSystem::UProfitTrader, "UProfitTrader", "uprofit_trader.toml"),
        (RithmicSystem::Apex, "Apex", "apex.toml"),
        (RithmicSystem::MESCapital, "MES Capital", "mes_capital.toml"),
        (RithmicSystem::TheTradingPit, "The Trading Pit", "the_trading_pit.toml"),
        (RithmicSystem::FundedFuturesNetwork, "Funded Futures Network", "funded_futures_network.toml"),
        (RithmicSystem::Bulenox, "Bulenox", "bulenox.toml"),
        (RithmicSystem::PropShopTrader, "PropShopTrader", "propshop_trader.toml"),
        (RithmicSystem::FourPropTrader, "4PropTrader", "4prop_trader.toml"),
        (RithmicSystem::FastTrackTrading, "FastTrackTrading", "fasttrack_trading.toml"),
    ]
}

#[test]
fn every_system_has_its_name() {
    for (system, name, _) in all_systems() {
        assert_eq!(system.to_string(), name);
        assert_eq!(RithmicSystem::from_string(name), Some(system));
    }
}

#[test]
fn every_system_has_its_file() {
    for (system, _, file) in all_systems() {
        assert_eq!(system.file_string(), file);
        assert_eq!(RithmicSystem::from_file_string(file), Some(system));
    }
}

#[test]
fn system_names_read_back() {
    for (system, _, _) in all_systems() {
        assert_eq!(RithmicSystem::from_string(&system.to_string()), Some(system));
        assert_eq!(RithmicSystem::from_file_string(&system.file_string()), Some(system));
    }
}

#[test]
fn unknown_system_names_are_refused() {
    assert_eq!(RithmicSystem::from_string(""), None);
    assert_eq!(RithmicSystem::from_string("rithmic 01"), None);
    assert_eq!(RithmicSystem::from_string("Rithmic 01 "), None);
    assert_eq!(RithmicSystem::from_string("apex.toml"), None);
    assert_eq!(RithmicSystem::from_file_string("Apex"), None);
    assert_eq!(RithmicSystem::from_file_string("apex"), None);
    assert_eq!(RithmicSystem::from_file_string(""), None);
}

#[test]
fn names_and_files_are_not_confused() {
    assert_eq!(RithmicSystem::from_string("TopstepTrader"), Some(RithmicSystem::TopstepTrader));
    assert_eq!(RithmicSystem::from_string("topstep_trader.toml"), None);
    assert_eq!(
        RithmicSystem::from_file_string("topstep_trader.toml"),
        Some(RithmicSystem::TopstepTrader)
    );
}

#[test]
fn credentials_name_their_file() {
    let credentials = RithmicCredentials {
        user: "trader".to_string(),
        server_name: RithmicServer::Chicago,
        system_name: RithmicSystem::RithmicPaperTrading,
        password: "SECRET-REDACTED".to_string(),
        base_url: "wss://example.invalid:443".to_string(),
        app_name: "demo".to_string(),
        app_version: "1.0".to_string(),
        template_version: "5.27".to_string(),
        aggregated_quotes: false,
    };
    assert_eq!(credentials.file_name(), "rithmic_paper_trading.toml");
}
