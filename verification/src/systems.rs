use crate::text::str_eq;
use vstd::prelude::*;

verus! {

/// The trading systems a set of credentials can belong to.
#[derive(Clone, Copy, Debug, PartialEq, Eq, Structural, Hash, PartialOrd, Ord)]
pub enum RithmicSystem {
    Rithmic01,
    Rithmic04Colo,
    RithmicPaperTrading,
    RithmicTest,
    TopstepTrader,
    SpeedUp,
    TradeFundrr,
    UProfitTrader,
    Apex,
    MESCapital,
    TheTradingPit,
    FundedFuturesNetwork,
    Bulenox,
    PropShopTrader,
    FourPropTrader,
    FastTrackTrading,
}

impl RithmicSystem {
    /// The name under which the server knows the system.
    pub open spec fn name(self) -> Seq<char> {
        match self {
            RithmicSystem::Rithmic01 => "Rithmic 01"@,
            RithmicSystem::Rithmic04Colo => "Rithmic 04 Colo"@,
            RithmicSystem::RithmicPaperTrading => "Rithmic Paper Trading"@,
            RithmicSystem::RithmicTest => "Rithmic Test"@,
            RithmicSystem::TopstepTrader => "TopstepTrader"@,
            RithmicSystem::SpeedUp => "SpeedUp"@,
            RithmicSystem::TradeFundrr => "TradeFundrr"@,
            RithmicSystem::UProfitTrader => "UProfitTrader"@,
            RithmicSystem::Apex => "Apex"@,
            RithmicSystem::MESCapital => "MES Capital"@,
            RithmicSystem::TheTradingPit => "The Trading Pit"@,
            RithmicSystem::FundedFuturesNetwork => "Funded Futures Network"@,
            RithmicSystem::Bulenox => "Bulenox"@,
            RithmicSystem::PropShopTrader => "PropShopTrader"@,
            RithmicSystem::FourPropTrader => "4PropTrader"@,
            RithmicSystem::FastTrackTrading => "FastTrackTrading"@,
        }
    }

    /// The name of the file that holds the system's credentials.
    pub open spec fn file_name(self) -> Seq<char> {
        match self {
            RithmicSystem::Rithmic01 => "rithmic_01.toml"@,
            RithmicSystem::Rithmic04Colo => "rithmic_04_colo.toml"@,
            RithmicSystem::RithmicPaperTrading => "rithmic_paper_trading.toml"@,
            RithmicSystem::RithmicTest => "rithmic_test.toml"@,
            RithmicSystem::TopstepTrader => "topstep_trader.toml"@,
            RithmicSystem::SpeedUp => "speedup.toml"@,
            RithmicSystem::TradeFundrr => "tradefundrr.toml"@,
            RithmicSystem::UProfitTrader => "uprofit_trader.toml"@,
            RithmicSystem::Apex => "apex.toml"@,
            RithmicSystem::MESCapital => "mes_capital.toml"@,
            RithmicSystem::TheTradingPit => "the_trading_pit.toml"@,
            RithmicSystem::FundedFuturesNetwork => "funded_futures_network.toml"@,
            RithmicSystem::Bulenox => "bulenox.toml"@,
            RithmicSystem::PropShopTrader => "propshop_trader.toml"@,
            RithmicSystem::FourPropTrader => "4prop_trader.toml"@,
            RithmicSystem::FastTrackTrading => "fasttrack_trading.toml"@,
        }
    }

    /// Converts the system to the name under which the server knows it.
    pub fn to_string(&self) -> (s: String)
        ensures
            s@ == self.name(),
    {
        match self {
            RithmicSystem::Rithmic01 => "Rithmic 01".to_owned(),
            RithmicSystem::Rithmic04Colo => "Rithmic 04 Colo".to_owned(),
            RithmicSystem::RithmicPaperTrading => "Rithmic Paper Trading".to_owned(),
            RithmicSystem::RithmicTest => "Rithmic Test".to_owned(),
            RithmicSystem::TopstepTrader => "TopstepTrader".to_owned(),
            RithmicSystem::SpeedUp => "SpeedUp".to_owned(),
            RithmicSystem::TradeFundrr => "TradeFundrr".to_owned(),
            RithmicSystem::UProfitTrader => "UProfitTrader".to_owned(),
            RithmicSystem::Apex => "Apex".to_owned(),
            RithmicSystem::MESCapital => "MES Capital".to_owned(),
            RithmicSystem::TheTradingPit => "The Trading Pit".to_owned(),
            RithmicSystem::FundedFuturesNetwork => "Funded Futures Network".to_owned(),
            RithmicSystem::Bulenox => "Bulenox".to_owned(),
            RithmicSystem::PropShopTrader => "PropShopTrader".to_owned(),
            RithmicSystem::FourPropTrader => "4PropTrader".to_owned(),
            RithmicSystem::FastTrackTrading => "FastTrackTrading".to_owned(),
        }
    }

    /// Finds the system with the given name. The answer is `None` exactly when
    /// no system carries that name.
    pub fn from_string(s: &str) -> (r: Option<RithmicSystem>)
        ensures
            match r {
                Some(system) => system.name() == s@,
                None => forall|system: RithmicSystem| system.name() != s@,
            },
    {
        if str_eq(s, "Rithmic 01") {
            Some(RithmicSystem::Rithmic01)
        } else if str_eq(s, "Rithmic 04 Colo") {
            Some(RithmicSystem::Rithmic04Colo)
        } else if str_eq(s, "Rithmic Paper Trading") {
            Some(RithmicSystem::RithmicPaperTrading)
        } else if str_eq(s, "Rithmic Test") {
            Some(RithmicSystem::RithmicTest)
        } else if str_eq(s, "TopstepTrader") {
            Some(RithmicSystem::TopstepTrader)
        } else if str_eq(s, "SpeedUp") {
            Some(RithmicSystem::SpeedUp)
        } else if str_eq(s, "TradeFundrr") {
            Some(RithmicSystem::TradeFundrr)
        } else if str_eq(s, "UProfitTrader") {
            Some(RithmicSystem::UProfitTrader)
        } else if str_eq(s, "Apex") {
            Some(RithmicSystem::Apex)
        } else if str_eq(s, "MES Capital") {
            Some(RithmicSystem::MESCapital)
        } else if str_eq(s, "The Trading Pit") {
            Some(RithmicSystem::TheTradingPit)
        } else if str_eq(s, "Funded Futures Network") {
            Some(RithmicSystem::FundedFuturesNetwork)
        } else if str_eq(s, "Bulenox") {
            Some(RithmicSystem::Bulenox)
        } else if str_eq(s, "PropShopTrader") {
            Some(RithmicSystem::PropShopTrader)
        } else if str_eq(s, "4PropTrader") {
            Some(RithmicSystem::FourPropTrader)
        } else if str_eq(s, "FastTrackTrading") {
            Some(RithmicSystem::FastTrackTrading)
        } else {
            None
        }
    }

    /// Converts the system to the name of its credentials file.
    pub fn file_string(&self) -> (s: String)
        ensures
            s@ == self.file_name(),
    {
        match self {
            RithmicSystem::Rithmic01 => "rithmic_01.toml".to_owned(),
            RithmicSystem::Rithmic04Colo => "rithmic_04_colo.toml".to_owned(),
            RithmicSystem::RithmicPaperTrading => "rithmic_paper_trading.toml".to_owned(),
            RithmicSystem::RithmicTest => "rithmic_test.toml".to_owned(),
            RithmicSystem::TopstepTrader => "topstep_trader.toml".to_owned(),
            RithmicSystem::SpeedUp => "speedup.toml".to_owned(),
            RithmicSystem::TradeFundrr => "tradefundrr.toml".to_owned(),
            RithmicSystem::UProfitTrader => "uprofit_trader.toml".to_owned(),
            RithmicSystem::Apex => "apex.toml".to_owned(),
            RithmicSystem::MESCapital => "mes_capital.toml".to_owned(),
            RithmicSystem::TheTradingPit => "the_trading_pit.toml".to_owned(),
            RithmicSystem::FundedFuturesNetwork => "funded_futures_network.toml".to_owned(),
            RithmicSystem::Bulenox => "bulenox.toml".to_owned(),
            RithmicSystem::PropShopTrader => "propshop_trader.toml".to_owned(),
            RithmicSystem::FourPropTrader => "4prop_trader.toml".to_owned(),
            RithmicSystem::FastTrackTrading => "fasttrack_trading.toml".to_owned(),
        }
    }

    /// Finds the system whose credentials file has the given name. The answer
    /// is `None` exactly when no system uses that file name.
    pub fn from_file_string(file_name: &str) -> (r: Option<Self>)
        ensures
            match r {
                Some(system) => system.file_name() == file_name@,
                None => forall|system: RithmicSystem| system.file_name() != file_name@,
            },
    {
        if str_eq(file_name, "rithmic_01.toml") {
            Some(RithmicSystem::Rithmic01)
        } else if str_eq(file_name, "rithmic_04_colo.toml") {
            Some(RithmicSystem::Rithmic04Colo)
        } else if str_eq(file_name, "rithmic_paper_trading.toml") {
            Some(RithmicSystem::RithmicPaperTrading)
        } else if str_eq(file_name, "rithmic_test.toml") {
            Some(RithmicSystem::RithmicTest)
        } else if str_eq(file_name, "topstep_trader.toml") {
            Some(RithmicSystem::TopstepTrader)
        } else if str_eq(file_name, "speedup.toml") {
            Some(RithmicSystem::SpeedUp)
        } else if str_eq(file_name, "tradefundrr.toml") {
            Some(RithmicSystem::TradeFundrr)
        } else if str_eq(file_name, "uprofit_trader.toml") {
            Some(RithmicSystem::UProfitTrader)
        } else if str_eq(file_name, "apex.toml") {
            Some(RithmicSystem::Apex)
        } else if str_eq(file_name, "mes_capital.toml") {
            Some(RithmicSystem::MESCapital)
        } else if str_eq(file_name, "the_trading_pit.toml") {
            Some(RithmicSystem::TheTradingPit)
        } else if str_eq(file_name, "funded_futures_network.toml") {
            Some(RithmicSystem::FundedFuturesNetwork)
        } else if str_eq(file_name, "bulenox.toml") {
            Some(RithmicSystem::Bulenox)
        } else if str_eq(file_name, "propshop_trader.toml") {
            Some(RithmicSystem::PropShopTrader)
        } else if str_eq(file_name, "4prop_trader.toml") {
            Some(RithmicSystem::FourPropTrader)
        } else if str_eq(file_name, "fasttrack_trading.toml") {
            Some(RithmicSystem::FastTrackTrading)
        } else {
            None
        }
    }
}

/// No two systems share a name, so a name read back by `from_string` gives
/// the system it was made from.
pub proof fn lemma_name_identifies_system(a: RithmicSystem, b: RithmicSystem)
    requires
        a.name() == b.name(),
    ensures
        a == b,
{
    reveal_strlit("Rithmic 01");
    assert("Rithmic 01"@.len() == 10 && "Rithmic 01"@[0] == 'R');
    reveal_strlit("Rithmic 04 Colo");
    assert("Rithmic 04 Colo"@.len() == 15 && "Rithmic 04 Colo"@[0] == 'R');
    reveal_strlit("Rithmic Paper Trading");
    assert("Rithmic Paper Trading"@.len() == 21 && "Rithmic Paper Trading"@[0] == 'R');
    reveal_strlit("Rithmic Test");
    assert("Rithmic Test"@.len() == 12 && "Rithmic Test"@[0] == 'R');
    reveal_strlit("TopstepTrader");
    assert("TopstepTrader"@.len() == 13 && "TopstepTrader"@[0] == 'T');
    reveal_strlit("SpeedUp");
    assert("SpeedUp"@.len() == 7 && "SpeedUp"@[0] == 'S');
    reveal_strlit("TradeFundrr");
    assert("TradeFundrr"@.len() == 11 && "TradeFundrr"@[0] == 'T');
    reveal_strlit("UProfitTrader");
    assert("UProfitTrader"@.len() == 13 && "UProfitTrader"@[0] == 'U');
    reveal_strlit("Apex");
    assert("Apex"@.len() == 4 && "Apex"@[0] == 'A');
    reveal_strlit("MES Capital");
    assert("MES Capital"@.len() == 11 && "MES Capital"@[0] == 'M');
    reveal_strlit("The Trading Pit");
    assert("The Trading Pit"@.len() == 15 && "The Trading Pit"@[0] == 'T');
    reveal_strlit("Funded Futures Network");
    assert("Funded Futures Network"@.len() == 22 && "Funded Futures Network"@[0] == 'F');
    reveal_strlit("Bulenox");
    assert("Bulenox"@.len() == 7 && "Bulenox"@[0] == 'B');
    reveal_strlit("PropShopTrader");
    assert("PropShopTrader"@.len() == 14 && "PropShopTrader"@[0] == 'P');
    reveal_strlit("4PropTrader");
    assert("4PropTrader"@.len() == 11 && "4PropTrader"@[0] == '4');
    reveal_strlit("FastTrackTrading");
    assert("FastTrackTrading"@.len() == 16 && "FastTrackTrading"@[0] == 'F');
}

/// No two systems share a credentials file, so a file name read back by
/// `from_file_string` gives the system it was made from.
pub proof fn lemma_file_name_identifies_system(a: RithmicSystem, b: RithmicSystem)
    requires
        a.file_name() == b.file_name(),
    ensures
        a == b,
{
    reveal_strlit("rithmic_01.toml");
    assert("rithmic_01.toml"@.len() == 15 && "rithmic_01.toml"@[0] == 'r');
    reveal_strlit("rithmic_04_colo.toml");
    assert("rithmic_04_colo.toml"@.len() == 20 && "rithmic_04_colo.toml"@[0] == 'r');
    reveal_strlit("rithmic_paper_trading.toml");
    assert("rithmic_paper_trading.toml"@.len() == 26 && "rithmic_paper_trading.toml"@[0] == 'r');
    reveal_strlit("rithmic_test.toml");
    assert("rithmic_test.toml"@.len() == 17 && "rithmic_test.toml"@[0] == 'r');
    reveal_strlit("topstep_trader.toml");
    assert("topstep_trader.toml"@.len() == 19 && "topstep_trader.toml"@[0] == 't');
    reveal_strlit("speedup.toml");
    assert("speedup.toml"@.len() == 12 && "speedup.toml"@[0] == 's');
    reveal_strlit("tradefundrr.toml");
    assert("tradefundrr.toml"@.len() == 16 && "tradefundrr.toml"@[0] == 't');
    reveal_strlit("uprofit_trader.toml");
    assert("uprofit_trader.toml"@.len() == 19 && "uprofit_trader.toml"@[0] == 'u');
    reveal_strlit("apex.toml");
    assert("apex.toml"@.len() == 9 && "apex.toml"@[0] == 'a');
    reveal_strlit("mes_capital.toml");
    assert("mes_capital.toml"@.len() == 16 && "mes_capital.toml"@[0] == 'm');
    reveal_strlit("the_trading_pit.toml");
    assert("the_trading_pit.toml"@.len() == 20 && "the_trading_pit.toml"@[0] == 't');
    reveal_strlit("funded_futures_network.toml");
    assert("funded_futures_network.toml"@.len() == 27 && "funded_futures_network.toml"@[0] == 'f');
    reveal_strlit("bulenox.toml");
    assert("bulenox.toml"@.len() == 12 && "bulenox.toml"@[0] == 'b');
    reveal_strlit("propshop_trader.toml");
    assert("propshop_trader.toml"@.len() == 20 && "propshop_trader.toml"@[0] == 'p');
    reveal_strlit("4prop_trader.toml");
    assert("4prop_trader.toml"@.len() == 17 && "4prop_trader.toml"@[0] == '4');
    reveal_strlit("fasttrack_trading.toml");
    assert("fasttrack_trading.toml"@.len() == 22 && "fasttrack_trading.toml"@[0] == 'f');
}

} // verus!
