use vstd::prelude::*;

verus! {

/// The five infrastructure plants. Each is an independent channel with its
/// own connection, handshake and heartbeat.
#[derive(Clone, Copy, Debug, PartialEq, Eq, Structural, Hash)]
pub enum SysInfraType {
    TickerPlant,
    OrderPlant,
    HistoryPlant,
    PnlPlant,
    RepositoryPlant,
}

impl SysInfraType {
    /// The code that stands for the plant in a login request.
    pub open spec fn code(self) -> i32 {
        match self {
            SysInfraType::TickerPlant => 1,
            SysInfraType::OrderPlant => 2,
            SysInfraType::HistoryPlant => 3,
            SysInfraType::PnlPlant => 4,
            SysInfraType::RepositoryPlant => 5,
        }
    }

    /// The plant's name as it is written in messages for people.
    pub open spec fn name(self) -> Seq<char> {
        match self {
            SysInfraType::TickerPlant => "TickerPlant"@,
            SysInfraType::OrderPlant => "OrderPlant"@,
            SysInfraType::HistoryPlant => "HistoryPlant"@,
            SysInfraType::PnlPlant => "PnlPlant"@,
            SysInfraType::RepositoryPlant => "RepositoryPlant"@,
        }
    }

    /// Returns the plant's name.
    pub fn as_str(&self) -> (s: &'static str)
        ensures
            s@ == self.name(),
    {
        match self {
            SysInfraType::TickerPlant => "TickerPlant",
            SysInfraType::OrderPlant => "OrderPlant",
            SysInfraType::HistoryPlant => "HistoryPlant",
            SysInfraType::PnlPlant => "PnlPlant",
            SysInfraType::RepositoryPlant => "RepositoryPlant",
        }
    }

    /// Returns the plant's wire code, between 1 and 5.
    pub fn as_i32(&self) -> (c: i32)
        ensures
            c == self.code(),
            1 <= c <= 5,
    {
        match self {
            SysInfraType::TickerPlant => 1,
            SysInfraType::OrderPlant => 2,
            SysInfraType::HistoryPlant => 3,
            SysInfraType::PnlPlant => 4,
            SysInfraType::RepositoryPlant => 5,
        }
    }

    /// Finds the plant with the given wire code. Codes outside 1..=5 name no
    /// plant.
    pub fn from_i32(value: i32) -> (r: Option<SysInfraType>)
        ensures
            (1 <= value <= 5) <==> r is Some,
            r matches Some(p) ==> p.code() == value,
    {
        if value == 1 {
            Some(SysInfraType::TickerPlant)
        } else if value == 2 {
            Some(SysInfraType::OrderPlant)
        } else if value == 3 {
            Some(SysInfraType::HistoryPlant)
        } else if value == 4 {
            Some(SysInfraType::PnlPlant)
        } else if value == 5 {
            Some(SysInfraType::RepositoryPlant)
        } else {
            None
        }
    }

    /// All plants, in the order of their codes.
    pub fn all() -> (v: Vec<SysInfraType>)
        ensures
            v@.len() == 5,
            forall|i: int| 0 <= i < 5 ==> (#[trigger] v@[i]).code() == i + 1,
    {
        vec![
            SysInfraType::TickerPlant,
            SysInfraType::OrderPlant,
            SysInfraType::HistoryPlant,
            SysInfraType::PnlPlant,
            SysInfraType::RepositoryPlant,
        ]
    }
}

/// Distinct plants carry distinct codes.
pub proof fn lemma_code_injective(a: SysInfraType, b: SysInfraType)
    requires
        a.code() == b.code(),
    ensures
        a == b,
{
}

} // verus!
