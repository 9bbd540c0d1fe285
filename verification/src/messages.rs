use crate::plants::SysInfraType;
use vstd::prelude::*;

verus! {

/// The message types that a plant answers with or streams on its own.
#[derive(Clone, Copy, Debug, PartialEq, Eq, Structural, Hash)]
pub enum MessageType {
    ResponseLogin,
    ResponseLogout,
    ResponseReferenceData,
    ResponseRithmicSystemInfo,
    ResponseHeartbeat,
    ResponseMarketDataUpdate,
    ResponseGetInstrumentByUnderlying,
    ResponseGetInstrumentByUnderlyingKeys,
    ResponseMarketDataUpdateByUnderlying,
    ResponseGiveTickSizeTypeTable,
    ResponseSearchSymbols,
    ResponseProductCodes,
    ResponseFrontMonthContract,
    ResponseDepthByOrderSnapshot,
    ResponseDepthByOrderUpdates,
    ResponseGetVolumeAtPrice,
    ResponseAuxilliaryReferenceData,
    LastTrade,
    BestBidOffer,
    TradeStatistics,
    QuoteStatistics,
    IndicatorPrices,
    EndOfDayPrices,
    OrderBook,
    MarketMode,
    OpenInterest,
    FrontMonthContractUpdate,
    DepthByOrder,
    DepthByOrderEndEvent,
    SymbolMarginRate,
    OrderPriceLimits,
    ResponseTimeBarUpdate,
    ResponseTimeBarReplay,
    ResponseTickBarUpdate,
    ResponseTickBarReplay,
    RequestVolumeProfileMinuteBars,
    ResponseVolumeProfileMinuteBars,
    ResponseResumeBars,
    TimeBar,
    TickBar,
    ResponseAccountList,
    ResponseAccountRmsInfo,
    ResponseProductRmsInfo,
    ResponseSubscribeForOrderUpdates,
    ResponseTradeRoutes,
    ResponseNewOrder,
    ResponseModifyOrder,
    ResponseCancelOrder,
    ResponseShowOrderHistoryDates,
    ResponseShowOrders,
    ResponseShowOrderHistory,
    ResponseShowOrderHistorySummary,
    ResponseShowOrderHistoryDetail,
    ResponseOcoOrder,
    ResponseBracketOrder,
    ResponseUpdateTargetBracketLevel,
    ResponseUpdateStopBracketLevel,
    ResponseSubscribeToBracketUpdates,
    ResponseShowBrackets,
    ResponseShowBracketStops,
    ResponseListExchangePermissions,
    ResponseLinkOrders,
    ResponseCancelAllOrders,
    ResponseEasyToBorrowList,
    TradeRoute,
    RithmicOrderNotification,
    ExchangeOrderNotification,
    BracketUpdates,
    AccountListUpdates,
    UpdateEasyToBorrowList,
    AccountRmsUpdates,
    ResponsePnLPositionUpdates,
    ResponsePnLPositionSnapshot,
    InstrumentPnLPositionUpdate,
    AccountPnLPositionUpdate,
    ResponseListUnacceptedAgreements,
    ResponseListAcceptedAgreements,
    ResponseAcceptAgreement,
    ResponseShowAgreement,
    ResponseSetRithmicMrktDataSelfCertStatus,
    ResponseModifyOrderReferenceData,
    ResponseOrderSessionConfig,
    ResponseExitPosition,
    ResponseReplayExecutions,
    ResponseAccountRmsUpdates,
}

impl MessageType {
    /// The template id that announces a message of this type on the wire.
    pub open spec fn template(self) -> i32 {
        match self {
            MessageType::ResponseLogin => 11,
            MessageType::ResponseLogout => 13,
            MessageType::ResponseReferenceData => 15,
            MessageType::ResponseRithmicSystemInfo => 17,
            MessageType::ResponseHeartbeat => 19,
            MessageType::ResponseMarketDataUpdate => 101,
            MessageType::ResponseGetInstrumentByUnderlying => 103,
            MessageType::ResponseGetInstrumentByUnderlyingKeys => 104,
            MessageType::ResponseMarketDataUpdateByUnderlying => 106,
            MessageType::ResponseGiveTickSizeTypeTable => 108,
            MessageType::ResponseSearchSymbols => 110,
            MessageType::ResponseProductCodes => 112,
            MessageType::ResponseFrontMonthContract => 114,
            MessageType::ResponseDepthByOrderSnapshot => 116,
            MessageType::ResponseDepthByOrderUpdates => 118,
            MessageType::ResponseGetVolumeAtPrice => 120,
            MessageType::ResponseAuxilliaryReferenceData => 122,
            MessageType::LastTrade => 150,
            MessageType::BestBidOffer => 151,
            MessageType::TradeStatistics => 152,
            MessageType::QuoteStatistics => 153,
            MessageType::IndicatorPrices => 154,
            MessageType::EndOfDayPrices => 155,
            MessageType::OrderBook => 156,
            MessageType::MarketMode => 157,
            MessageType::OpenInterest => 158,
            MessageType::FrontMonthContractUpdate => 159,
            MessageType::DepthByOrder => 160,
            MessageType::DepthByOrderEndEvent => 161,
            MessageType::SymbolMarginRate => 162,
            MessageType::OrderPriceLimits => 163,
            MessageType::ResponseTimeBarUpdate => 201,
            MessageType::ResponseTimeBarReplay => 203,
            MessageType::ResponseTickBarUpdate => 205,
            MessageType::ResponseTickBarReplay => 207,
            MessageType::RequestVolumeProfileMinuteBars => 208,
            MessageType::ResponseVolumeProfileMinuteBars => 209,
            MessageType::ResponseResumeBars => 211,
            MessageType::TimeBar => 250,
            MessageType::TickBar => 251,
            MessageType::ResponseAccountList => 303,
            MessageType::ResponseAccountRmsInfo => 305,
            MessageType::ResponseProductRmsInfo => 307,
            MessageType::ResponseSubscribeForOrderUpdates => 309,
            MessageType::ResponseTradeRoutes => 311,
            MessageType::ResponseNewOrder => 313,
            MessageType::ResponseModifyOrder => 315,
            MessageType::ResponseCancelOrder => 317,
            MessageType::ResponseShowOrderHistoryDates => 319,
            MessageType::ResponseShowOrders => 321,
            MessageType::ResponseShowOrderHistory => 323,
            MessageType::ResponseShowOrderHistorySummary => 325,
            MessageType::ResponseShowOrderHistoryDetail => 327,
            MessageType::ResponseOcoOrder => 329,
            MessageType::ResponseBracketOrder => 331,
            MessageType::ResponseUpdateTargetBracketLevel => 333,
            MessageType::ResponseUpdateStopBracketLevel => 335,
            MessageType::ResponseSubscribeToBracketUpdates => 337,
            MessageType::ResponseShowBrackets => 339,
            MessageType::ResponseShowBracketStops => 341,
            MessageType::ResponseListExchangePermissions => 343,
            MessageType::ResponseLinkOrders => 345,
            MessageType::ResponseCancelAllOrders => 347,
            MessageType::ResponseEasyToBorrowList => 349,
            MessageType::TradeRoute => 350,
            MessageType::RithmicOrderNotification => 351,
            MessageType::ExchangeOrderNotification => 352,
            MessageType::BracketUpdates => 353,
            MessageType::AccountListUpdates => 354,
            MessageType::UpdateEasyToBorrowList => 355,
            MessageType::AccountRmsUpdates => 356,
            MessageType::ResponsePnLPositionUpdates => 401,
            MessageType::ResponsePnLPositionSnapshot => 403,
            MessageType::InstrumentPnLPositionUpdate => 450,
            MessageType::AccountPnLPositionUpdate => 451,
            MessageType::ResponseListUnacceptedAgreements => 501,
            MessageType::ResponseListAcceptedAgreements => 503,
            MessageType::ResponseAcceptAgreement => 505,
            MessageType::ResponseShowAgreement => 507,
            MessageType::ResponseSetRithmicMrktDataSelfCertStatus => 509,
            MessageType::ResponseModifyOrderReferenceData => 3501,
            MessageType::ResponseOrderSessionConfig => 3503,
            MessageType::ResponseExitPosition => 3505,
            MessageType::ResponseReplayExecutions => 3507,
            MessageType::ResponseAccountRmsUpdates => 3509,
        }
    }

    /// Whether the plant sends messages of this type.
    pub open spec fn arrives_on(self, plant: SysInfraType) -> bool {
        match plant {
            SysInfraType::TickerPlant => match self {
                MessageType::ResponseLogin
                | MessageType::ResponseLogout
                | MessageType::ResponseReferenceData
                | MessageType::ResponseRithmicSystemInfo
                | MessageType::ResponseHeartbeat
                | MessageType::ResponseMarketDataUpdate
                | MessageType::ResponseGetInstrumentByUnderlying
                | MessageType::ResponseGetInstrumentByUnderlyingKeys
                | MessageType::ResponseMarketDataUpdateByUnderlying
                | MessageType::ResponseGiveTickSizeTypeTable
                | MessageType::ResponseSearchSymbols
                | MessageType::ResponseProductCodes
                | MessageType::ResponseFrontMonthContract
                | MessageType::ResponseDepthByOrderSnapshot
                | MessageType::ResponseDepthByOrderUpdates
                | MessageType::ResponseGetVolumeAtPrice
                | MessageType::ResponseAuxilliaryReferenceData
                | MessageType::LastTrade
                | MessageType::BestBidOffer
                | MessageType::TradeStatistics
                | MessageType::QuoteStatistics
                | MessageType::IndicatorPrices
                | MessageType::EndOfDayPrices
                | MessageType::OrderBook
                | MessageType::MarketMode
                | MessageType::OpenInterest
                | MessageType::FrontMonthContractUpdate
                | MessageType::DepthByOrder
                | MessageType::DepthByOrderEndEvent
                | MessageType::SymbolMarginRate
                | MessageType::OrderPriceLimits
                => true,
                _ => false,
            },
            SysInfraType::OrderPlant => match self {
                MessageType::ResponseLogin
                | MessageType::ResponseLogout
                | MessageType::ResponseReferenceData
                | MessageType::ResponseRithmicSystemInfo
                | MessageType::ResponseHeartbeat
                | MessageType::ResponseAccountList
                | MessageType::ResponseAccountRmsInfo
                | MessageType::ResponseProductRmsInfo
                | MessageType::ResponseSubscribeForOrderUpdates
                | MessageType::ResponseTradeRoutes
                | MessageType::ResponseNewOrder
                | MessageType::ResponseModifyOrder
                | MessageType::ResponseCancelOrder
                | MessageType::ResponseShowOrderHistoryDates
                | MessageType::ResponseShowOrders
                | MessageType::ResponseShowOrderHistory
                | MessageType::ResponseShowOrderHistorySummary
                | MessageType::ResponseShowOrderHistoryDetail
                | MessageType::ResponseOcoOrder
                | MessageType::ResponseBracketOrder
                | MessageType::ResponseUpdateTargetBracketLevel
                | MessageType::ResponseUpdateStopBracketLevel
                | MessageType::ResponseSubscribeToBracketUpdates
                | MessageType::ResponseShowBrackets
                | MessageType::ResponseShowBracketStops
                | MessageType::ResponseListExchangePermissions
                | MessageType::ResponseLinkOrders
                | MessageType::ResponseCancelAllOrders
                | MessageType::ResponseEasyToBorrowList
                | MessageType::TradeRoute
                | MessageType::RithmicOrderNotification
                | MessageType::ExchangeOrderNotification
                | MessageType::BracketUpdates
                | MessageType::AccountListUpdates
                | MessageType::UpdateEasyToBorrowList
                | MessageType::ResponseModifyOrderReferenceData
                | MessageType::ResponseOrderSessionConfig
                | MessageType::ResponseExitPosition
                | MessageType::ResponseReplayExecutions
                | MessageType::ResponseAccountRmsUpdates
                | MessageType::AccountRmsUpdates
                => true,
                _ => false,
            },
            SysInfraType::HistoryPlant => match self {
                MessageType::ResponseLogin
                | MessageType::ResponseLogout
                | MessageType::ResponseReferenceData
                | MessageType::ResponseRithmicSystemInfo
                | MessageType::ResponseHeartbeat
                | MessageType::ResponseTimeBarUpdate
                | MessageType::ResponseTimeBarReplay
                | MessageType::ResponseTickBarUpdate
                | MessageType::ResponseTickBarReplay
                | MessageType::RequestVolumeProfileMinuteBars
                | MessageType::ResponseVolumeProfileMinuteBars
                | MessageType::ResponseResumeBars
                | MessageType::TimeBar
                | MessageType::TickBar
                => true,
                _ => false,
            },
            SysInfraType::PnlPlant => match self {
                MessageType::ResponseLogin
                | MessageType::ResponseLogout
                | MessageType::ResponseReferenceData
                | MessageType::ResponseRithmicSystemInfo
                | MessageType::ResponseHeartbeat
                | MessageType::ResponsePnLPositionUpdates
                | MessageType::ResponsePnLPositionSnapshot
                | MessageType::InstrumentPnLPositionUpdate
                | MessageType::AccountPnLPositionUpdate
                => true,
                _ => false,
            },
            SysInfraType::RepositoryPlant => match self {
                MessageType::ResponseLogin
                | MessageType::ResponseLogout
                | MessageType::ResponseReferenceData
                | MessageType::ResponseRithmicSystemInfo
                | MessageType::ResponseHeartbeat
                | MessageType::ResponseListUnacceptedAgreements
                | MessageType::ResponseListAcceptedAgreements
                | MessageType::ResponseAcceptAgreement
                | MessageType::ResponseShowAgreement
                | MessageType::ResponseSetRithmicMrktDataSelfCertStatus
                => true,
                _ => false,
            },
        }
    }

    /// Returns the template id that announces a message of this type.
    pub fn template_id(&self) -> (id: i32)
        ensures
            id == self.template(),
    {
        match self {
            MessageType::ResponseLogin => 11,
            MessageType::ResponseLogout => 13,
            MessageType::ResponseReferenceData => 15,
            MessageType::ResponseRithmicSystemInfo => 17,
            MessageType::ResponseHeartbeat => 19,
            MessageType::ResponseMarketDataUpdate => 101,
            MessageType::ResponseGetInstrumentByUnderlying => 103,
            MessageType::ResponseGetInstrumentByUnderlyingKeys => 104,
            MessageType::ResponseMarketDataUpdateByUnderlying => 106,
            MessageType::ResponseGiveTickSizeTypeTable => 108,
            MessageType::ResponseSearchSymbols => 110,
            MessageType::ResponseProductCodes => 112,
            MessageType::ResponseFrontMonthContract => 114,
            MessageType::ResponseDepthByOrderSnapshot => 116,
            MessageType::ResponseDepthByOrderUpdates => 118,
            MessageType::ResponseGetVolumeAtPrice => 120,
            MessageType::ResponseAuxilliaryReferenceData => 122,
            MessageType::LastTrade => 150,
            MessageType::BestBidOffer => 151,
            MessageType::TradeStatistics => 152,
            MessageType::QuoteStatistics => 153,
            MessageType::IndicatorPrices => 154,
            MessageType::EndOfDayPrices => 155,
            MessageType::OrderBook => 156,
            MessageType::MarketMode => 157,
            MessageType::OpenInterest => 158,
            MessageType::FrontMonthContractUpdate => 159,
            MessageType::DepthByOrder => 160,
            MessageType::DepthByOrderEndEvent => 161,
            MessageType::SymbolMarginRate => 162,
            MessageType::OrderPriceLimits => 163,
            MessageType::ResponseTimeBarUpdate => 201,
            MessageType::ResponseTimeBarReplay => 203,
            MessageType::ResponseTickBarUpdate => 205,
            MessageType::ResponseTickBarReplay => 207,
            MessageType::RequestVolumeProfileMinuteBars => 208,
            MessageType::ResponseVolumeProfileMinuteBars => 209,
            MessageType::ResponseResumeBars => 211,
            MessageType::TimeBar => 250,
            MessageType::TickBar => 251,
            MessageType::ResponseAccountList => 303,
            MessageType::ResponseAccountRmsInfo => 305,
            MessageType::ResponseProductRmsInfo => 307,
            MessageType::ResponseSubscribeForOrderUpdates => 309,
            MessageType::ResponseTradeRoutes => 311,
            MessageType::ResponseNewOrder => 313,
            MessageType::ResponseModifyOrder => 315,
            MessageType::ResponseCancelOrder => 317,
            MessageType::ResponseShowOrderHistoryDates => 319,
            MessageType::ResponseShowOrders => 321,
            MessageType::ResponseShowOrderHistory => 323,
            MessageType::ResponseShowOrderHistorySummary => 325,
            MessageType::ResponseShowOrderHistoryDetail => 327,
            MessageType::ResponseOcoOrder => 329,
            MessageType::ResponseBracketOrder => 331,
            MessageType::ResponseUpdateTargetBracketLevel => 333,
            MessageType::ResponseUpdateStopBracketLevel => 335,
            MessageType::ResponseSubscribeToBracketUpdates => 337,
            MessageType::ResponseShowBrackets => 339,
            MessageType::ResponseShowBracketStops => 341,
            MessageType::ResponseListExchangePermissions => 343,
            MessageType::ResponseLinkOrders => 345,
            MessageType::ResponseCancelAllOrders => 347,
            MessageType::ResponseEasyToBorrowList => 349,
            MessageType::TradeRoute => 350,
            MessageType::RithmicOrderNotification => 351,
            MessageType::ExchangeOrderNotification => 352,
            MessageType::BracketUpdates => 353,
            MessageType::AccountListUpdates => 354,
            MessageType::UpdateEasyToBorrowList => 355,
            MessageType::AccountRmsUpdates => 356,
            MessageType::ResponsePnLPositionUpdates => 401,
            MessageType::ResponsePnLPositionSnapshot => 403,
            MessageType::InstrumentPnLPositionUpdate => 450,
            MessageType::AccountPnLPositionUpdate => 451,
            MessageType::ResponseListUnacceptedAgreements => 501,
            MessageType::ResponseListAcceptedAgreements => 503,
            MessageType::ResponseAcceptAgreement => 505,
            MessageType::ResponseShowAgreement => 507,
            MessageType::ResponseSetRithmicMrktDataSelfCertStatus => 509,
            MessageType::ResponseModifyOrderReferenceData => 3501,
            MessageType::ResponseOrderSessionConfig => 3503,
            MessageType::ResponseExitPosition => 3505,
            MessageType::ResponseReplayExecutions => 3507,
            MessageType::ResponseAccountRmsUpdates => 3509,
        }
    }
}

/// `found` is the answer to the question which message type the plant
/// announces with the template id: the one type of the plant that has the id,
/// or `None` when the plant has no such type.
pub open spec fn is_message_of(plant: SysInfraType, template_id: i32, found: Option<MessageType>)
    -> bool {
    match found {
        Some(message) => message.template() == template_id && message.arrives_on(plant),
        None => forall|message: MessageType|
            !(message.template() == template_id && #[trigger] message.arrives_on(plant)),
    }
}

/// No two message types share a template id, so a template id names at most
/// one type.
pub proof fn lemma_template_identifies_message(a: MessageType, b: MessageType)
    requires
        a.template() == b.template(),
    ensures
        a == b,
{
}


/// Finds the message type that the ticker plant announces with the template id.
pub fn ticker_plant_message(template_id: i32) -> (found: Option<MessageType>)
    ensures
        is_message_of(SysInfraType::TickerPlant, template_id, found),
{
    match template_id {
        11 => Some(MessageType::ResponseLogin),
        13 => Some(MessageType::ResponseLogout),
        15 => Some(MessageType::ResponseReferenceData),
        17 => Some(MessageType::ResponseRithmicSystemInfo),
        19 => Some(MessageType::ResponseHeartbeat),
        101 => Some(MessageType::ResponseMarketDataUpdate),
        103 => Some(MessageType::ResponseGetInstrumentByUnderlying),
        104 => Some(MessageType::ResponseGetInstrumentByUnderlyingKeys),
        106 => Some(MessageType::ResponseMarketDataUpdateByUnderlying),
        108 => Some(MessageType::ResponseGiveTickSizeTypeTable),
        110 => Some(MessageType::ResponseSearchSymbols),
        112 => Some(MessageType::ResponseProductCodes),
        114 => Some(MessageType::ResponseFrontMonthContract),
        116 => Some(MessageType::ResponseDepthByOrderSnapshot),
        118 => Some(MessageType::ResponseDepthByOrderUpdates),
        120 => Some(MessageType::ResponseGetVolumeAtPrice),
        122 => Some(MessageType::ResponseAuxilliaryReferenceData),
        150 => Some(MessageType::LastTrade),
        151 => Some(MessageType::BestBidOffer),
        152 => Some(MessageType::TradeStatistics),
        153 => Some(MessageType::QuoteStatistics),
        154 => Some(MessageType::IndicatorPrices),
        155 => Some(MessageType::EndOfDayPrices),
        156 => Some(MessageType::OrderBook),
        157 => Some(MessageType::MarketMode),
        158 => Some(MessageType::OpenInterest),
        159 => Some(MessageType::FrontMonthContractUpdate),
        160 => Some(MessageType::DepthByOrder),
        161 => Some(MessageType::DepthByOrderEndEvent),
        162 => Some(MessageType::SymbolMarginRate),
        163 => Some(MessageType::OrderPriceLimits),
        _ => None,
    }
}

/// Finds the message type that the order plant announces with the template id.
pub fn order_plant_message(template_id: i32) -> (found: Option<MessageType>)
    ensures
        is_message_of(SysInfraType::OrderPlant, template_id, found),
{
    match template_id {
        11 => Some(MessageType::ResponseLogin),
        13 => Some(MessageType::ResponseLogout),
        15 => Some(MessageType::ResponseReferenceData),
        17 => Some(MessageType::ResponseRithmicSystemInfo),
        19 => Some(MessageType::ResponseHeartbeat),
        303 => Some(MessageType::ResponseAccountList),
        305 => Some(MessageType::ResponseAccountRmsInfo),
        307 => Some(MessageType::ResponseProductRmsInfo),
        309 => Some(MessageType::ResponseSubscribeForOrderUpdates),
        311 => Some(MessageType::ResponseTradeRoutes),
        313 => Some(MessageType::ResponseNewOrder),
        315 => Some(MessageType::ResponseModifyOrder),
        317 => Some(MessageType::ResponseCancelOrder),
        319 => Some(MessageType::ResponseShowOrderHistoryDates),
        321 => Some(MessageType::ResponseShowOrders),
        323 => Some(MessageType::ResponseShowOrderHistory),
        325 => Some(MessageType::ResponseShowOrderHistorySummary),
        327 => Some(MessageType::ResponseShowOrderHistoryDetail),
        329 => Some(MessageType::ResponseOcoOrder),
        331 => Some(MessageType::ResponseBracketOrder),
        333 => Some(MessageType::ResponseUpdateTargetBracketLevel),
        335 => Some(MessageType::ResponseUpdateStopBracketLevel),
        337 => Some(MessageType::ResponseSubscribeToBracketUpdates),
        339 => Some(MessageType::ResponseShowBrackets),
        341 => Some(MessageType::ResponseShowBracketStops),
        343 => Some(MessageType::ResponseListExchangePermissions),
        345 => Some(MessageType::ResponseLinkOrders),
        347 => Some(MessageType::ResponseCancelAllOrders),
        349 => Some(MessageType::ResponseEasyToBorrowList),
        350 => Some(MessageType::TradeRoute),
        351 => Some(MessageType::RithmicOrderNotification),
        352 => Some(MessageType::ExchangeOrderNotification),
        353 => Some(MessageType::BracketUpdates),
        354 => Some(MessageType::AccountListUpdates),
        355 => Some(MessageType::UpdateEasyToBorrowList),
        3501 => Some(MessageType::ResponseModifyOrderReferenceData),
        3503 => Some(MessageType::ResponseOrderSessionConfig),
        3505 => Some(MessageType::ResponseExitPosition),
        3507 => Some(MessageType::ResponseReplayExecutions),
        3509 => Some(MessageType::ResponseAccountRmsUpdates),
        356 => Some(MessageType::AccountRmsUpdates),
        _ => None,
    }
}

/// Finds the message type that the history plant announces with the template id.
pub fn history_plant_message(template_id: i32) -> (found: Option<MessageType>)
    ensures
        is_message_of(SysInfraType::HistoryPlant, template_id, found),
{
    match template_id {
        11 => Some(MessageType::ResponseLogin),
        13 => Some(MessageType::ResponseLogout),
        15 => Some(MessageType::ResponseReferenceData),
        17 => Some(MessageType::ResponseRithmicSystemInfo),
        19 => Some(MessageType::ResponseHeartbeat),
        201 => Some(MessageType::ResponseTimeBarUpdate),
        203 => Some(MessageType::ResponseTimeBarReplay),
        205 => Some(MessageType::ResponseTickBarUpdate),
        207 => Some(MessageType::ResponseTickBarReplay),
        208 => Some(MessageType::RequestVolumeProfileMinuteBars),
        209 => Some(MessageType::ResponseVolumeProfileMinuteBars),
        211 => Some(MessageType::ResponseResumeBars),
        250 => Some(MessageType::TimeBar),
        251 => Some(MessageType::TickBar),
        _ => None,
    }
}

/// Finds the message type that the profit-and-loss plant announces with the template id.
pub fn pnl_plant_message(template_id: i32) -> (found: Option<MessageType>)
    ensures
        is_message_of(SysInfraType::PnlPlant, template_id, found),
{
    match template_id {
        11 => Some(MessageType::ResponseLogin),
        13 => Some(MessageType::ResponseLogout),
        15 => Some(MessageType::ResponseReferenceData),
        17 => Some(MessageType::ResponseRithmicSystemInfo),
        19 => Some(MessageType::ResponseHeartbeat),
        401 => Some(MessageType::ResponsePnLPositionUpdates),
        403 => Some(MessageType::ResponsePnLPositionSnapshot),
        450 => Some(MessageType::InstrumentPnLPositionUpdate),
        451 => Some(MessageType::AccountPnLPositionUpdate),
        _ => None,
    }
}

/// Finds the message type that the repository plant announces with the template id.
pub fn repo_plant_message(template_id: i32) -> (found: Option<MessageType>)
    ensures
        is_message_of(SysInfraType::RepositoryPlant, template_id, found),
{
    match template_id {
        11 => Some(MessageType::ResponseLogin),
        13 => Some(MessageType::ResponseLogout),
        15 => Some(MessageType::ResponseReferenceData),
        17 => Some(MessageType::ResponseRithmicSystemInfo),
        19 => Some(MessageType::ResponseHeartbeat),
        501 => Some(MessageType::ResponseListUnacceptedAgreements),
        503 => Some(MessageType::ResponseListAcceptedAgreements),
        505 => Some(MessageType::ResponseAcceptAgreement),
        507 => Some(MessageType::ResponseShowAgreement),
        509 => Some(MessageType::ResponseSetRithmicMrktDataSelfCertStatus),
        _ => None,
    }
}

/// Finds the message type that the plant announces with the template id.
pub fn message_for(plant: SysInfraType, template_id: i32) -> (found: Option<MessageType>)
    ensures
        is_message_of(plant, template_id, found),
{
    match plant {
        SysInfraType::TickerPlant => ticker_plant_message(template_id),
        SysInfraType::OrderPlant => order_plant_message(template_id),
        SysInfraType::HistoryPlant => history_plant_message(template_id),
        SysInfraType::PnlPlant => pnl_plant_message(template_id),
        SysInfraType::RepositoryPlant => repo_plant_message(template_id),
    }
}

} // verus!
