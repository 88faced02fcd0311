//! Enumerated single-byte fields: each has a closed set of named wire
//! values and a reserved null value that unrecognized bytes decode to.

use vstd::prelude::*;

verus! {

#[derive(Clone, Copy, Debug, PartialEq, Eq, Structural)]
pub enum BoolEnum {
    False,
    True,
    NullVal,
}

/// The wire byte each `BoolEnum` value is encoded as.
pub open spec fn bool_enum_to_byte(v: BoolEnum) -> u8 {
    match v {
        BoolEnum::False => 0,
        BoolEnum::True => 1,
        BoolEnum::NullVal => 255,
    }
}

/// The `BoolEnum` value a wire byte decodes to; an unrecognized byte
/// maps to the reserved null value, never to a failure.
pub open spec fn bool_enum_from_byte(b: u8) -> BoolEnum {
    if b == 0 {
        BoolEnum::False
    } else if b == 1 {
        BoolEnum::True
    } else {
        BoolEnum::NullVal
    }
}

impl BoolEnum {
    /// The byte this value is encoded as.
    pub fn value(self) -> (r: u8)
        ensures
            r == bool_enum_to_byte(self),
    {
        match self {
            BoolEnum::False => 0,
            BoolEnum::True => 1,
            BoolEnum::NullVal => 255,
        }
    }
}

impl From<u8> for BoolEnum {
    fn from(v: u8) -> (r: BoolEnum) {
        if v == 0 {
            BoolEnum::False
        } else if v == 1 {
            BoolEnum::True
        } else {
            BoolEnum::NullVal
        }
    }
}

impl vstd::std_specs::convert::FromSpecImpl<u8> for BoolEnum {
    open spec fn obeys_from_spec() -> bool {
        true
    }

    open spec fn from_spec(v: u8) -> BoolEnum {
        bool_enum_from_byte(v)
    }
}

impl Default for BoolEnum {
    fn default() -> (r: BoolEnum)
        ensures
            r == BoolEnum::NullVal,
    {
        BoolEnum::NullVal
    }
}

#[derive(Clone, Copy, Debug, PartialEq, Eq, Structural)]
pub enum FilterType {
    PriceFilter,
    PercentPrice,
    PercentPriceBySide,
    LotSize,
    MinNotional,
    Notional,
    IcebergParts,
    MarketLotSize,
    MaxNumOrders,
    MaxNumAlgoOrders,
    MaxNumIcebergOrders,
    MaxPosition,
    TrailingDelta,
    NullVal,
}

/// The wire byte each `FilterType` value is encoded as.
pub open spec fn filter_type_to_byte(v: FilterType) -> u8 {
    match v {
        FilterType::PriceFilter => 1,
        FilterType::PercentPrice => 2,
        FilterType::PercentPriceBySide => 3,
        FilterType::LotSize => 4,
        FilterType::MinNotional => 5,
        FilterType::Notional => 6,
        FilterType::IcebergParts => 7,
        FilterType::MarketLotSize => 8,
        FilterType::MaxNumOrders => 9,
        FilterType::MaxNumAlgoOrders => 10,
        FilterType::MaxNumIcebergOrders => 11,
        FilterType::MaxPosition => 12,
        FilterType::TrailingDelta => 13,
        FilterType::NullVal => 255,
    }
}

/// The `FilterType` value a wire byte decodes to; an unrecognized byte
/// maps to the reserved null value, never to a failure.
pub open spec fn filter_type_from_byte(b: u8) -> FilterType {
    if b == 1 {
        FilterType::PriceFilter
    } else if b == 2 {
        FilterType::PercentPrice
    } else if b == 3 {
        FilterType::PercentPriceBySide
    } else if b == 4 {
        FilterType::LotSize
    } else if b == 5 {
        FilterType::MinNotional
    } else if b == 6 {
        FilterType::Notional
    } else if b == 7 {
        FilterType::IcebergParts
    } else if b == 8 {
        FilterType::MarketLotSize
    } else if b == 9 {
        FilterType::MaxNumOrders
    } else if b == 10 {
        FilterType::MaxNumAlgoOrders
    } else if b == 11 {
        FilterType::MaxNumIcebergOrders
    } else if b == 12 {
        FilterType::MaxPosition
    } else if b == 13 {
        FilterType::TrailingDelta
    } else {
        FilterType::NullVal
    }
}

impl FilterType {
    /// The byte this value is encoded as.
    pub fn value(self) -> (r: u8)
        ensures
            r == filter_type_to_byte(self),
    {
        match self {
            FilterType::PriceFilter => 1,
            FilterType::PercentPrice => 2,
            FilterType::PercentPriceBySide => 3,
            FilterType::LotSize => 4,
            FilterType::MinNotional => 5,
            FilterType::Notional => 6,
            FilterType::IcebergParts => 7,
            FilterType::MarketLotSize => 8,
            FilterType::MaxNumOrders => 9,
            FilterType::MaxNumAlgoOrders => 10,
            FilterType::MaxNumIcebergOrders => 11,
            FilterType::MaxPosition => 12,
            FilterType::TrailingDelta => 13,
            FilterType::NullVal => 255,
        }
    }
}

impl From<u8> for FilterType {
    fn from(v: u8) -> (r: FilterType) {
        if v == 1 {
            FilterType::PriceFilter
        } else if v == 2 {
            FilterType::PercentPrice
        } else if v == 3 {
            FilterType::PercentPriceBySide
        } else if v == 4 {
            FilterType::LotSize
        } else if v == 5 {
            FilterType::MinNotional
        } else if v == 6 {
            FilterType::Notional
        } else if v == 7 {
            FilterType::IcebergParts
        } else if v == 8 {
            FilterType::MarketLotSize
        } else if v == 9 {
            FilterType::MaxNumOrders
        } else if v == 10 {
            FilterType::MaxNumAlgoOrders
        } else if v == 11 {
            FilterType::MaxNumIcebergOrders
        } else if v == 12 {
            FilterType::MaxPosition
        } else if v == 13 {
            FilterType::TrailingDelta
        } else {
            FilterType::NullVal
        }
    }
}

impl vstd::std_specs::convert::FromSpecImpl<u8> for FilterType {
    open spec fn obeys_from_spec() -> bool {
        true
    }

    open spec fn from_spec(v: u8) -> FilterType {
        filter_type_from_byte(v)
    }
}

impl Default for FilterType {
    fn default() -> (r: FilterType)
        ensures
            r == FilterType::NullVal,
    {
        FilterType::NullVal
    }
}

#[derive(Clone, Copy, Debug, PartialEq, Eq, Structural)]
pub enum ListStatusType {
    Response,
    ExecStarted,
    AllDone,
    Unknown,
    NullVal,
}

/// The wire byte each `ListStatusType` value is encoded as.
pub open spec fn list_status_type_to_byte(v: ListStatusType) -> u8 {
    match v {
        ListStatusType::Response => 1,
        ListStatusType::ExecStarted => 2,
        ListStatusType::AllDone => 3,
        ListStatusType::Unknown => 254,
        ListStatusType::NullVal => 255,
    }
}

/// The `ListStatusType` value a wire byte decodes to; an unrecognized byte
/// maps to the reserved null value, never to a failure.
pub open spec fn list_status_type_from_byte(b: u8) -> ListStatusType {
    if b == 1 {
        ListStatusType::Response
    } else if b == 2 {
        ListStatusType::ExecStarted
    } else if b == 3 {
        ListStatusType::AllDone
    } else if b == 254 {
        ListStatusType::Unknown
    } else {
        ListStatusType::NullVal
    }
}

impl ListStatusType {
    /// The byte this value is encoded as.
    pub fn value(self) -> (r: u8)
        ensures
            r == list_status_type_to_byte(self),
    {
        match self {
            ListStatusType::Response => 1,
            ListStatusType::ExecStarted => 2,
            ListStatusType::AllDone => 3,
            ListStatusType::Unknown => 254,
            ListStatusType::NullVal => 255,
        }
    }
}

impl From<u8> for ListStatusType {
    fn from(v: u8) -> (r: ListStatusType) {
        if v == 1 {
            ListStatusType::Response
        } else if v == 2 {
            ListStatusType::ExecStarted
        } else if v == 3 {
            ListStatusType::AllDone
        } else if v == 254 {
            ListStatusType::Unknown
        } else {
            ListStatusType::NullVal
        }
    }
}

impl vstd::std_specs::convert::FromSpecImpl<u8> for ListStatusType {
    open spec fn obeys_from_spec() -> bool {
        true
    }

    open spec fn from_spec(v: u8) -> ListStatusType {
        list_status_type_from_byte(v)
    }
}

impl Default for ListStatusType {
    fn default() -> (r: ListStatusType)
        ensures
            r == ListStatusType::NullVal,
    {
        ListStatusType::NullVal
    }
}

#[derive(Clone, Copy, Debug, PartialEq, Eq, Structural)]
pub enum ListOrderStatus {
    Executing,
    AllDone,
    Reject,
    Unknown,
    NullVal,
}

/// The wire byte each `ListOrderStatus` value is encoded as.
pub open spec fn list_order_status_to_byte(v: ListOrderStatus) -> u8 {
    match v {
        ListOrderStatus::Executing => 1,
        ListOrderStatus::AllDone => 2,
        ListOrderStatus::Reject => 3,
        ListOrderStatus::Unknown => 254,
        ListOrderStatus::NullVal => 255,
    }
}

/// The `ListOrderStatus` value a wire byte decodes to; an unrecognized byte
/// maps to the reserved null value, never to a failure.
pub open spec fn list_order_status_from_byte(b: u8) -> ListOrderStatus {
    if b == 1 {
        ListOrderStatus::Executing
    } else if b == 2 {
        ListOrderStatus::AllDone
    } else if b == 3 {
        ListOrderStatus::Reject
    } else if b == 254 {
        ListOrderStatus::Unknown
    } else {
        ListOrderStatus::NullVal
    }
}

impl ListOrderStatus {
    /// The byte this value is encoded as.
    pub fn value(self) -> (r: u8)
        ensures
            r == list_order_status_to_byte(self),
    {
        match self {
            ListOrderStatus::Executing => 1,
            ListOrderStatus::AllDone => 2,
            ListOrderStatus::Reject => 3,
            ListOrderStatus::Unknown => 254,
            ListOrderStatus::NullVal => 255,
        }
    }
}

impl From<u8> for ListOrderStatus {
    fn from(v: u8) -> (r: ListOrderStatus) {
        if v == 1 {
            ListOrderStatus::Executing
        } else if v == 2 {
            ListOrderStatus::AllDone
        } else if v == 3 {
            ListOrderStatus::Reject
        } else if v == 254 {
            ListOrderStatus::Unknown
        } else {
            ListOrderStatus::NullVal
        }
    }
}

impl vstd::std_specs::convert::FromSpecImpl<u8> for ListOrderStatus {
    open spec fn obeys_from_spec() -> bool {
        true
    }

    open spec fn from_spec(v: u8) -> ListOrderStatus {
        list_order_status_from_byte(v)
    }
}

impl Default for ListOrderStatus {
    fn default() -> (r: ListOrderStatus)
        ensures
            r == ListOrderStatus::NullVal,
    {
        ListOrderStatus::NullVal
    }
}

#[derive(Clone, Copy, Debug, PartialEq, Eq, Structural)]
pub enum OrderType {
    Market,
    Limit,
    StopLoss,
    StopLossLimit,
    TakeProfit,
    TakeProfitLimit,
    LimitMaker,
    Unknown,
    NullVal,
}

/// The wire byte each `OrderType` value is encoded as.
pub open spec fn order_type_to_byte(v: OrderType) -> u8 {
    match v {
        OrderType::Market => 1,
        OrderType::Limit => 2,
        OrderType::StopLoss => 3,
        OrderType::StopLossLimit => 4,
        OrderType::TakeProfit => 5,
        OrderType::TakeProfitLimit => 6,
        OrderType::LimitMaker => 7,
        OrderType::Unknown => 254,
        OrderType::NullVal => 255,
    }
}

/// The `OrderType` value a wire byte decodes to; an unrecognized byte
/// maps to the reserved null value, never to a failure.
pub open spec fn order_type_from_byte(b: u8) -> OrderType {
    if b == 1 {
        OrderType::Market
    } else if b == 2 {
        OrderType::Limit
    } else if b == 3 {
        OrderType::StopLoss
    } else if b == 4 {
        OrderType::StopLossLimit
    } else if b == 5 {
        OrderType::TakeProfit
    } else if b == 6 {
        OrderType::TakeProfitLimit
    } else if b == 7 {
        OrderType::LimitMaker
    } else if b == 254 {
        OrderType::Unknown
    } else {
        OrderType::NullVal
    }
}

impl OrderType {
    /// The byte this value is encoded as.
    pub fn value(self) -> (r: u8)
        ensures
            r == order_type_to_byte(self),
    {
        match self {
            OrderType::Market => 1,
            OrderType::Limit => 2,
            OrderType::StopLoss => 3,
            OrderType::StopLossLimit => 4,
            OrderType::TakeProfit => 5,
            OrderType::TakeProfitLimit => 6,
            OrderType::LimitMaker => 7,
            OrderType::Unknown => 254,
            OrderType::NullVal => 255,
        }
    }
}

impl From<u8> for OrderType {
    fn from(v: u8) -> (r: OrderType) {
        if v == 1 {
            OrderType::Market
        } else if v == 2 {
            OrderType::Limit
        } else if v == 3 {
            OrderType::StopLoss
        } else if v == 4 {
            OrderType::StopLossLimit
        } else if v == 5 {
            OrderType::TakeProfit
        } else if v == 6 {
            OrderType::TakeProfitLimit
        } else if v == 7 {
            OrderType::LimitMaker
        } else if v == 254 {
            OrderType::Unknown
        } else {
            OrderType::NullVal
        }
    }
}

impl vstd::std_specs::convert::FromSpecImpl<u8> for OrderType {
    open spec fn obeys_from_spec() -> bool {
        true
    }

    open spec fn from_spec(v: u8) -> OrderType {
        order_type_from_byte(v)
    }
}

impl Default for OrderType {
    fn default() -> (r: OrderType)
        ensures
            r == OrderType::NullVal,
    {
        OrderType::NullVal
    }
}

#[derive(Clone, Copy, Debug, PartialEq, Eq, Structural)]
pub enum OrderSide {
    Buy,
    Sell,
    Unknown,
    NullVal,
}

/// The wire byte each `OrderSide` value is encoded as.
pub open spec fn order_side_to_byte(v: OrderSide) -> u8 {
    match v {
        OrderSide::Buy => 1,
        OrderSide::Sell => 2,
        OrderSide::Unknown => 254,
        OrderSide::NullVal => 255,
    }
}

/// The `OrderSide` value a wire byte decodes to; an unrecognized byte
/// maps to the reserved null value, never to a failure.
pub open spec fn order_side_from_byte(b: u8) -> OrderSide {
    if b == 1 {
        OrderSide::Buy
    } else if b == 2 {
        OrderSide::Sell
    } else if b == 254 {
        OrderSide::Unknown
    } else {
        OrderSide::NullVal
    }
}

impl OrderSide {
    /// The byte this value is encoded as.
    pub fn value(self) -> (r: u8)
        ensures
            r == order_side_to_byte(self),
    {
        match self {
            OrderSide::Buy => 1,
            OrderSide::Sell => 2,
            OrderSide::Unknown => 254,
            OrderSide::NullVal => 255,
        }
    }
}

impl From<u8> for OrderSide {
    fn from(v: u8) -> (r: OrderSide) {
        if v == 1 {
            OrderSide::Buy
        } else if v == 2 {
            OrderSide::Sell
        } else if v == 254 {
            OrderSide::Unknown
        } else {
            OrderSide::NullVal
        }
    }
}

impl vstd::std_specs::convert::FromSpecImpl<u8> for OrderSide {
    open spec fn obeys_from_spec() -> bool {
        true
    }

    open spec fn from_spec(v: u8) -> OrderSide {
        order_side_from_byte(v)
    }
}

impl Default for OrderSide {
    fn default() -> (r: OrderSide)
        ensures
            r == OrderSide::NullVal,
    {
        OrderSide::NullVal
    }
}

#[derive(Clone, Copy, Debug, PartialEq, Eq, Structural)]
pub enum TimeInForce {
    Gtc,
    Ioc,
    Fok,
    Unknown,
    NullVal,
}

/// The wire byte each `TimeInForce` value is encoded as.
pub open spec fn time_in_force_to_byte(v: TimeInForce) -> u8 {
    match v {
        TimeInForce::Gtc => 1,
        TimeInForce::Ioc => 2,
        TimeInForce::Fok => 3,
        TimeInForce::Unknown => 254,
        TimeInForce::NullVal => 255,
    }
}

/// The `TimeInForce` value a wire byte decodes to; an unrecognized byte
/// maps to the reserved null value, never to a failure.
pub open spec fn time_in_force_from_byte(b: u8) -> TimeInForce {
    if b == 1 {
        TimeInForce::Gtc
    } else if b == 2 {
        TimeInForce::Ioc
    } else if b == 3 {
        TimeInForce::Fok
    } else if b == 254 {
        TimeInForce::Unknown
    } else {
        TimeInForce::NullVal
    }
}

impl TimeInForce {
    /// The byte this value is encoded as.
    pub fn value(self) -> (r: u8)
        ensures
            r == time_in_force_to_byte(self),
    {
        match self {
            TimeInForce::Gtc => 1,
            TimeInForce::Ioc => 2,
            TimeInForce::Fok => 3,
            TimeInForce::Unknown => 254,
            TimeInForce::NullVal => 255,
        }
    }
}

impl From<u8> for TimeInForce {
    fn from(v: u8) -> (r: TimeInForce) {
        if v == 1 {
            TimeInForce::Gtc
        } else if v == 2 {
            TimeInForce::Ioc
        } else if v == 3 {
            TimeInForce::Fok
        } else if v == 254 {
            TimeInForce::Unknown
        } else {
            TimeInForce::NullVal
        }
    }
}

impl vstd::std_specs::convert::FromSpecImpl<u8> for TimeInForce {
    open spec fn obeys_from_spec() -> bool {
        true
    }

    open spec fn from_spec(v: u8) -> TimeInForce {
        time_in_force_from_byte(v)
    }
}

impl Default for TimeInForce {
    fn default() -> (r: TimeInForce)
        ensures
            r == TimeInForce::NullVal,
    {
        TimeInForce::NullVal
    }
}

#[derive(Clone, Copy, Debug, PartialEq, Eq, Structural)]
pub enum OrderStatus {
    New,
    PartiallyFilled,
    Filled,
    Canceled,
    PendingCancel,
    Rejected,
    Expired,
    ExpiredInMatch,
    Unknown,
    NullVal,
}

/// The wire byte each `OrderStatus` value is encoded as.
pub open spec fn order_status_to_byte(v: OrderStatus) -> u8 {
    match v {
        OrderStatus::New => 1,
        OrderStatus::PartiallyFilled => 2,
        OrderStatus::Filled => 3,
        OrderStatus::Canceled => 4,
        OrderStatus::PendingCancel => 5,
        OrderStatus::Rejected => 6,
        OrderStatus::Expired => 7,
        OrderStatus::ExpiredInMatch => 9,
        OrderStatus::Unknown => 254,
        OrderStatus::NullVal => 255,
    }
}

/// The `OrderStatus` value a wire byte decodes to; an unrecognized byte
/// maps to the reserved null value, never to a failure.
pub open spec fn order_status_from_byte(b: u8) -> OrderStatus {
    if b == 1 {
        OrderStatus::New
    } else if b == 2 {
        OrderStatus::PartiallyFilled
    } else if b == 3 {
        OrderStatus::Filled
    } else if b == 4 {
        OrderStatus::Canceled
    } else if b == 5 {
        OrderStatus::PendingCancel
    } else if b == 6 {
        OrderStatus::Rejected
    } else if b == 7 {
        OrderStatus::Expired
    } else if b == 9 {
        OrderStatus::ExpiredInMatch
    } else if b == 254 {
        OrderStatus::Unknown
    } else {
        OrderStatus::NullVal
    }
}

impl OrderStatus {
    /// The byte this value is encoded as.
    pub fn value(self) -> (r: u8)
        ensures
            r == order_status_to_byte(self),
    {
        match self {
            OrderStatus::New => 1,
            OrderStatus::PartiallyFilled => 2,
            OrderStatus::Filled => 3,
            OrderStatus::Canceled => 4,
            OrderStatus::PendingCancel => 5,
            OrderStatus::Rejected => 6,
            OrderStatus::Expired => 7,
            OrderStatus::ExpiredInMatch => 9,
            OrderStatus::Unknown => 254,
            OrderStatus::NullVal => 255,
        }
    }
}

impl From<u8> for OrderStatus {
    fn from(v: u8) -> (r: OrderStatus) {
        if v == 1 {
            OrderStatus::New
        } else if v == 2 {
            OrderStatus::PartiallyFilled
        } else if v == 3 {
            OrderStatus::Filled
        } else if v == 4 {
            OrderStatus::Canceled
        } else if v == 5 {
            OrderStatus::PendingCancel
        } else if v == 6 {
            OrderStatus::Rejected
        } else if v == 7 {
            OrderStatus::Expired
        } else if v == 9 {
            OrderStatus::ExpiredInMatch
        } else if v == 254 {
            OrderStatus::Unknown
        } else {
            OrderStatus::NullVal
        }
    }
}

impl vstd::std_specs::convert::FromSpecImpl<u8> for OrderStatus {
    open spec fn obeys_from_spec() -> bool {
        true
    }

    open spec fn from_spec(v: u8) -> OrderStatus {
        order_status_from_byte(v)
    }
}

impl Default for OrderStatus {
    fn default() -> (r: OrderStatus)
        ensures
            r == OrderStatus::NullVal,
    {
        OrderStatus::NullVal
    }
}

#[derive(Clone, Copy, Debug, PartialEq, Eq, Structural)]
pub enum MatchType {
    AutoMatch,
    Unknown,
    NullVal,
}

/// The wire byte each `MatchType` value is encoded as.
pub open spec fn match_type_to_byte(v: MatchType) -> u8 {
    match v {
        MatchType::AutoMatch => 1,
        MatchType::Unknown => 254,
        MatchType::NullVal => 255,
    }
}

/// The `MatchType` value a wire byte decodes to; an unrecognized byte
/// maps to the reserved null value, never to a failure.
pub open spec fn match_type_from_byte(b: u8) -> MatchType {
    if b == 1 {
        MatchType::AutoMatch
    } else if b == 254 {
        MatchType::Unknown
    } else {
        MatchType::NullVal
    }
}

impl MatchType {
    /// The byte this value is encoded as.
    pub fn value(self) -> (r: u8)
        ensures
            r == match_type_to_byte(self),
    {
        match self {
            MatchType::AutoMatch => 1,
            MatchType::Unknown => 254,
            MatchType::NullVal => 255,
        }
    }
}

impl From<u8> for MatchType {
    fn from(v: u8) -> (r: MatchType) {
        if v == 1 {
            MatchType::AutoMatch
        } else if v == 254 {
            MatchType::Unknown
        } else {
            MatchType::NullVal
        }
    }
}

impl vstd::std_specs::convert::FromSpecImpl<u8> for MatchType {
    open spec fn obeys_from_spec() -> bool {
        true
    }

    open spec fn from_spec(v: u8) -> MatchType {
        match_type_from_byte(v)
    }
}

impl Default for MatchType {
    fn default() -> (r: MatchType)
        ensures
            r == MatchType::NullVal,
    {
        MatchType::NullVal
    }
}

#[derive(Clone, Copy, Debug, PartialEq, Eq, Structural)]
pub enum SelfTradePreventionMode {
    NoPrevention,
    ExpireTaker,
    ExpireMaker,
    ExpireBoth,
    Unknown,
    NullVal,
}

/// The wire byte each `SelfTradePreventionMode` value is encoded as.
pub open spec fn self_trade_prevention_mode_to_byte(v: SelfTradePreventionMode) -> u8 {
    match v {
        SelfTradePreventionMode::NoPrevention => 1,
        SelfTradePreventionMode::ExpireTaker => 2,
        SelfTradePreventionMode::ExpireMaker => 3,
        SelfTradePreventionMode::ExpireBoth => 4,
        SelfTradePreventionMode::Unknown => 254,
        SelfTradePreventionMode::NullVal => 255,
    }
}

/// The `SelfTradePreventionMode` value a wire byte decodes to; an unrecognized byte
/// maps to the reserved null value, never to a failure.
pub open spec fn self_trade_prevention_mode_from_byte(b: u8) -> SelfTradePreventionMode {
    if b == 1 {
        SelfTradePreventionMode::NoPrevention
    } else if b == 2 {
        SelfTradePreventionMode::ExpireTaker
    } else if b == 3 {
        SelfTradePreventionMode::ExpireMaker
    } else if b == 4 {
        SelfTradePreventionMode::ExpireBoth
    } else if b == 254 {
        SelfTradePreventionMode::Unknown
    } else {
        SelfTradePreventionMode::NullVal
    }
}

impl SelfTradePreventionMode {
    /// The byte this value is encoded as.
    pub fn value(self) -> (r: u8)
        ensures
            r == self_trade_prevention_mode_to_byte(self),
    {
        match self {
            SelfTradePreventionMode::NoPrevention => 1,
            SelfTradePreventionMode::ExpireTaker => 2,
            SelfTradePreventionMode::ExpireMaker => 3,
            SelfTradePreventionMode::ExpireBoth => 4,
            SelfTradePreventionMode::Unknown => 254,
            SelfTradePreventionMode::NullVal => 255,
        }
    }
}

impl From<u8> for SelfTradePreventionMode {
    fn from(v: u8) -> (r: SelfTradePreventionMode) {
        if v == 1 {
            SelfTradePreventionMode::NoPrevention
        } else if v == 2 {
            SelfTradePreventionMode::ExpireTaker
        } else if v == 3 {
            SelfTradePreventionMode::ExpireMaker
        } else if v == 4 {
            SelfTradePreventionMode::ExpireBoth
        } else if v == 254 {
            SelfTradePreventionMode::Unknown
        } else {
            SelfTradePreventionMode::NullVal
        }
    }
}

impl vstd::std_specs::convert::FromSpecImpl<u8> for SelfTradePreventionMode {
    open spec fn obeys_from_spec() -> bool {
        true
    }

    open spec fn from_spec(v: u8) -> SelfTradePreventionMode {
        self_trade_prevention_mode_from_byte(v)
    }
}

impl Default for SelfTradePreventionMode {
    fn default() -> (r: SelfTradePreventionMode)
        ensures
            r == SelfTradePreventionMode::NullVal,
    {
        SelfTradePreventionMode::NullVal
    }
}

#[derive(Clone, Copy, Debug, PartialEq, Eq, Structural)]
pub enum OrderCapacity {
    Principal,
    Agency,
    Unknown,
    NullVal,
}

/// The wire byte each `OrderCapacity` value is encoded as.
pub open spec fn order_capacity_to_byte(v: OrderCapacity) -> u8 {
    match v {
        OrderCapacity::Principal => 1,
        OrderCapacity::Agency => 2,
        OrderCapacity::Unknown => 254,
        OrderCapacity::NullVal => 255,
    }
}

/// The `OrderCapacity` value a wire byte decodes to; an unrecognized byte
/// maps to the reserved null value, never to a failure.
pub open spec fn order_capacity_from_byte(b: u8) -> OrderCapacity {
    if b == 1 {
        OrderCapacity::Principal
    } else if b == 2 {
        OrderCapacity::Agency
    } else if b == 254 {
        OrderCapacity::Unknown
    } else {
        OrderCapacity::NullVal
    }
}

impl OrderCapacity {
    /// The byte this value is encoded as.
    pub fn value(self) -> (r: u8)
        ensures
            r == order_capacity_to_byte(self),
    {
        match self {
            OrderCapacity::Principal => 1,
            OrderCapacity::Agency => 2,
            OrderCapacity::Unknown => 254,
            OrderCapacity::NullVal => 255,
        }
    }
}

impl From<u8> for OrderCapacity {
    fn from(v: u8) -> (r: OrderCapacity) {
        if v == 1 {
            OrderCapacity::Principal
        } else if v == 2 {
            OrderCapacity::Agency
        } else if v == 254 {
            OrderCapacity::Unknown
        } else {
            OrderCapacity::NullVal
        }
    }
}

impl vstd::std_specs::convert::FromSpecImpl<u8> for OrderCapacity {
    open spec fn obeys_from_spec() -> bool {
        true
    }

    open spec fn from_spec(v: u8) -> OrderCapacity {
        order_capacity_from_byte(v)
    }
}

impl Default for OrderCapacity {
    fn default() -> (r: OrderCapacity)
        ensures
            r == OrderCapacity::NullVal,
    {
        OrderCapacity::NullVal
    }
}

#[derive(Clone, Copy, Debug, PartialEq, Eq, Structural)]
pub enum Floor {
    Exchange,
    Sor,
    Unknown,
    NullVal,
}

/// The wire byte each `Floor` value is encoded as.
pub open spec fn floor_to_byte(v: Floor) -> u8 {
    match v {
        Floor::Exchange => 1,
        Floor::Sor => 2,
        Floor::Unknown => 254,
        Floor::NullVal => 255,
    }
}

/// The `Floor` value a wire byte decodes to; an unrecognized byte
/// maps to the reserved null value, never to a failure.
pub open spec fn floor_from_byte(b: u8) -> Floor {
    if b == 1 {
        Floor::Exchange
    } else if b == 2 {
        Floor::Sor
    } else if b == 254 {
        Floor::Unknown
    } else {
        Floor::NullVal
    }
}

impl Floor {
    /// The byte this value is encoded as.
    pub fn value(self) -> (r: u8)
        ensures
            r == floor_to_byte(self),
    {
        match self {
            Floor::Exchange => 1,
            Floor::Sor => 2,
            Floor::Unknown => 254,
            Floor::NullVal => 255,
        }
    }
}

impl From<u8> for Floor {
    fn from(v: u8) -> (r: Floor) {
        if v == 1 {
            Floor::Exchange
        } else if v == 2 {
            Floor::Sor
        } else if v == 254 {
            Floor::Unknown
        } else {
            Floor::NullVal
        }
    }
}

impl vstd::std_specs::convert::FromSpecImpl<u8> for Floor {
    open spec fn obeys_from_spec() -> bool {
        true
    }

    open spec fn from_spec(v: u8) -> Floor {
        floor_from_byte(v)
    }
}

impl Default for Floor {
    fn default() -> (r: Floor)
        ensures
            r == Floor::NullVal,
    {
        Floor::NullVal
    }
}
} // verus!
