//! Enumerations of the API's parameters and values. Each enumeration that
//! the client writes into a request knows the name the API expects for it.

use vstd::prelude::*;

verus! {

/// The name written between double quotes, as a JSON string.
pub open spec fn quoted(name: Seq<char>) -> Seq<char> {
    seq!['"'] + name + seq!['"']
}

/// Writes a name as a JSON string (the names hold no character that JSON escapes).
pub fn quote_name(name: &str) -> (s: String)
    ensures
        s@ == quoted(name@),
{
    let mut s = String::new();
    s.push('"');
    s.append(name);
    s.push('"');
    s
}


/// Time formats supported by the API
#[derive(Debug, Clone, Copy, PartialEq, Eq, Structural)]
pub enum TimeFormat {
    /// ISO 8601 format (YYYY-MM-DDTHH:MM:SS.sssZ)
    Iso8601,
    /// Unix timestamp (seconds since epoch)
    Epoch,
    /// Unix timestamp in milliseconds
    EpochMs,
    /// Date format (YYYY-MM-DD)
    YearMonthDay,
}


/// Order status enumeration
#[derive(Debug, Clone, PartialEq, Eq, Structural)]
pub enum OrderStatus {
    AwaitingParentOrder,
    AwaitingCondition,
    AwaitingManualReview,
    Accepted,
    AwaitingUrOut,
    PendingActivation,
    Queued,
    Working,
    Rejected,
    PendingCancel,
    Canceled,
    PendingReplace,
    Replaced,
    Filled,
    Expired,
}

impl OrderStatus {
    /// The name the API uses for this value.
    pub open spec fn api_name_spec(self) -> Seq<char> {
        match self {
            OrderStatus::AwaitingParentOrder => "AWAITING_PARENT_ORDER"@,
            OrderStatus::AwaitingCondition => "AWAITING_CONDITION"@,
            OrderStatus::AwaitingManualReview => "AWAITING_MANUAL_REVIEW"@,
            OrderStatus::Accepted => "ACCEPTED"@,
            OrderStatus::AwaitingUrOut => "AWAITING_UR_OUT"@,
            OrderStatus::PendingActivation => "PENDING_ACTIVATION"@,
            OrderStatus::Queued => "QUEUED"@,
            OrderStatus::Working => "WORKING"@,
            OrderStatus::Rejected => "REJECTED"@,
            OrderStatus::PendingCancel => "PENDING_CANCEL"@,
            OrderStatus::Canceled => "CANCELED"@,
            OrderStatus::PendingReplace => "PENDING_REPLACE"@,
            OrderStatus::Replaced => "REPLACED"@,
            OrderStatus::Filled => "FILLED"@,
            OrderStatus::Expired => "EXPIRED"@,
        }
    }

    /// The name the API uses for this value.
    pub fn api_name(&self) -> (s: &'static str)
        ensures
            s@ == self.api_name_spec(),
    {
        match self {
            OrderStatus::AwaitingParentOrder => "AWAITING_PARENT_ORDER",
            OrderStatus::AwaitingCondition => "AWAITING_CONDITION",
            OrderStatus::AwaitingManualReview => "AWAITING_MANUAL_REVIEW",
            OrderStatus::Accepted => "ACCEPTED",
            OrderStatus::AwaitingUrOut => "AWAITING_UR_OUT",
            OrderStatus::PendingActivation => "PENDING_ACTIVATION",
            OrderStatus::Queued => "QUEUED",
            OrderStatus::Working => "WORKING",
            OrderStatus::Rejected => "REJECTED",
            OrderStatus::PendingCancel => "PENDING_CANCEL",
            OrderStatus::Canceled => "CANCELED",
            OrderStatus::PendingReplace => "PENDING_REPLACE",
            OrderStatus::Replaced => "REPLACED",
            OrderStatus::Filled => "FILLED",
            OrderStatus::Expired => "EXPIRED",
        }
    }

    /// The value written as a JSON string, as the API takes it in a query.
    pub fn to_json_string(&self) -> (s: String)
        ensures
            s@ == quoted(self.api_name_spec()),
    {
        quote_name(self.api_name())
    }
}


/// Order type enumeration
#[derive(Debug, Clone, PartialEq, Eq, Structural)]
pub enum OrderType {
    Market,
    Limit,
    Stop,
    StopLimit,
    TrailingStop,
    MarketOnClose,
    Exercise,
    TrailingStopLimit,
    NetDebit,
    NetCredit,
    NetZero,
}


/// Duration for orders
#[derive(Debug, Clone, PartialEq, Eq, Structural)]
pub enum Duration {
    Day,
    GoodTillCancel,
    FillOrKill,
    ImmediateOrCancel,
    EndOfWeek,
    EndOfMonth,
    NextEndOfMonth,
    Unknown,
}


/// Instruction for orders (buy/sell)
#[derive(Debug, Clone, PartialEq, Eq, Structural)]
pub enum Instruction {
    Buy,
    Sell,
    BuyToCover,
    SellShort,
    BuyToOpen,
    BuyToClose,
    SellToOpen,
    SellToClose,
    Exchange,
}


/// Asset type enumeration
#[derive(Debug, Clone, PartialEq, Eq, Structural)]
pub enum AssetType {
    Equity,
    Option,
    Index,
    MutualFund,
    CashEquivalent,
    FixedIncome,
    Currency,
    Future,
    FutureOption,
    Forex,
}


/// Market session enumeration
#[derive(Debug, Clone, PartialEq, Eq, Structural)]
pub enum Session {
    Normal,
    Am,
    Pm,
    Seamless,
}


/// Option contract type
#[derive(Debug, Clone, PartialEq, Eq, Structural)]
pub enum OptionType {
    Call,
    Put,
    All,
}

impl OptionType {
    /// The name the API uses for this value.
    pub open spec fn api_name_spec(self) -> Seq<char> {
        match self {
            OptionType::Call => "CALL"@,
            OptionType::Put => "PUT"@,
            OptionType::All => "ALL"@,
        }
    }

    /// The name the API uses for this value.
    pub fn api_name(&self) -> (s: &'static str)
        ensures
            s@ == self.api_name_spec(),
    {
        match self {
            OptionType::Call => "CALL",
            OptionType::Put => "PUT",
            OptionType::All => "ALL",
        }
    }

    /// The value written as a JSON string, as the API takes it in a query.
    pub fn to_json_string(&self) -> (s: String)
        ensures
            s@ == quoted(self.api_name_spec()),
    {
        quote_name(self.api_name())
    }
}


/// Option contract strategy
#[derive(Debug, Clone, PartialEq, Eq, Structural)]
pub enum OptionStrategy {
    Single,
    Analytical,
    Covered,
    Vertical,
    Calendar,
    Strangle,
    Straddle,
    Butterfly,
    Condor,
    Diagonal,
    Collar,
    Roll,
}

impl OptionStrategy {
    /// The name the API uses for this value.
    pub open spec fn api_name_spec(self) -> Seq<char> {
        match self {
            OptionStrategy::Single => "SINGLE"@,
            OptionStrategy::Analytical => "ANALYTICAL"@,
            OptionStrategy::Covered => "COVERED"@,
            OptionStrategy::Vertical => "VERTICAL"@,
            OptionStrategy::Calendar => "CALENDAR"@,
            OptionStrategy::Strangle => "STRANGLE"@,
            OptionStrategy::Straddle => "STRADDLE"@,
            OptionStrategy::Butterfly => "BUTTERFLY"@,
            OptionStrategy::Condor => "CONDOR"@,
            OptionStrategy::Diagonal => "DIAGONAL"@,
            OptionStrategy::Collar => "COLLAR"@,
            OptionStrategy::Roll => "ROLL"@,
        }
    }

    /// The name the API uses for this value.
    pub fn api_name(&self) -> (s: &'static str)
        ensures
            s@ == self.api_name_spec(),
    {
        match self {
            OptionStrategy::Single => "SINGLE",
            OptionStrategy::Analytical => "ANALYTICAL",
            OptionStrategy::Covered => "COVERED",
            OptionStrategy::Vertical => "VERTICAL",
            OptionStrategy::Calendar => "CALENDAR",
            OptionStrategy::Strangle => "STRANGLE",
            OptionStrategy::Straddle => "STRADDLE",
            OptionStrategy::Butterfly => "BUTTERFLY",
            OptionStrategy::Condor => "CONDOR",
            OptionStrategy::Diagonal => "DIAGONAL",
            OptionStrategy::Collar => "COLLAR",
            OptionStrategy::Roll => "ROLL",
        }
    }

    /// The value written as a JSON string, as the API takes it in a query.
    pub fn to_json_string(&self) -> (s: String)
        ensures
            s@ == quoted(self.api_name_spec()),
    {
        quote_name(self.api_name())
    }
}


/// Option range
#[derive(Debug, Clone, PartialEq, Eq, Structural)]
pub enum OptionRange {
    InTheMoney,
    NearTheMoney,
    OutOfTheMoney,
    StrikesAboveMarket,
    StrikesBelowMarket,
    StrikesNearMarket,
    All,
}

impl OptionRange {
    /// The name the API uses for this value.
    pub open spec fn api_name_spec(self) -> Seq<char> {
        match self {
            OptionRange::InTheMoney => "ITM"@,
            OptionRange::NearTheMoney => "NTM"@,
            OptionRange::OutOfTheMoney => "OTM"@,
            OptionRange::StrikesAboveMarket => "SAK"@,
            OptionRange::StrikesBelowMarket => "SBK"@,
            OptionRange::StrikesNearMarket => "SNK"@,
            OptionRange::All => "ALL"@,
        }
    }

    /// The name the API uses for this value.
    pub fn api_name(&self) -> (s: &'static str)
        ensures
            s@ == self.api_name_spec(),
    {
        match self {
            OptionRange::InTheMoney => "ITM",
            OptionRange::NearTheMoney => "NTM",
            OptionRange::OutOfTheMoney => "OTM",
            OptionRange::StrikesAboveMarket => "SAK",
            OptionRange::StrikesBelowMarket => "SBK",
            OptionRange::StrikesNearMarket => "SNK",
            OptionRange::All => "ALL",
        }
    }

    /// The value written as a JSON string, as the API takes it in a query.
    pub fn to_json_string(&self) -> (s: String)
        ensures
            s@ == quoted(self.api_name_spec()),
    {
        quote_name(self.api_name())
    }
}


/// Frequency type for price history
#[derive(Debug, Clone, PartialEq, Eq, Structural)]
pub enum FrequencyType {
    Minute,
    Daily,
    Weekly,
    Monthly,
}

impl FrequencyType {
    /// The name the API uses for this value.
    pub open spec fn api_name_spec(self) -> Seq<char> {
        match self {
            FrequencyType::Minute => "minute"@,
            FrequencyType::Daily => "daily"@,
            FrequencyType::Weekly => "weekly"@,
            FrequencyType::Monthly => "monthly"@,
        }
    }

    /// The name the API uses for this value.
    pub fn api_name(&self) -> (s: &'static str)
        ensures
            s@ == self.api_name_spec(),
    {
        match self {
            FrequencyType::Minute => "minute",
            FrequencyType::Daily => "daily",
            FrequencyType::Weekly => "weekly",
            FrequencyType::Monthly => "monthly",
        }
    }

    /// The value written as a JSON string, as the API takes it in a query.
    pub fn to_json_string(&self) -> (s: String)
        ensures
            s@ == quoted(self.api_name_spec()),
    {
        quote_name(self.api_name())
    }
}


/// Period type for price history
#[derive(Debug, Clone, PartialEq, Eq, Structural)]
pub enum PeriodType {
    Day,
    Month,
    Year,
    YearToDate,
}

impl PeriodType {
    /// The name the API uses for this value.
    pub open spec fn api_name_spec(self) -> Seq<char> {
        match self {
            PeriodType::Day => "day"@,
            PeriodType::Month => "month"@,
            PeriodType::Year => "year"@,
            PeriodType::YearToDate => "ytd"@,
        }
    }

    /// The name the API uses for this value.
    pub fn api_name(&self) -> (s: &'static str)
        ensures
            s@ == self.api_name_spec(),
    {
        match self {
            PeriodType::Day => "day",
            PeriodType::Month => "month",
            PeriodType::Year => "year",
            PeriodType::YearToDate => "ytd",
        }
    }

    /// The value written as a JSON string, as the API takes it in a query.
    pub fn to_json_string(&self) -> (s: String)
        ensures
            s@ == quoted(self.api_name_spec()),
    {
        quote_name(self.api_name())
    }
}


/// Movers sort criteria
#[derive(Debug, Clone, PartialEq, Eq, Structural)]
pub enum MoversSort {
    Volume,
    Trades,
    PercentChangeUp,
    PercentChangeDown,
}

impl MoversSort {
    /// The name the API uses for this value.
    pub open spec fn api_name_spec(self) -> Seq<char> {
        match self {
            MoversSort::Volume => "VOLUME"@,
            MoversSort::Trades => "TRADES"@,
            MoversSort::PercentChangeUp => "PERCENT_CHANGE_UP"@,
            MoversSort::PercentChangeDown => "PERCENT_CHANGE_DOWN"@,
        }
    }

    /// The name the API uses for this value.
    pub fn api_name(&self) -> (s: &'static str)
        ensures
            s@ == self.api_name_spec(),
    {
        match self {
            MoversSort::Volume => "VOLUME",
            MoversSort::Trades => "TRADES",
            MoversSort::PercentChangeUp => "PERCENT_CHANGE_UP",
            MoversSort::PercentChangeDown => "PERCENT_CHANGE_DOWN",
        }
    }

    /// The value written as a JSON string, as the API takes it in a query.
    pub fn to_json_string(&self) -> (s: String)
        ensures
            s@ == quoted(self.api_name_spec()),
    {
        quote_name(self.api_name())
    }
}


/// Stream command types
#[derive(Debug, Clone, PartialEq, Eq, Structural)]
pub enum StreamCommand {
    Subscribe,
    Add,
    Unsubscribe,
    View,
    Login,
    Logout,
}

impl StreamCommand {
    /// The name the API uses for this value.
    pub open spec fn api_name_spec(self) -> Seq<char> {
        match self {
            StreamCommand::Subscribe => "SUBS"@,
            StreamCommand::Add => "ADD"@,
            StreamCommand::Unsubscribe => "UNSUBS"@,
            StreamCommand::View => "VIEW"@,
            StreamCommand::Login => "LOGIN"@,
            StreamCommand::Logout => "LOGOUT"@,
        }
    }

    /// The name the API uses for this value.
    pub fn api_name(&self) -> (s: &'static str)
        ensures
            s@ == self.api_name_spec(),
    {
        match self {
            StreamCommand::Subscribe => "SUBS",
            StreamCommand::Add => "ADD",
            StreamCommand::Unsubscribe => "UNSUBS",
            StreamCommand::View => "VIEW",
            StreamCommand::Login => "LOGIN",
            StreamCommand::Logout => "LOGOUT",
        }
    }

    /// The value written as a JSON string, as the API takes it in a query.
    pub fn to_json_string(&self) -> (s: String)
        ensures
            s@ == quoted(self.api_name_spec()),
    {
        quote_name(self.api_name())
    }
}


/// Stream service types
#[derive(Debug, Clone, PartialEq, Eq, Structural)]
pub enum StreamService {
    Admin,
    LevelOneEquities,
    LevelOneOptions,
    LevelOneFutures,
    LevelOneFuturesOptions,
    LevelOneForex,
    NyseBook,
    NasdaqBook,
    OptionsBook,
    ChartEquity,
    ChartFutures,
    ScreenerEquity,
    ScreenerOptions,
    AccountActivity,
}

impl StreamService {
    /// The name the API uses for this value.
    pub open spec fn api_name_spec(self) -> Seq<char> {
        match self {
            StreamService::Admin => "ADMIN"@,
            StreamService::LevelOneEquities => "LEVELONE_EQUITIES"@,
            StreamService::LevelOneOptions => "LEVELONE_OPTIONS"@,
            StreamService::LevelOneFutures => "LEVELONE_FUTURES"@,
            StreamService::LevelOneFuturesOptions => "LEVELONE_FUTURES_OPTIONS"@,
            StreamService::LevelOneForex => "LEVELONE_FOREX"@,
            StreamService::NyseBook => "NYSE_BOOK"@,
            StreamService::NasdaqBook => "NASDAQ_BOOK"@,
            StreamService::OptionsBook => "OPTIONS_BOOK"@,
            StreamService::ChartEquity => "CHART_EQUITY"@,
            StreamService::ChartFutures => "CHART_FUTURES"@,
            StreamService::ScreenerEquity => "SCREENER_EQUITY"@,
            StreamService::ScreenerOptions => "SCREENER_OPTIONS"@,
            StreamService::AccountActivity => "ACCOUNT_ACTIVITY"@,
        }
    }

    /// The name the API uses for this value.
    pub fn api_name(&self) -> (s: &'static str)
        ensures
            s@ == self.api_name_spec(),
    {
        match self {
            StreamService::Admin => "ADMIN",
            StreamService::LevelOneEquities => "LEVELONE_EQUITIES",
            StreamService::LevelOneOptions => "LEVELONE_OPTIONS",
            StreamService::LevelOneFutures => "LEVELONE_FUTURES",
            StreamService::LevelOneFuturesOptions => "LEVELONE_FUTURES_OPTIONS",
            StreamService::LevelOneForex => "LEVELONE_FOREX",
            StreamService::NyseBook => "NYSE_BOOK",
            StreamService::NasdaqBook => "NASDAQ_BOOK",
            StreamService::OptionsBook => "OPTIONS_BOOK",
            StreamService::ChartEquity => "CHART_EQUITY",
            StreamService::ChartFutures => "CHART_FUTURES",
            StreamService::ScreenerEquity => "SCREENER_EQUITY",
            StreamService::ScreenerOptions => "SCREENER_OPTIONS",
            StreamService::AccountActivity => "ACCOUNT_ACTIVITY",
        }
    }

    /// The value written as a JSON string, as the API takes it in a query.
    pub fn to_json_string(&self) -> (s: String)
        ensures
            s@ == quoted(self.api_name_spec()),
    {
        quote_name(self.api_name())
    }
}

/// Every order status is written with the API's own name for it.
pub proof fn law_order_status_names()
    ensures
        OrderStatus::AwaitingParentOrder.api_name_spec() == "AWAITING_PARENT_ORDER"@,
        OrderStatus::AwaitingCondition.api_name_spec() == "AWAITING_CONDITION"@,
        OrderStatus::AwaitingManualReview.api_name_spec() == "AWAITING_MANUAL_REVIEW"@,
        OrderStatus::Accepted.api_name_spec() == "ACCEPTED"@,
        OrderStatus::AwaitingUrOut.api_name_spec() == "AWAITING_UR_OUT"@,
        OrderStatus::PendingActivation.api_name_spec() == "PENDING_ACTIVATION"@,
        OrderStatus::Queued.api_name_spec() == "QUEUED"@,
        OrderStatus::Working.api_name_spec() == "WORKING"@,
        OrderStatus::Rejected.api_name_spec() == "REJECTED"@,
        OrderStatus::PendingCancel.api_name_spec() == "PENDING_CANCEL"@,
        OrderStatus::Canceled.api_name_spec() == "CANCELED"@,
        OrderStatus::PendingReplace.api_name_spec() == "PENDING_REPLACE"@,
        OrderStatus::Replaced.api_name_spec() == "REPLACED"@,
        OrderStatus::Filled.api_name_spec() == "FILLED"@,
        OrderStatus::Expired.api_name_spec() == "EXPIRED"@,
{
}

/// Every option type is written with the API's own name for it.
pub proof fn law_option_type_names()
    ensures
        OptionType::Call.api_name_spec() == "CALL"@,
        OptionType::Put.api_name_spec() == "PUT"@,
        OptionType::All.api_name_spec() == "ALL"@,
{
}

/// Every option strategy is written with the API's own name for it.
pub proof fn law_option_strategy_names()
    ensures
        OptionStrategy::Single.api_name_spec() == "SINGLE"@,
        OptionStrategy::Analytical.api_name_spec() == "ANALYTICAL"@,
        OptionStrategy::Covered.api_name_spec() == "COVERED"@,
        OptionStrategy::Vertical.api_name_spec() == "VERTICAL"@,
        OptionStrategy::Calendar.api_name_spec() == "CALENDAR"@,
        OptionStrategy::Strangle.api_name_spec() == "STRANGLE"@,
        OptionStrategy::Straddle.api_name_spec() == "STRADDLE"@,
        OptionStrategy::Butterfly.api_name_spec() == "BUTTERFLY"@,
        OptionStrategy::Condor.api_name_spec() == "CONDOR"@,
        OptionStrategy::Diagonal.api_name_spec() == "DIAGONAL"@,
        OptionStrategy::Collar.api_name_spec() == "COLLAR"@,
        OptionStrategy::Roll.api_name_spec() == "ROLL"@,
{
}

/// Every option range is written with the API's own name for it.
pub proof fn law_option_range_names()
    ensures
        OptionRange::InTheMoney.api_name_spec() == "ITM"@,
        OptionRange::NearTheMoney.api_name_spec() == "NTM"@,
        OptionRange::OutOfTheMoney.api_name_spec() == "OTM"@,
        OptionRange::StrikesAboveMarket.api_name_spec() == "SAK"@,
        OptionRange::StrikesBelowMarket.api_name_spec() == "SBK"@,
        OptionRange::StrikesNearMarket.api_name_spec() == "SNK"@,
        OptionRange::All.api_name_spec() == "ALL"@,
{
}

/// Every frequency type is written with the API's own name for it.
pub proof fn law_frequency_type_names()
    ensures
        FrequencyType::Minute.api_name_spec() == "minute"@,
        FrequencyType::Daily.api_name_spec() == "daily"@,
        FrequencyType::Weekly.api_name_spec() == "weekly"@,
        FrequencyType::Monthly.api_name_spec() == "monthly"@,
{
}

/// Every period type is written with the API's own name for it.
pub proof fn law_period_type_names()
    ensures
        PeriodType::Day.api_name_spec() == "day"@,
        PeriodType::Month.api_name_spec() == "month"@,
        PeriodType::Year.api_name_spec() == "year"@,
        PeriodType::YearToDate.api_name_spec() == "ytd"@,
{
}

/// Every movers sort is written with the API's own name for it.
pub proof fn law_movers_sort_names()
    ensures
        MoversSort::Volume.api_name_spec() == "VOLUME"@,
        MoversSort::Trades.api_name_spec() == "TRADES"@,
        MoversSort::PercentChangeUp.api_name_spec() == "PERCENT_CHANGE_UP"@,
        MoversSort::PercentChangeDown.api_name_spec() == "PERCENT_CHANGE_DOWN"@,
{
}

/// Every stream command is written with the API's own name for it.
pub proof fn law_stream_command_names()
    ensures
        StreamCommand::Subscribe.api_name_spec() == "SUBS"@,
        StreamCommand::Add.api_name_spec() == "ADD"@,
        StreamCommand::Unsubscribe.api_name_spec() == "UNSUBS"@,
        StreamCommand::View.api_name_spec() == "VIEW"@,
        StreamCommand::Login.api_name_spec() == "LOGIN"@,
        StreamCommand::Logout.api_name_spec() == "LOGOUT"@,
{
}

/// Every stream service is written with the API's own name for it.
pub proof fn law_stream_service_names()
    ensures
        StreamService::Admin.api_name_spec() == "ADMIN"@,
        StreamService::LevelOneEquities.api_name_spec() == "LEVELONE_EQUITIES"@,
        StreamService::LevelOneOptions.api_name_spec() == "LEVELONE_OPTIONS"@,
        StreamService::LevelOneFutures.api_name_spec() == "LEVELONE_FUTURES"@,
        StreamService::LevelOneFuturesOptions.api_name_spec() == "LEVELONE_FUTURES_OPTIONS"@,
        StreamService::LevelOneForex.api_name_spec() == "LEVELONE_FOREX"@,
        StreamService::NyseBook.api_name_spec() == "NYSE_BOOK"@,
        StreamService::NasdaqBook.api_name_spec() == "NASDAQ_BOOK"@,
        StreamService::OptionsBook.api_name_spec() == "OPTIONS_BOOK"@,
        StreamService::ChartEquity.api_name_spec() == "CHART_EQUITY"@,
        StreamService::ChartFutures.api_name_spec() == "CHART_FUTURES"@,
        StreamService::ScreenerEquity.api_name_spec() == "SCREENER_EQUITY"@,
        StreamService::ScreenerOptions.api_name_spec() == "SCREENER_OPTIONS"@,
        StreamService::AccountActivity.api_name_spec() == "ACCOUNT_ACTIVITY"@,
{
}

} // verus!
