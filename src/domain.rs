//! Domain records of the trading API that carry no floating-point values.

use vstd::prelude::*;
use crate::text::same_text;

verus! {

#[derive(Clone, Copy, Debug, PartialEq, Eq, Structural)]
pub enum Currency {
    RUB,
    USD,
    EUR,
    GBP,
    HKD,
    CHF,
    JPY,
    CNY,
    TRY,
}

#[derive(Clone, Copy, Debug, PartialEq, Eq, Structural)]
pub enum Operation {
    Buy,
    Sell,
}

#[derive(Clone, Copy, Debug, PartialEq, Eq, Structural)]
pub enum OrderStatus {
    New,
    PartiallyFill,
    Fill,
    Cancelled,
    Replaced,
    PendingCancel,
    Rejected,
    PendingReplace,
    PendingNew,
}

#[derive(Clone, Copy, Debug, PartialEq, Eq, Structural)]
pub enum OrderType {
    Limit,
    Market,
}

#[derive(Clone, Copy, Debug, PartialEq, Eq, Structural)]
pub enum InstrumentType {
    Stock,
    Currency,
    Bond,
    Etf,
}

#[derive(Clone, Copy, Debug, PartialEq, Eq, Structural)]
pub enum TradeStatus {
    NormalTrading,
    NotAvailableForTrading,
}

#[derive(Clone, Copy, Debug, PartialEq, Eq, Structural)]
pub enum BrokerAccountType {
    Tinkoff,
    TinkoffIis,
}

#[derive(Clone, Copy, Debug, PartialEq, Eq, Structural)]
pub enum OperationStatus {
    Done,
    Decline,
    Progress,
}

#[derive(Clone, Copy, Debug, PartialEq, Eq, Structural)]
pub enum OperationTypeWithCommission {
    Buy,
    BuyCard,
    Sell,
    BrokerCommission,
    ExchangeCommission,
    ServiceCommission,
    MarginCommission,
    OtherCommission,
    PayIn,
    PayOut,
    Tax,
    TaxLucre,
    TaxDividend,
    TaxCoupon,
    TaxBack,
    Repayment,
    PartRepayment,
    Coupon,
    Dividend,
    SecurityIn,
    SecurityOut,
}

/// Candle width.
#[allow(non_camel_case_types)]
#[derive(Clone, Copy, Debug, PartialEq, Eq, Structural)]
pub enum Interval {
    _1min,
    _2min,
    _3min,
    _5min,
    _10min,
    _15min,
    _30min,
    Hour,
    Day,
    Week,
    Month,
}

/// Status of a response envelope; on the wire `Ok` and `Error`.
#[derive(Clone, Copy, Debug, PartialEq, Eq, Structural)]
pub enum Status {
    Success,
    Failure,
}

/// The payload of responses that carry nothing.
#[derive(Clone, Debug, PartialEq, Eq)]
pub struct EmptyPayload {}

#[derive(Clone, Debug, PartialEq, Eq)]
pub struct UserAccount {
    pub broker_account_type: BrokerAccountType,
    pub broker_account_id: String,
}

#[derive(Clone, Debug, PartialEq, Eq)]
pub struct AccountsPayload {
    pub accounts: Vec<UserAccount>,
}

#[derive(Clone, Debug, PartialEq, Eq)]
pub struct SandboxAccount {
    pub broker_account_type: BrokerAccountType,
    pub broker_account_id: String,
}

/// The payload of an `error` event of the stream.
#[derive(Clone, Debug, PartialEq, Eq)]
pub struct ErrorEventPayload {
    pub error: String,
    pub request_id: Option<String>,
}

/// The envelope shared by every REST response.
#[derive(Clone, Debug, PartialEq, Eq)]
pub struct Response<T> {
    pub tracking_id: String,
    pub status: Status,
    pub payload: T,
}

/// The wire token of an interval.
pub open spec fn interval_token(i: Interval) -> Seq<char> {
    match i {
        Interval::_1min => "1min"@,
        Interval::_2min => "2min"@,
        Interval::_3min => "3min"@,
        Interval::_5min => "5min"@,
        Interval::_10min => "10min"@,
        Interval::_15min => "15min"@,
        Interval::_30min => "30min"@,
        Interval::Hour => "Hour"@,
        Interval::Day => "Day"@,
        Interval::Week => "Week"@,
        Interval::Month => "Month"@,
    }
}

impl Interval {
    /// The wire token: `1min` .. `30min`, `Hour`, `Day`, `Week`, `Month`.
    pub fn as_str(&self) -> (r: &'static str)
        ensures
            r@ == interval_token(*self),
    {
        match self {
            Interval::_1min => "1min",
            Interval::_2min => "2min",
            Interval::_3min => "3min",
            Interval::_5min => "5min",
            Interval::_10min => "10min",
            Interval::_15min => "15min",
            Interval::_30min => "30min",
            Interval::Hour => "Hour",
            Interval::Day => "Day",
            Interval::Week => "Week",
            Interval::Month => "Month",
        }
    }

    /// The wire token as an owned string.
    pub fn to_string(&self) -> (r: String)
        ensures
            r@ == interval_token(*self),
    {
        String::from_str(self.as_str())
    }

    /// The interval whose wire token is `token`, if any.
    pub fn from_token(token: &str) -> (r: Option<Interval>)
        ensures
            match r {
                Some(i) => interval_token(i) == token@,
                None => forall|i: Interval| interval_token(i) != token@,
            },
    {
        let all: [Interval; 11] = [
            Interval::_1min,
            Interval::_2min,
            Interval::_3min,
            Interval::_5min,
            Interval::_10min,
            Interval::_15min,
            Interval::_30min,
            Interval::Hour,
            Interval::Day,
            Interval::Week,
            Interval::Month,
        ];
        let mut k: usize = 0;
        while k < 11
            invariant
                0 <= k <= 11,
                all@ == seq![Interval::_1min, Interval::_2min, Interval::_3min, Interval::_5min,
                    Interval::_10min, Interval::_15min, Interval::_30min, Interval::Hour,
                    Interval::Day, Interval::Week, Interval::Month],
                forall|j: int| 0 <= j < k ==> interval_token(all@[j]) != token@,
            decreases 11 - k,
        {
            if same_text(all[k].as_str(), token) {
                return Some(all[k]);
            }
            k = k + 1;
        }
        proof {
            assert forall|i: Interval| interval_token(i) != token@ by {
                let j: int = match i {
                    Interval::_1min => 0,
                    Interval::_2min => 1,
                    Interval::_3min => 2,
                    Interval::_5min => 3,
                    Interval::_10min => 4,
                    Interval::_15min => 5,
                    Interval::_30min => 6,
                    Interval::Hour => 7,
                    Interval::Day => 8,
                    Interval::Week => 9,
                    Interval::Month => 10,
                };
                assert(all@[j] == i);
            }
        }
        None
    }
}

/// The wire token of an operation.
pub open spec fn operation_token(o: Operation) -> Seq<char> {
    match o {
        Operation::Buy => "Buy"@,
        Operation::Sell => "Sell"@,
    }
}

impl Operation {
    /// The wire token: `Buy` or `Sell`.
    pub fn as_str(&self) -> (r: &'static str)
        ensures
            r@ == operation_token(*self),
    {
        match self {
            Operation::Buy => "Buy",
            Operation::Sell => "Sell",
        }
    }
}

/// The wire token of a broker account type.
pub open spec fn account_type_token(t: BrokerAccountType) -> Seq<char> {
    match t {
        BrokerAccountType::Tinkoff => "Tinkoff"@,
        BrokerAccountType::TinkoffIis => "TinkoffIis"@,
    }
}

impl BrokerAccountType {
    /// The wire token: `Tinkoff` or `TinkoffIis`.
    pub fn as_str(&self) -> (r: &'static str)
        ensures
            r@ == account_type_token(*self),
    {
        match self {
            BrokerAccountType::Tinkoff => "Tinkoff",
            BrokerAccountType::TinkoffIis => "TinkoffIis",
        }
    }
}

/// Distinct intervals have distinct wire tokens.
pub proof fn lemma_interval_token_injective(a: Interval, b: Interval)
    requires
        interval_token(a) == interval_token(b),
    ensures
        a == b,
{
    reveal_strlit("1min");
    reveal_strlit("2min");
    reveal_strlit("3min");
    reveal_strlit("5min");
    reveal_strlit("10min");
    reveal_strlit("15min");
    reveal_strlit("30min");
    reveal_strlit("Hour");
    reveal_strlit("Day");
    reveal_strlit("Week");
    reveal_strlit("Month");
    let ta = interval_token(a);
    let tb = interval_token(b);
    assert(ta.len() == tb.len() && ta[0] == tb[0] && ta[1] == tb[1]);
    match a {
        Interval::_1min => {},
        Interval::_2min => {},
        Interval::_3min => {},
        Interval::_5min => {},
        Interval::_10min => {},
        Interval::_15min => {},
        Interval::_30min => {},
        Interval::Hour => {},
        Interval::Day => {},
        Interval::Week => {},
        Interval::Month => {},
    }
}

} // verus!
