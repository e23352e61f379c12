use chrono::{NaiveDate, NaiveTime};
use libc::c_long;
use vstd::prelude::*;

verus! {

/// Callback mode received from Trans2QUIK for order/trade streams.
#[derive(Debug, Clone, Copy, PartialEq, Eq, Structural)]
pub enum Mode {
    /// New event after subscription start.
    NewOrder,
    /// Event from the initial snapshot batch.
    InitialOrder,
    /// Marker that initial snapshot batch is complete.
    LastOrderReceived,
    /// Value outside known Trans2QUIK mode range.
    Unknown,
}

/// The mode that a raw callback code stands for.
pub open spec fn mode_of(code: int) -> Mode {
    if code == 0 {
        Mode::NewOrder
    } else if code == 1 {
        Mode::InitialOrder
    } else if code == 2 {
        Mode::LastOrderReceived
    } else {
        Mode::Unknown
    }
}

impl From<c_long> for Mode {
    fn from(code: c_long) -> (mode: Self) {
        match code {
            0 => Self::NewOrder,
            1 => Self::InitialOrder,
            2 => Self::LastOrderReceived,
            _ => Self::Unknown,
        }
    }
}

impl vstd::std_specs::convert::FromSpecImpl<c_long> for Mode {
    open spec fn obeys_from_spec() -> bool {
        true
    }

    open spec fn from_spec(code: c_long) -> Mode {
        mode_of(code as int)
    }
}

/// Transaction identifier attached to an order/trade callback.
#[derive(Debug, Clone, Copy, PartialEq, Eq, Structural)]
pub enum TransId {
    /// Known non-zero transaction id.
    Id(c_long),
    /// Missing/unknown transaction id reported by Trans2QUIK.
    Unknown(c_long),
}

/// The transaction identifier that a raw id stands for: zero means "no id".
pub open spec fn trans_id_of(id: c_long) -> TransId {
    if id == 0 {
        TransId::Unknown(id)
    } else {
        TransId::Id(id)
    }
}

impl From<c_long> for TransId {
    fn from(id: c_long) -> (trans_id: Self) {
        match id {
            0 => Self::Unknown(id),
            _ => Self::Id(id),
        }
    }
}

impl vstd::std_specs::convert::FromSpecImpl<c_long> for TransId {
    open spec fn obeys_from_spec() -> bool {
        true
    }

    open spec fn from_spec(id: c_long) -> TransId {
        trans_id_of(id)
    }
}

/// Side of an order/trade.
#[derive(Debug, Clone, Copy, PartialEq, Eq, Structural)]
pub enum IsSell {
    /// Buy side.
    Buy,
    /// Sell side.
    Sell,
    /// Value outside known Trans2QUIK side range.
    Unknown,
}

/// The side that a raw callback code stands for.
pub open spec fn side_of(code: int) -> IsSell {
    if code == 0 {
        IsSell::Buy
    } else if code == 1 {
        IsSell::Sell
    } else {
        IsSell::Unknown
    }
}

impl From<c_long> for IsSell {
    fn from(code: c_long) -> (side: Self) {
        match code {
            0 => Self::Buy,
            1 => Self::Sell,
            _ => Self::Unknown,
        }
    }
}

impl vstd::std_specs::convert::FromSpecImpl<c_long> for IsSell {
    open spec fn obeys_from_spec() -> bool {
        true
    }

    open spec fn from_spec(code: c_long) -> IsSell {
        side_of(code as int)
    }
}

/// Order execution status.
#[derive(Debug, Clone, Copy, PartialEq, Eq, Structural)]
pub enum Status {
    /// Active order.
    Active,
    /// Canceled order.
    Canceled,
    /// Fully executed order.
    Executed,
    /// Value outside known Trans2QUIK status range.
    Unknown,
}

/// The status that a raw callback code stands for.
pub open spec fn status_of(code: int) -> Status {
    if code == 1 {
        Status::Active
    } else if code == 2 {
        Status::Canceled
    } else if code == 3 {
        Status::Executed
    } else {
        Status::Unknown
    }
}

impl From<c_long> for Status {
    fn from(code: c_long) -> (status: Self) {
        match code {
            1 => Self::Active,
            2 => Self::Canceled,
            3 => Self::Executed,
            _ => Self::Unknown,
        }
    }
}

impl vstd::std_specs::convert::FromSpecImpl<c_long> for Status {
    open spec fn obeys_from_spec() -> bool {
        true
    }

    open spec fn from_spec(code: c_long) -> Status {
        status_of(code as int)
    }
}

/// Return code produced by `Trans2QUIK.dll` functions.
///
/// The numeric value of each variant is given by [`Trans2QuikResult::code`].
#[derive(Debug, Clone, Copy, PartialEq, Eq, Structural)]
pub enum Trans2QuikResult {
    Success,
    Failed,
    TerminalNotFound,
    DllVersionNotSupported,
    AlreadyConnectedToQuik,
    WrongSyntax,
    QuikNotConnected,
    DllNotConnected,
    QuikConnected,
    QuikDisconnected,
    DllConnected,
    DllDisconnected,
    MemoryAllocationError,
    WrongConnectionHandle,
    WrongInputParams,
    Unknown,
}

/// The result that a raw return code stands for.
pub open spec fn result_of(code: int) -> Trans2QuikResult {
    if code == 0 {
        Trans2QuikResult::Success
    } else if code == 1 {
        Trans2QuikResult::Failed
    } else if code == 2 {
        Trans2QuikResult::TerminalNotFound
    } else if code == 3 {
        Trans2QuikResult::DllVersionNotSupported
    } else if code == 4 {
        Trans2QuikResult::AlreadyConnectedToQuik
    } else if code == 5 {
        Trans2QuikResult::WrongSyntax
    } else if code == 6 {
        Trans2QuikResult::QuikNotConnected
    } else if code == 7 {
        Trans2QuikResult::DllNotConnected
    } else if code == 8 {
        Trans2QuikResult::QuikConnected
    } else if code == 9 {
        Trans2QuikResult::QuikDisconnected
    } else if code == 10 {
        Trans2QuikResult::DllConnected
    } else if code == 11 {
        Trans2QuikResult::DllDisconnected
    } else if code == 12 {
        Trans2QuikResult::MemoryAllocationError
    } else if code == 13 {
        Trans2QuikResult::WrongConnectionHandle
    } else if code == 14 {
        Trans2QuikResult::WrongInputParams
    } else {
        Trans2QuikResult::Unknown
    }
}

impl Trans2QuikResult {
    /// The numeric value of a result: its Trans2QUIK return code, and the
    /// next free value, 15, for `Unknown`.
    pub open spec fn spec_code(self) -> i32 {
        match self {
            Trans2QuikResult::Success => 0,
            Trans2QuikResult::Failed => 1,
            Trans2QuikResult::TerminalNotFound => 2,
            Trans2QuikResult::DllVersionNotSupported => 3,
            Trans2QuikResult::AlreadyConnectedToQuik => 4,
            Trans2QuikResult::WrongSyntax => 5,
            Trans2QuikResult::QuikNotConnected => 6,
            Trans2QuikResult::DllNotConnected => 7,
            Trans2QuikResult::QuikConnected => 8,
            Trans2QuikResult::QuikDisconnected => 9,
            Trans2QuikResult::DllConnected => 10,
            Trans2QuikResult::DllDisconnected => 11,
            Trans2QuikResult::MemoryAllocationError => 12,
            Trans2QuikResult::WrongConnectionHandle => 13,
            Trans2QuikResult::WrongInputParams => 14,
            Trans2QuikResult::Unknown => 15,
        }
    }

    /// The numeric value of this result (see [`Trans2QuikResult::spec_code`]).
    #[verifier::when_used_as_spec(spec_code)]
    pub fn code(self) -> (code: i32)
        ensures
            code == self.spec_code(),
    {
        match self {
            Trans2QuikResult::Success => 0,
            Trans2QuikResult::Failed => 1,
            Trans2QuikResult::TerminalNotFound => 2,
            Trans2QuikResult::DllVersionNotSupported => 3,
            Trans2QuikResult::AlreadyConnectedToQuik => 4,
            Trans2QuikResult::WrongSyntax => 5,
            Trans2QuikResult::QuikNotConnected => 6,
            Trans2QuikResult::DllNotConnected => 7,
            Trans2QuikResult::QuikConnected => 8,
            Trans2QuikResult::QuikDisconnected => 9,
            Trans2QuikResult::DllConnected => 10,
            Trans2QuikResult::DllDisconnected => 11,
            Trans2QuikResult::MemoryAllocationError => 12,
            Trans2QuikResult::WrongConnectionHandle => 13,
            Trans2QuikResult::WrongInputParams => 14,
            Trans2QuikResult::Unknown => 15,
        }
    }
}

impl From<c_long> for Trans2QuikResult {
    fn from(code: c_long) -> (result: Self) {
        match code {
            0 => Self::Success,
            1 => Self::Failed,
            2 => Self::TerminalNotFound,
            3 => Self::DllVersionNotSupported,
            4 => Self::AlreadyConnectedToQuik,
            5 => Self::WrongSyntax,
            6 => Self::QuikNotConnected,
            7 => Self::DllNotConnected,
            8 => Self::QuikConnected,
            9 => Self::QuikDisconnected,
            10 => Self::DllConnected,
            11 => Self::DllDisconnected,
            12 => Self::MemoryAllocationError,
            13 => Self::WrongConnectionHandle,
            14 => Self::WrongInputParams,
            _ => Self::Unknown,
        }
    }
}

impl vstd::std_specs::convert::FromSpecImpl<c_long> for Trans2QuikResult {
    open spec fn obeys_from_spec() -> bool {
        true
    }

    open spec fn from_spec(code: c_long) -> Trans2QuikResult {
        result_of(code as int)
    }
}

/// A return code is recognised exactly when it lies in `0..=14`, and then
/// its numeric value is the code itself.
pub proof fn lemma_result_code_recognised(code: int)
    ensures
        (result_of(code) != Trans2QuikResult::Unknown) <==> (0 <= code <= 14),
        0 <= code <= 14 ==> result_of(code).spec_code() == code,
        !(0 <= code <= 14) ==> result_of(code).spec_code() == 15,
{
}

/// Converting a result to its numeric value and back gives the same result,
/// `Unknown` included.
pub proof fn lemma_result_code_roundtrip(result: Trans2QuikResult)
    ensures
        result_of(result.spec_code() as int) == result,
        0 <= result.spec_code() <= 15,
{
}

/// Codes that the terminal documents map to distinct modes, sides and
/// statuses, and every other code maps to `Unknown`.
pub proof fn lemma_attribute_codes(code: int)
    ensures
        (mode_of(code) == Mode::Unknown) <==> !(0 <= code <= 2),
        (side_of(code) == IsSell::Unknown) <==> !(0 <= code <= 1),
        (status_of(code) == Status::Unknown) <==> !(1 <= code <= 3),
        mode_of(code) == Mode::LastOrderReceived <==> code == 2,
{
}

/// A zero transaction id stands for "no id"; every other id is carried
/// unchanged.
pub proof fn law_trans_id_carries_its_value(id: c_long)
    ensures
        id == 0 ==> trans_id_of(id) == TransId::Unknown(0),
        id != 0 ==> trans_id_of(id) == TransId::Id(id),
{
}

/// The modes, sides and statuses that the terminal's codes stand for.
pub proof fn law_attribute_code_tables(code: int)
    ensures
        code == 0 ==> mode_of(code) == Mode::NewOrder,
        code == 1 ==> mode_of(code) == Mode::InitialOrder,
        code == 2 ==> mode_of(code) == Mode::LastOrderReceived,
        !(0 <= code <= 2) ==> mode_of(code) == Mode::Unknown,
        code == 0 ==> side_of(code) == IsSell::Buy,
        code == 1 ==> side_of(code) == IsSell::Sell,
        !(0 <= code <= 1) ==> side_of(code) == IsSell::Unknown,
        code == 1 ==> status_of(code) == Status::Active,
        code == 2 ==> status_of(code) == Status::Canceled,
        code == 3 ==> status_of(code) == Status::Executed,
        !(1 <= code <= 3) ==> status_of(code) == Status::Unknown,
{
}

/// The results that the terminal's return codes stand for.
pub proof fn law_result_code_table(code: int)
    ensures
        code == 0 ==> result_of(code) == Trans2QuikResult::Success,
        code == 1 ==> result_of(code) == Trans2QuikResult::Failed,
        code == 2 ==> result_of(code) == Trans2QuikResult::TerminalNotFound,
        code == 3 ==> result_of(code) == Trans2QuikResult::DllVersionNotSupported,
        code == 4 ==> result_of(code) == Trans2QuikResult::AlreadyConnectedToQuik,
        code == 5 ==> result_of(code) == Trans2QuikResult::WrongSyntax,
        code == 6 ==> result_of(code) == Trans2QuikResult::QuikNotConnected,
        code == 7 ==> result_of(code) == Trans2QuikResult::DllNotConnected,
        code == 8 ==> result_of(code) == Trans2QuikResult::QuikConnected,
        code == 9 ==> result_of(code) == Trans2QuikResult::QuikDisconnected,
        code == 10 ==> result_of(code) == Trans2QuikResult::DllConnected,
        code == 11 ==> result_of(code) == Trans2QuikResult::DllDisconnected,
        code == 12 ==> result_of(code) == Trans2QuikResult::MemoryAllocationError,
        code == 13 ==> result_of(code) == Trans2QuikResult::WrongConnectionHandle,
        code == 14 ==> result_of(code) == Trans2QuikResult::WrongInputParams,
        !(0 <= code <= 14) ==> result_of(code) == Trans2QuikResult::Unknown,
        Trans2QuikResult::Unknown.spec_code() == 15,
{
}

/// Order payload from Trans2QUIK callback data.
///
/// `P` is the representation of the price and value figures, which the
/// terminal reports as C doubles.
#[derive(Debug, Clone, PartialEq)]
pub struct OrderInfo<P> {
    pub mode: Mode,
    pub trans_id: TransId,
    pub order_num: u64,
    pub class_code: String,
    pub sec_code: String,
    pub price: P,
    pub balance: i64,
    pub value: P,
    pub is_sell: IsSell,
    pub status: Status,
    pub date: NaiveDate,
    pub time: NaiveTime,
}

/// Event stream item for order subscriptions.
#[derive(Debug, Clone, PartialEq)]
pub enum OrderEvent<P> {
    /// A regular order callback payload.
    Data(OrderInfo<P>),
    /// Marker that the initial order snapshot is fully received.
    SnapshotEnd,
}

/// Trade payload from Trans2QUIK callback data.
///
/// `P` is the representation of the price and value figures.
#[derive(Debug, Clone, PartialEq)]
pub struct TradeInfo<P> {
    pub mode: Mode,
    pub trade_num: u64,
    pub order_num: u64,
    pub class_code: String,
    pub sec_code: String,
    pub price: P,
    pub quantity: i64,
    pub is_sell: IsSell,
    pub value: P,
    pub date: NaiveDate,
    pub time: NaiveTime,
}

/// Event stream item for trade subscriptions.
#[derive(Debug, Clone, PartialEq)]
pub enum TradeEvent<P> {
    /// A regular trade callback payload.
    Data(TradeInfo<P>),
    /// Marker that the initial trade snapshot is fully received.
    SnapshotEnd,
}

/// Asynchronous transaction reply callback payload.
///
/// `P` is the representation of the price figure.
#[derive(Debug, Clone, PartialEq)]
pub struct TransactionInfo<P> {
    pub trans2quik_result: Trans2QuikResult,
    pub error_code: i32,
    pub reply_code: i32,
    pub trans_id: TransId,
    pub order_num: u64,
    pub reply_message: String,
    pub sec_code: String,
    pub price: P,
}

} // verus!
