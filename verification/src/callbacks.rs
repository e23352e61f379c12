use crate::codec::{
    date_reading, decodable_length, decode_lpstr, lpstr_reading, parse_date, parse_time,
    time_reading, windows_1251_decode,
};
use crate::errors::{DateTimeError, DecodeLpstrError};
use crate::types::{
    mode_of, result_of, side_of, status_of, trans_id_of, IsSell, Mode, OrderInfo, Status,
    TradeInfo, Trans2QuikResult, TransId, TransactionInfo,
};
use chrono::{NaiveDate, NaiveTime};
use libc::c_long;
use vstd::prelude::*;

verus! {

// ---------------------------------------------------------------------------
// small conversions
// ---------------------------------------------------------------------------

/// Narrows a C long to `i32`, or `None` when it does not fit.
pub fn c_long_to_i32(value: c_long) -> (narrowed: Option<i32>)
    ensures
        narrowed == (if i32::MIN <= value <= i32::MAX {
            Some(value as i32)
        } else {
            None
        }),
{
    if i32::MIN as c_long <= value && value <= i32::MAX as c_long {
        Some(value as i32)
    } else {
        None
    }
}

/// The view of an optional byte vector.
pub open spec fn opt_vec_view(bytes: Option<Vec<u8>>) -> Option<Seq<u8>> {
    match bytes {
        None => None,
        Some(b) => Some(b@),
    }
}

/// A byte vector that the windows-1251 decoder accepts, if any.
pub open spec fn readable_text(bytes: Option<Vec<u8>>) -> bool {
    bytes matches Some(b) ==> decodable_length(b@.len())
}

/// Reads a C string handed over as optional bytes (`None` for a null
/// pointer).
fn decode_field(bytes: Option<Vec<u8>>) -> (text: Result<String, DecodeLpstrError>)
    requires
        readable_text(bytes),
    ensures
        match text {
            Ok(s) => lpstr_reading(opt_vec_view(bytes)) == Ok::<Seq<char>, DecodeLpstrError>(s@),
            Err(e) => lpstr_reading(opt_vec_view(bytes)) == Err::<Seq<char>, DecodeLpstrError>(e),
        },
{
    match bytes {
        None => decode_lpstr(None),
        Some(b) => decode_lpstr(Some(b.as_slice())),
    }
}

/// The message of a connection status callback as it is reported: the
/// decoded text, or a note for a null pointer.
pub open spec fn connection_message_reading(bytes: Option<Seq<u8>>) -> Seq<char> {
    match bytes {
        None => "error_message is null"@,
        Some(b) => windows_1251_decode(b),
    }
}

/// The error message of a connection status callback as it is reported.
/// `None` stands for a null pointer.
pub fn connection_error_message(bytes: Option<&[u8]>) -> (message: String)
    requires
        bytes matches Some(b) ==> decodable_length(b@.len()),
    ensures
        message@ == connection_message_reading(match bytes {
            None => None,
            Some(b) => Some(b@),
        }),
{
    match bytes {
        None => "error_message is null".to_owned(),
        Some(b) => match decode_lpstr(Some(b)) {
            Ok(message) => message,
            Err(_) => "failed to decode error_message".to_owned(),
        },
    }
}

// ---------------------------------------------------------------------------
// the callback registry
// ---------------------------------------------------------------------------

/// The callback streams of the terminal.
#[derive(Debug, Clone, Copy, PartialEq, Eq, Structural)]
pub enum Stream {
    TransactionReplies,
    Orders,
    Trades,
}

/// What the callback registry holds when a callback arrives: whether the
/// terminal's descriptor functions are installed, and which streams have a
/// channel to deliver to.
#[derive(Debug, Clone, Copy, PartialEq, Eq, Structural)]
pub struct Registrations {
    pub api_installed: bool,
    pub transaction_reply_sender: bool,
    pub order_status_sender: bool,
    pub trade_status_sender: bool,
}

/// Whether a stream has a channel registered.
pub open spec fn sender_registered(registrations: Registrations, stream: Stream) -> bool {
    match stream {
        Stream::TransactionReplies => registrations.transaction_reply_sender,
        Stream::Orders => registrations.order_status_sender,
        Stream::Trades => registrations.trade_status_sender,
    }
}

/// The registry after a channel is registered for `stream`.
pub open spec fn registered_with(registrations: Registrations, stream: Stream) -> Registrations {
    Registrations {
        api_installed: registrations.api_installed,
        transaction_reply_sender: registrations.transaction_reply_sender || stream
            == Stream::TransactionReplies,
        order_status_sender: registrations.order_status_sender || stream == Stream::Orders,
        trade_status_sender: registrations.trade_status_sender || stream == Stream::Trades,
    }
}

/// The registry after the descriptor functions are installed.
pub open spec fn installed(registrations: Registrations) -> Registrations {
    Registrations { api_installed: true, ..registrations }
}

/// What becomes of a callback of `stream` under `registrations`.
pub open spec fn plan_of(registrations: Registrations, stream: Stream) -> CallbackPlan {
    if registrations.api_installed {
        CallbackPlan::Handle { deliver: sender_registered(registrations, stream) }
    } else {
        CallbackPlan::Ignore
    }
}

impl Registrations {
    /// The registry before anything is installed or registered.
    pub fn new() -> (registrations: Self)
        ensures
            registrations == (Registrations {
                api_installed: false,
                transaction_reply_sender: false,
                order_status_sender: false,
                trade_status_sender: false,
            }),
    {
        Registrations {
            api_installed: false,
            transaction_reply_sender: false,
            order_status_sender: false,
            trade_status_sender: false,
        }
    }

    /// Records that the terminal's descriptor functions are installed; the
    /// channels stay as they are.
    pub fn install_api(&mut self)
        ensures
            *final(self) == installed(*old(self)),
    {
        self.api_installed = true;
    }

    /// Records that a channel is registered for `stream`; the other streams
    /// and the descriptor functions stay as they are.
    pub fn register_sender(&mut self, stream: Stream)
        ensures
            *final(self) == registered_with(*old(self), stream),
    {
        match stream {
            Stream::TransactionReplies => self.transaction_reply_sender = true,
            Stream::Orders => self.order_status_sender = true,
            Stream::Trades => self.trade_status_sender = true,
        }
    }
}

/// What becomes of a callback, decided from the registry alone.
#[derive(Debug, Clone, Copy, PartialEq, Eq, Structural)]
pub enum CallbackPlan {
    /// The descriptor functions are not installed: the callback is dropped
    /// before anything is read or sent, a snapshot-end marker included.
    Ignore,
    /// The callback is handled; its event is delivered when `deliver`
    /// holds, and otherwise only reported.
    Handle { deliver: bool },
}

/// Decides what becomes of a callback of `stream` from the registry.
pub fn plan_callback(registrations: &Registrations, stream: Stream) -> (plan: CallbackPlan)
    ensures
        plan == plan_of(*registrations, stream),
{
    if !registrations.api_installed {
        return CallbackPlan::Ignore;
    }
    let deliver = match stream {
        Stream::TransactionReplies => registrations.transaction_reply_sender,
        Stream::Orders => registrations.order_status_sender,
        Stream::Trades => registrations.trade_status_sender,
    };
    CallbackPlan::Handle { deliver }
}

/// Registering a channel for one stream makes that stream deliver, once the
/// descriptor functions are installed, and changes nothing for the other
/// streams or for the descriptor functions.
pub proof fn law_registering_enables_only_its_stream(
    registrations: Registrations,
    stream: Stream,
    other: Stream,
)
    ensures
        registered_with(registrations, stream).api_installed == registrations.api_installed,
        sender_registered(registered_with(registrations, stream), stream),
        other != stream ==> sender_registered(registered_with(registrations, stream), other)
            == sender_registered(registrations, other),
{
}

/// Without the descriptor functions every callback is dropped; with them,
/// each stream delivers exactly when its own channel is registered.
pub proof fn law_plan_reads_its_own_channel(registrations: Registrations)
    ensures
        !registrations.api_installed ==> plan_of(registrations, Stream::TransactionReplies)
            == CallbackPlan::Ignore && plan_of(registrations, Stream::Orders) == CallbackPlan::Ignore
            && plan_of(registrations, Stream::Trades) == CallbackPlan::Ignore,
        registrations.api_installed ==> plan_of(registrations, Stream::TransactionReplies) == (
        CallbackPlan::Handle { deliver: registrations.transaction_reply_sender }),
        registrations.api_installed ==> plan_of(registrations, Stream::Orders) == (
        CallbackPlan::Handle { deliver: registrations.order_status_sender }),
        registrations.api_installed ==> plan_of(registrations, Stream::Trades) == (
        CallbackPlan::Handle { deliver: registrations.trade_status_sender }),
{
}

/// Installing the descriptor functions sets only that flag; registering a
/// channel sets only that stream's flag.
pub proof fn law_registry_transitions(registrations: Registrations)
    ensures
        installed(registrations) == (Registrations { api_installed: true, ..registrations }),
        registered_with(registrations, Stream::TransactionReplies) == (Registrations {
            transaction_reply_sender: true,
            ..registrations
        }),
        registered_with(registrations, Stream::Orders) == (Registrations {
            order_status_sender: true,
            ..registrations
        }),
        registered_with(registrations, Stream::Trades) == (Registrations {
            trade_status_sender: true,
            ..registrations
        }),
{
}

/// A connection status message is a note for a null pointer and the
/// windows-1251 text of the message otherwise.
pub proof fn law_connection_message(bytes: Option<Seq<u8>>)
    ensures
        bytes is None ==> connection_message_reading(bytes) == "error_message is null"@,
        bytes matches Some(b) ==> connection_message_reading(bytes) == windows_1251_decode(b),
{
}

/// Once the descriptor functions are installed and a channel is registered
/// for a stream, its callbacks are delivered; registering a channel for
/// another stream leaves a stream's plan as it was, and without the
/// descriptor functions every callback is dropped.
pub proof fn law_delivery_follows_registrations(registrations: Registrations, stream: Stream, other: Stream)
    ensures
        plan_of(registered_with(installed(registrations), stream), stream) == (CallbackPlan::Handle {
            deliver: true,
        }),
        other != stream ==> plan_of(registered_with(registrations, other), stream) == plan_of(
            registrations,
            stream,
        ),
        !registrations.api_installed ==> plan_of(registered_with(registrations, other), stream)
            == CallbackPlan::Ignore,
{
}

// ---------------------------------------------------------------------------
// order and trade streams
// ---------------------------------------------------------------------------

/// How an order or trade callback starts.
pub enum StreamStart {
    /// The initial snapshot is complete; nothing else is read.
    SnapshotEnd,
    /// A regular callback in the given mode: its listing is to be read.
    Gather(Mode),
}

/// The first decision on an order or trade callback, from its raw mode.
pub fn stream_start(mode: c_long) -> (start: StreamStart)
    ensures
        mode_of(mode as int) == Mode::LastOrderReceived ==> start is SnapshotEnd,
        mode_of(mode as int) != Mode::LastOrderReceived ==> start == StreamStart::Gather(
            mode_of(mode as int),
        ),
{
    let mode = Mode::from(mode);
    match mode {
        Mode::LastOrderReceived => StreamStart::SnapshotEnd,
        _ => StreamStart::Gather(mode),
    }
}

/// The attributes of an order or trade callback that are read by pointer
/// or through the callback's descriptor, in the order they are read.
#[derive(Debug, Clone, Copy, PartialEq, Eq, Structural)]
pub enum ListingField {
    ClassCode,
    SecCode,
    Date,
    Time,
}

/// A value read on request: the bytes of a C string (`None` for a null
/// pointer), or a number returned by the terminal.
pub enum Reading {
    Text(Option<Vec<u8>>),
    Number(c_long),
}

/// What has been read of a listing so far.
pub enum ListingProgress {
    Started,
    ClassCode(String),
    Codes(String, String),
    CodesAndDate(String, String, NaiveDate),
}

/// The attributes of an order or trade that come by pointer or descriptor.
pub struct Listing {
    pub class_code: String,
    pub sec_code: String,
    pub date: NaiveDate,
    pub time: NaiveTime,
}

/// Why a callback is dropped while its listing is read.
#[derive(Debug)]
pub enum ListingRejection {
    ClassCode(DecodeLpstrError),
    SecCode(DecodeLpstrError),
    Date(DateTimeError),
    Time(DateTimeError),
    /// The reading is not of the kind the field needs.
    Mismatch(ListingField),
}

/// What to do next while reading a listing.
pub enum ListingStep {
    /// Read this field and hand the reading back with the progress.
    Read(ListingField, ListingProgress),
    Complete(Listing),
    Rejected(ListingRejection),
}

/// How far a listing has been read: the number of fields already read.
pub open spec fn listing_stage(progress: ListingProgress) -> nat {
    match progress {
        ListingProgress::Started => 0,
        ListingProgress::ClassCode(..) => 1,
        ListingProgress::Codes(..) => 2,
        ListingProgress::CodesAndDate(..) => 3,
    }
}

/// The field read at a stage.
pub open spec fn listing_field_at(stage: nat) -> ListingField {
    if stage == 0 {
        ListingField::ClassCode
    } else if stage == 1 {
        ListingField::SecCode
    } else if stage == 2 {
        ListingField::Date
    } else {
        ListingField::Time
    }
}

/// The relation between a listing's progress, the reading of its next
/// field, and the step that follows.
pub open spec fn listing_next_spec(progress: ListingProgress, reading: Reading, step: ListingStep) -> bool {
    match progress {
        ListingProgress::Started => match reading {
            Reading::Text(b) => match lpstr_reading(opt_vec_view(b)) {
                Ok(s) => step matches ListingStep::Read(
                    ListingField::SecCode,
                    ListingProgress::ClassCode(c),
                ) && c@ == s,
                Err(e) => step == ListingStep::Rejected(ListingRejection::ClassCode(e)),
            },
            Reading::Number(_) => step == ListingStep::Rejected(
                ListingRejection::Mismatch(ListingField::ClassCode),
            ),
        },
        ListingProgress::ClassCode(c) => match reading {
            Reading::Text(b) => match lpstr_reading(opt_vec_view(b)) {
                Ok(s) => step matches ListingStep::Read(
                    ListingField::Date,
                    ListingProgress::Codes(c2, s2),
                ) && c2 == c && s2@ == s,
                Err(e) => step == ListingStep::Rejected(ListingRejection::SecCode(e)),
            },
            Reading::Number(_) => step == ListingStep::Rejected(
                ListingRejection::Mismatch(ListingField::SecCode),
            ),
        },
        ListingProgress::Codes(c, s) => match reading {
            Reading::Number(n) => match date_reading(n as int) {
                Ok(d) => step == ListingStep::Read(
                    ListingField::Time,
                    ListingProgress::CodesAndDate(c, s, d),
                ),
                Err(e) => step == ListingStep::Rejected(ListingRejection::Date(e)),
            },
            Reading::Text(_) => step == ListingStep::Rejected(
                ListingRejection::Mismatch(ListingField::Date),
            ),
        },
        ListingProgress::CodesAndDate(c, s, d) => match reading {
            Reading::Number(n) => match time_reading(n as int) {
                Ok(t) => step == ListingStep::Complete(
                    Listing { class_code: c, sec_code: s, date: d, time: t },
                ),
                Err(e) => step == ListingStep::Rejected(ListingRejection::Time(e)),
            },
            Reading::Text(_) => step == ListingStep::Rejected(
                ListingRejection::Mismatch(ListingField::Time),
            ),
        },
    }
}

/// The first step of reading a listing: its class code.
pub fn listing_start() -> (step: ListingStep)
    ensures
        step == ListingStep::Read(ListingField::ClassCode, ListingProgress::Started),
{
    ListingStep::Read(ListingField::ClassCode, ListingProgress::Started)
}

/// Takes the reading of the field that `progress` asked for and decides
/// the next step.
pub fn listing_next(progress: ListingProgress, reading: Reading) -> (step: ListingStep)
    requires
        reading matches Reading::Text(b) ==> readable_text(b),
    ensures
        listing_next_spec(progress, reading, step),
{
    match progress {
        ListingProgress::Started => match reading {
            Reading::Text(b) => match decode_field(b) {
                Ok(class_code) => ListingStep::Read(
                    ListingField::SecCode,
                    ListingProgress::ClassCode(class_code),
                ),
                Err(e) => ListingStep::Rejected(ListingRejection::ClassCode(e)),
            },
            Reading::Number(_) => ListingStep::Rejected(
                ListingRejection::Mismatch(ListingField::ClassCode),
            ),
        },
        ListingProgress::ClassCode(class_code) => match reading {
            Reading::Text(b) => match decode_field(b) {
                Ok(sec_code) => ListingStep::Read(
                    ListingField::Date,
                    ListingProgress::Codes(class_code, sec_code),
                ),
                Err(e) => ListingStep::Rejected(ListingRejection::SecCode(e)),
            },
            Reading::Number(_) => ListingStep::Rejected(
                ListingRejection::Mismatch(ListingField::SecCode),
            ),
        },
        ListingProgress::Codes(class_code, sec_code) => match reading {
            Reading::Number(n) => match parse_date(n) {
                Ok(date) => ListingStep::Read(
                    ListingField::Time,
                    ListingProgress::CodesAndDate(class_code, sec_code, date),
                ),
                Err(e) => ListingStep::Rejected(ListingRejection::Date(e)),
            },
            Reading::Text(_) => ListingStep::Rejected(
                ListingRejection::Mismatch(ListingField::Date),
            ),
        },
        ListingProgress::CodesAndDate(class_code, sec_code, date) => match reading {
            Reading::Number(n) => match parse_time(n) {
                Ok(time) => ListingStep::Complete(Listing { class_code, sec_code, date, time }),
                Err(e) => ListingStep::Rejected(ListingRejection::Time(e)),
            },
            Reading::Text(_) => ListingStep::Rejected(
                ListingRejection::Mismatch(ListingField::Time),
            ),
        },
    }
}

/// The values an order callback receives by value, besides its mode.
pub struct OrderCall<P> {
    pub trans_id: c_long,
    pub order_num: u64,
    pub price: P,
    pub balance: i64,
    pub value: P,
    pub is_sell: c_long,
    pub status: c_long,
}

/// The order payload of a regular order callback, from its mode, the values
/// it received and its listing.
pub fn order_info<P>(mode: Mode, call: OrderCall<P>, listing: Listing) -> (info: OrderInfo<P>)
    ensures
        info.mode == mode,
        info.trans_id == trans_id_of(call.trans_id),
        info.order_num == call.order_num,
        info.class_code == listing.class_code,
        info.sec_code == listing.sec_code,
        info.price == call.price,
        info.balance == call.balance,
        info.value == call.value,
        info.is_sell == side_of(call.is_sell as int),
        info.status == status_of(call.status as int),
        info.date == listing.date,
        info.time == listing.time,
{
    OrderInfo {
        mode,
        trans_id: TransId::from(call.trans_id),
        order_num: call.order_num,
        class_code: listing.class_code,
        sec_code: listing.sec_code,
        price: call.price,
        balance: call.balance,
        value: call.value,
        is_sell: IsSell::from(call.is_sell),
        status: Status::from(call.status),
        date: listing.date,
        time: listing.time,
    }
}

/// The values a trade callback receives by value, besides its mode.
pub struct TradeCall<P> {
    pub trade_num: u64,
    pub order_num: u64,
    pub price: P,
    pub quantity: i64,
    pub is_sell: c_long,
    pub value: P,
}

/// The trade payload of a regular trade callback, from its mode, the values
/// it received and its listing.
pub fn trade_info<P>(mode: Mode, call: TradeCall<P>, listing: Listing) -> (info: TradeInfo<P>)
    ensures
        info.mode == mode,
        info.trade_num == call.trade_num,
        info.order_num == call.order_num,
        info.class_code == listing.class_code,
        info.sec_code == listing.sec_code,
        info.price == call.price,
        info.quantity == call.quantity,
        info.is_sell == side_of(call.is_sell as int),
        info.value == call.value,
        info.date == listing.date,
        info.time == listing.time,
{
    TradeInfo {
        mode,
        trade_num: call.trade_num,
        order_num: call.order_num,
        class_code: listing.class_code,
        sec_code: listing.sec_code,
        price: call.price,
        quantity: call.quantity,
        is_sell: IsSell::from(call.is_sell),
        value: call.value,
        date: listing.date,
        time: listing.time,
    }
}

// ---------------------------------------------------------------------------
// transaction replies
// ---------------------------------------------------------------------------

/// The values a transaction reply callback receives by value.
pub struct ReplyCall {
    pub result_code: c_long,
    pub error_code: c_long,
    pub reply_code: c_long,
    pub trans_id: c_long,
    pub order_num: u64,
}

/// The attributes of a transaction reply read by pointer or through the
/// reply descriptor, in the order they are read.
#[derive(Debug, Clone, Copy, PartialEq, Eq, Structural)]
pub enum ReplyField {
    ReplyMessage,
    SecCode,
    Price,
}

/// A value read on request for a transaction reply: the bytes of a C string
/// (`None` for a null pointer), or the price.
pub enum ReplyReading<P> {
    Text(Option<Vec<u8>>),
    Price(P),
}

/// What has been read of a transaction reply so far.
pub enum ReplyProgress {
    Started,
    Message(String),
    MessageAndSecCode(String, String),
}

/// Why a transaction reply is dropped.
#[derive(Debug)]
pub enum ReplyRejection {
    ReplyMessage(DecodeLpstrError),
    SecCode(DecodeLpstrError),
    /// The error code does not fit an `i32`.
    ErrorCode(c_long),
    /// The reply code does not fit an `i32`.
    ReplyCode(c_long),
    /// The reading is not of the kind the field needs.
    Mismatch(ReplyField),
}

/// What to do next while reading a transaction reply.
pub enum ReplyStep<P> {
    /// Read this field and hand the reading back with the progress.
    Read(ReplyField, ReplyProgress),
    Complete(TransactionInfo<P>),
    Rejected(ReplyRejection),
}

/// How far a transaction reply has been read: the number of fields read.
pub open spec fn reply_stage(progress: ReplyProgress) -> nat {
    match progress {
        ReplyProgress::Started => 0,
        ReplyProgress::Message(..) => 1,
        ReplyProgress::MessageAndSecCode(..) => 2,
    }
}

/// The field read at a stage.
pub open spec fn reply_field_at(stage: nat) -> ReplyField {
    if stage == 0 {
        ReplyField::ReplyMessage
    } else if stage == 1 {
        ReplyField::SecCode
    } else {
        ReplyField::Price
    }
}

/// The outcome of a reply once all its fields are read: the codes must fit
/// an `i32`, the error code checked first.
pub open spec fn reply_complete_spec<P>(
    call: ReplyCall,
    message: String,
    sec_code: String,
    price: P,
    step: ReplyStep<P>,
) -> bool {
    if !(i32::MIN <= call.error_code <= i32::MAX) {
        step == ReplyStep::<P>::Rejected(ReplyRejection::ErrorCode(call.error_code))
    } else if !(i32::MIN <= call.reply_code <= i32::MAX) {
        step == ReplyStep::<P>::Rejected(ReplyRejection::ReplyCode(call.reply_code))
    } else {
        step == ReplyStep::Complete(
            TransactionInfo {
                trans2quik_result: result_of(call.result_code as int),
                error_code: call.error_code as i32,
                reply_code: call.reply_code as i32,
                trans_id: trans_id_of(call.trans_id),
                order_num: call.order_num,
                reply_message: message,
                sec_code: sec_code,
                price: price,
            },
        )
    }
}

/// The relation between a reply's progress, the reading of its next field,
/// and the step that follows.
pub open spec fn reply_next_spec<P>(
    call: ReplyCall,
    progress: ReplyProgress,
    reading: ReplyReading<P>,
    step: ReplyStep<P>,
) -> bool {
    match progress {
        ReplyProgress::Started => match reading {
            ReplyReading::Text(b) => match lpstr_reading(opt_vec_view(b)) {
                Ok(s) => step matches ReplyStep::Read(
                    ReplyField::SecCode,
                    ReplyProgress::Message(m),
                ) && m@ == s,
                Err(e) => step == ReplyStep::<P>::Rejected(ReplyRejection::ReplyMessage(e)),
            },
            ReplyReading::Price(_) => step == ReplyStep::<P>::Rejected(
                ReplyRejection::Mismatch(ReplyField::ReplyMessage),
            ),
        },
        ReplyProgress::Message(m) => match reading {
            ReplyReading::Text(b) => match lpstr_reading(opt_vec_view(b)) {
                Ok(s) => step matches ReplyStep::Read(
                    ReplyField::Price,
                    ReplyProgress::MessageAndSecCode(m2, s2),
                ) && m2 == m && s2@ == s,
                Err(e) => step == ReplyStep::<P>::Rejected(ReplyRejection::SecCode(e)),
            },
            ReplyReading::Price(_) => step == ReplyStep::<P>::Rejected(
                ReplyRejection::Mismatch(ReplyField::SecCode),
            ),
        },
        ReplyProgress::MessageAndSecCode(m, s) => match reading {
            ReplyReading::Price(p) => reply_complete_spec(call, m, s, p, step),
            ReplyReading::Text(_) => step == ReplyStep::<P>::Rejected(
                ReplyRejection::Mismatch(ReplyField::Price),
            ),
        },
    }
}

/// The first step of reading a transaction reply: its message.
pub fn reply_start<P>() -> (step: ReplyStep<P>)
    ensures
        step == ReplyStep::<P>::Read(ReplyField::ReplyMessage, ReplyProgress::Started),
{
    ReplyStep::Read(ReplyField::ReplyMessage, ReplyProgress::Started)
}

/// Takes the reading of the field that `progress` asked for and decides
/// the next step of a transaction reply.
pub fn reply_next<P>(call: &ReplyCall, progress: ReplyProgress, reading: ReplyReading<P>) -> (step: ReplyStep<P>)
    requires
        reading matches ReplyReading::Text(b) ==> readable_text(b),
    ensures
        reply_next_spec(*call, progress, reading, step),
{
    match progress {
        ReplyProgress::Started => match reading {
            ReplyReading::Text(b) => match decode_field(b) {
                Ok(message) => ReplyStep::Read(ReplyField::SecCode, ReplyProgress::Message(message)),
                Err(e) => ReplyStep::Rejected(ReplyRejection::ReplyMessage(e)),
            },
            ReplyReading::Price(_) => ReplyStep::Rejected(
                ReplyRejection::Mismatch(ReplyField::ReplyMessage),
            ),
        },
        ReplyProgress::Message(message) => match reading {
            ReplyReading::Text(b) => match decode_field(b) {
                Ok(sec_code) => ReplyStep::Read(
                    ReplyField::Price,
                    ReplyProgress::MessageAndSecCode(message, sec_code),
                ),
                Err(e) => ReplyStep::Rejected(ReplyRejection::SecCode(e)),
            },
            ReplyReading::Price(_) => ReplyStep::Rejected(
                ReplyRejection::Mismatch(ReplyField::SecCode),
            ),
        },
        ReplyProgress::MessageAndSecCode(message, sec_code) => match reading {
            ReplyReading::Price(price) => {
                let error_code = match c_long_to_i32(call.error_code) {
                    Some(code) => code,
                    None => return ReplyStep::Rejected(ReplyRejection::ErrorCode(call.error_code)),
                };
                let reply_code = match c_long_to_i32(call.reply_code) {
                    Some(code) => code,
                    None => return ReplyStep::Rejected(ReplyRejection::ReplyCode(call.reply_code)),
                };
                ReplyStep::Complete(
                    TransactionInfo {
                        trans2quik_result: Trans2QuikResult::from(call.result_code),
                        error_code,
                        reply_code,
                        trans_id: TransId::from(call.trans_id),
                        order_num: call.order_num,
                        reply_message: message,
                        sec_code,
                        price,
                    },
                )
            },
            ReplyReading::Text(_) => ReplyStep::Rejected(
                ReplyRejection::Mismatch(ReplyField::Price),
            ),
        },
    }
}

// ---------------------------------------------------------------------------
// laws of the callback streams
// ---------------------------------------------------------------------------

/// A listing asks for its fields one at a time, in the order class code,
/// security code, date, time, each once; it completes only after the time.
pub proof fn law_listing_reads_in_order(progress: ListingProgress, reading: Reading, step: ListingStep)
    requires
        listing_next_spec(progress, reading, step),
    ensures
        step matches ListingStep::Read(field, next) ==> listing_stage(next) == listing_stage(progress)
            + 1 && field == listing_field_at(listing_stage(next)),
        step is Complete ==> listing_stage(progress) == 3,
{
}

/// Reading a listing from the start with the readings of its four fields
/// completes exactly when both codes decode and the date and time parse,
/// and then the listing holds those decoded and parsed values; otherwise it
/// stops at the first field that fails.
pub proof fn law_listing_gathers_readings(
    class_code: Option<Vec<u8>>,
    sec_code: Option<Vec<u8>>,
    date: c_long,
    time: c_long,
    s1: ListingStep,
    s2: ListingStep,
    s3: ListingStep,
    s4: ListingStep,
)
    requires
        listing_next_spec(ListingProgress::Started, Reading::Text(class_code), s1),
        s1 is Read ==> listing_next_spec(s1->Read_1, Reading::Text(sec_code), s2),
        s1 is Read && s2 is Read ==> listing_next_spec(s2->Read_1, Reading::Number(date), s3),
        s1 is Read && s2 is Read && s3 is Read ==> listing_next_spec(
            s3->Read_1,
            Reading::Number(time),
            s4,
        ),
    ensures
        (s1 is Read && s2 is Read && s3 is Read && s4 is Complete) <==> (lpstr_reading(
            opt_vec_view(class_code),
        ) is Ok && lpstr_reading(opt_vec_view(sec_code)) is Ok && date_reading(date as int) is Ok
            && time_reading(time as int) is Ok),
        s1 is Read && s2 is Read && s3 is Read ==> (s4 matches ListingStep::Complete(listing) ==> {
            &&& lpstr_reading(opt_vec_view(class_code)) == Ok::<Seq<char>, DecodeLpstrError>(
                listing.class_code@,
            )
            &&& lpstr_reading(opt_vec_view(sec_code)) == Ok::<Seq<char>, DecodeLpstrError>(
                listing.sec_code@,
            )
            &&& date_reading(date as int) == Ok::<NaiveDate, DateTimeError>(listing.date)
            &&& time_reading(time as int) == Ok::<NaiveTime, DateTimeError>(listing.time)
        }),
        s1 is Rejected <==> lpstr_reading(opt_vec_view(class_code)) is Err,
        class_code is None ==> s1 == ListingStep::Rejected(
            ListingRejection::ClassCode(DecodeLpstrError::NullPointer),
        ),
        s1 is Read && sec_code is None ==> s2 == ListingStep::Rejected(
            ListingRejection::SecCode(DecodeLpstrError::NullPointer),
        ),
        s1 is Read && s2 is Read && !(0 < date <= i32::MAX) ==> s3 == ListingStep::Rejected(
            ListingRejection::Date(DateTimeError::InvalidDate),
        ),
        s1 is Read && s2 is Read && s3 is Read && !(0 < time <= i32::MAX) ==> s4
            == ListingStep::Rejected(ListingRejection::Time(DateTimeError::InvalidTime)),
{
}

/// A transaction reply asks for its fields one at a time, in the order
/// message, security code, price, each once; it ends after the price.
pub proof fn law_reply_reads_in_order<P>(
    call: ReplyCall,
    progress: ReplyProgress,
    reading: ReplyReading<P>,
    step: ReplyStep<P>,
)
    requires
        reply_next_spec(call, progress, reading, step),
    ensures
        step matches ReplyStep::Read(field, next) ==> reply_stage(next) == reply_stage(progress) + 1
            && field == reply_field_at(reply_stage(next)),
        step is Complete ==> reply_stage(progress) == 2,
{
}

/// Reading a transaction reply from the start with the readings of its
/// three fields completes exactly when both texts decode and both codes fit
/// an `i32`; the payload then carries the decoded texts, the price as read,
/// and the codes of the callback unchanged.
pub proof fn law_reply_gathers_readings<P>(
    call: ReplyCall,
    message: Option<Vec<u8>>,
    sec_code: Option<Vec<u8>>,
    price: P,
    s1: ReplyStep<P>,
    s2: ReplyStep<P>,
    s3: ReplyStep<P>,
)
    requires
        reply_next_spec(call, ReplyProgress::Started, ReplyReading::Text(message), s1),
        s1 is Read ==> reply_next_spec(call, s1->Read_1, ReplyReading::Text(sec_code), s2),
        s1 is Read && s2 is Read ==> reply_next_spec(call, s2->Read_1, ReplyReading::Price(price), s3),
    ensures
        (s1 is Read && s2 is Read && s3 is Complete) <==> (lpstr_reading(opt_vec_view(message)) is Ok
            && lpstr_reading(opt_vec_view(sec_code)) is Ok && i32::MIN <= call.error_code
            <= i32::MAX && i32::MIN <= call.reply_code <= i32::MAX),
        s1 is Read && s2 is Read ==> (s3 matches ReplyStep::Complete(info) ==> {
            &&& lpstr_reading(opt_vec_view(message)) == Ok::<Seq<char>, DecodeLpstrError>(
                info.reply_message@,
            )
            &&& lpstr_reading(opt_vec_view(sec_code)) == Ok::<Seq<char>, DecodeLpstrError>(
                info.sec_code@,
            )
            &&& info.price == price
            &&& info.error_code == call.error_code
            &&& info.reply_code == call.reply_code
            &&& info.trans2quik_result == result_of(call.result_code as int)
            &&& info.trans_id == trans_id_of(call.trans_id)
            &&& info.order_num == call.order_num
        }),
        s1 is Read && s2 is Read && !(i32::MIN <= call.error_code <= i32::MAX) ==> s3
            == ReplyStep::<P>::Rejected(ReplyRejection::ErrorCode(call.error_code)),
        s1 is Read && s2 is Read && i32::MIN <= call.error_code <= i32::MAX && !(i32::MIN
            <= call.reply_code <= i32::MAX) ==> s3 == ReplyStep::<P>::Rejected(
            ReplyRejection::ReplyCode(call.reply_code),
        ),
        message is None ==> s1 == ReplyStep::<P>::Rejected(
            ReplyRejection::ReplyMessage(DecodeLpstrError::NullPointer),
        ),
        s1 is Read && sec_code is None ==> s2 == ReplyStep::<P>::Rejected(
            ReplyRejection::SecCode(DecodeLpstrError::NullPointer),
        ),
{
}

} // verus!
