use libc::c_long;
use trans2quik::callbacks::{
    c_long_to_i32, connection_error_message, plan_callback, CallbackPlan, Registrations, Stream, listing_next, listing_start, order_info, reply_next,
    reply_start, stream_start, trade_info, Listing, ListingField, ListingProgress,
    ListingRejection, ListingStep, OrderCall, Reading, ReplyCall, ReplyField, ReplyProgress,
    ReplyReading, ReplyRejection, ReplyStep, StreamStart, TradeCall,
};
use trans2quik::errors::{DateTimeError, DecodeLpstrError};
use trans2quik::types::{IsSell, Mode, Status, Trans2QuikResult, TransId};

fn run_listing(readings: Vec<Reading>) -> ListingStep {
    let mut step = listing_start();
    let mut readings = readings.into_iter();
    loop {
        match step {
            ListingStep::Read(_, progress) => match readings.next() {
                Some(reading) => step = listing_next(progress, reading),
                None => return ListingStep::Read(ListingField::ClassCode, progress),
            },
            done => return done,
        }
    }
}

fn good_listing() -> Listing {
    match run_listing(vec![
        Reading::Text(Some(b"TQBR".to_vec())),
        Reading::Text(Some(b"SBER".to_vec())),
        Reading::Number(20250331),
        Reading::Number(93005),
    ]) {
        ListingStep::Complete(listing) => listing,
        _ => panic!("listing must complete"),
    }
}

#[test]
fn stream_start_marks_snapshot_end_only_for_mode_two() {
    assert!(matches!(stream_start(2), StreamStart::SnapshotEnd));
    assert!(matches!(stream_start(0), StreamStart::Gather(Mode::NewOrder)));
    assert!(matches!(stream_start(1), StreamStart::Gather(Mode::InitialOrder)));
    assert!(matches!(stream_start(7), StreamStart::Gather(Mode::Unknown)));
}

#[test]
fn listing_asks_fields_in_order() {
    let step = listing_start();
    assert!(matches!(step, ListingStep::Read(ListingField::ClassCode, ListingProgress::Started)));
    let ListingStep::Read(_, progress) = step else { unreachable!() };
    let step = listing_next(progress, Reading::Text(Some(b"TQBR".to_vec())));
    assert!(matches!(step, ListingStep::Read(ListingField::SecCode, _)));
    let ListingStep::Read(_, progress) = step else { unreachable!() };
    let step = listing_next(progress, Reading::Text(Some(b"SBER".to_vec())));
    assert!(matches!(step, ListingStep::Read(ListingField::Date, _)));
    let ListingStep::Read(_, progress) = step else { unreachable!() };
    let step = listing_next(progress, Reading::Number(20250331));
    assert!(matches!(step, ListingStep::Read(ListingField::Time, _)));
    let ListingStep::Read(_, progress) = step else { unreachable!() };
    let step = listing_next(progress, Reading::Number(93005));
    assert!(matches!(step, ListingStep::Complete(_)));
}

#[test]
fn listing_gathers_decoded_and_parsed_values() {
    let listing = good_listing();
    assert_eq!(listing.class_code, "TQBR");
    assert_eq!(listing.sec_code, "SBER");
    assert_eq!(listing.date.to_string(), "2025-03-31");
    assert_eq!(listing.time.to_string(), "09:30:05");
}

#[test]
fn listing_stops_at_first_failure() {
    assert!(matches!(
        run_listing(vec![Reading::Text(None)]),
        ListingStep::Rejected(ListingRejection::ClassCode(DecodeLpstrError::NullPointer))
    ));
    assert!(matches!(
        run_listing(vec![Reading::Text(Some(b"TQBR".to_vec())), Reading::Text(None)]),
        ListingStep::Rejected(ListingRejection::SecCode(DecodeLpstrError::NullPointer))
    ));
    assert!(matches!(
        run_listing(vec![
            Reading::Text(Some(b"TQBR".to_vec())),
            Reading::Text(Some(b"SBER".to_vec())),
            Reading::Number(0),
        ]),
        ListingStep::Rejected(ListingRejection::Date(DateTimeError::InvalidDate))
    ));
    assert!(matches!(
        run_listing(vec![
            Reading::Text(Some(b"TQBR".to_vec())),
            Reading::Text(Some(b"SBER".to_vec())),
            Reading::Number(20250331),
            Reading::Number(256000),
        ]),
        ListingStep::Rejected(ListingRejection::Time(DateTimeError::ParseError(_)))
    ));
}

#[test]
fn listing_refuses_readings_of_the_wrong_kind() {
    assert!(matches!(
        run_listing(vec![Reading::Number(1)]),
        ListingStep::Rejected(ListingRejection::Mismatch(ListingField::ClassCode))
    ));
    assert!(matches!(
        run_listing(vec![
            Reading::Text(Some(b"TQBR".to_vec())),
            Reading::Text(Some(b"SBER".to_vec())),
            Reading::Text(None),
        ]),
        ListingStep::Rejected(ListingRejection::Mismatch(ListingField::Date))
    ));
}

#[test]
fn order_info_converts_codes() {
    let call = OrderCall {
        trans_id: 0,
        order_num: 12345,
        price: 301.5_f64,
        balance: 10,
        value: 3015.0_f64,
        is_sell: 1,
        status: 3,
    };
    let info = order_info(Mode::InitialOrder, call, good_listing());
    assert_eq!(info.mode, Mode::InitialOrder);
    assert_eq!(info.trans_id, TransId::Unknown(0));
    assert_eq!(info.order_num, 12345);
    assert_eq!(info.class_code, "TQBR");
    assert_eq!(info.sec_code, "SBER");
    assert_eq!(info.price, 301.5);
    assert_eq!(info.balance, 10);
    assert_eq!(info.value, 3015.0);
    assert_eq!(info.is_sell, IsSell::Sell);
    assert_eq!(info.status, Status::Executed);
    assert_eq!(info.date.to_string(), "2025-03-31");
    assert_eq!(info.time.to_string(), "09:30:05");
}

#[test]
fn trade_info_converts_codes() {
    let call = TradeCall {
        trade_num: 77,
        order_num: 12345,
        price: 301.5_f64,
        quantity: 4,
        is_sell: 0,
        value: 1206.0_f64,
    };
    let info = trade_info(Mode::NewOrder, call, good_listing());
    assert_eq!(info.mode, Mode::NewOrder);
    assert_eq!(info.trade_num, 77);
    assert_eq!(info.order_num, 12345);
    assert_eq!(info.price, 301.5);
    assert_eq!(info.quantity, 4);
    assert_eq!(info.is_sell, IsSell::Buy);
    assert_eq!(info.value, 1206.0);
    assert_eq!(info.sec_code, "SBER");
}

fn run_reply(call: &ReplyCall, readings: Vec<ReplyReading<f64>>) -> ReplyStep<f64> {
    let mut step = reply_start::<f64>();
    let mut readings = readings.into_iter();
    loop {
        match step {
            ReplyStep::Read(field, progress) => match readings.next() {
                Some(reading) => step = reply_next(call, progress, reading),
                None => return ReplyStep::Read(field, progress),
            },
            done => return done,
        }
    }
}

fn reply_call(error_code: c_long, reply_code: c_long) -> ReplyCall {
    ReplyCall {
        result_code: 0,
        error_code,
        reply_code,
        trans_id: 17,
        order_num: 555,
    }
}

#[test]
fn reply_completes_with_codes_unchanged() {
    let call = reply_call(-3, 3);
    let step = run_reply(
        &call,
        vec![
            ReplyReading::Text(Some(vec![0xCE, 0xCA])),
            ReplyReading::Text(Some(b"SBER".to_vec())),
            ReplyReading::Price(301.5),
        ],
    );
    let ReplyStep::Complete(info) = step else { panic!("reply must complete") };
    assert_eq!(info.trans2quik_result, Trans2QuikResult::Success);
    assert_eq!(info.error_code, -3);
    assert_eq!(info.reply_code, 3);
    assert_eq!(info.trans_id, TransId::Id(17));
    assert_eq!(info.order_num, 555);
    assert_eq!(info.reply_message, "ОК");
    assert_eq!(info.sec_code, "SBER");
    assert_eq!(info.price, 301.5);
}

#[test]
fn reply_asks_fields_in_order() {
    let call = reply_call(0, 0);
    assert!(matches!(
        reply_start::<f64>(),
        ReplyStep::Read(ReplyField::ReplyMessage, ReplyProgress::Started)
    ));
    assert!(matches!(
        run_reply(&call, vec![ReplyReading::Text(Some(b"x".to_vec()))]),
        ReplyStep::Read(ReplyField::SecCode, ReplyProgress::Message(_))
    ));
    assert!(matches!(
        run_reply(
            &call,
            vec![
                ReplyReading::Text(Some(b"x".to_vec())),
                ReplyReading::Text(Some(b"y".to_vec()))
            ]
        ),
        ReplyStep::Read(ReplyField::Price, ReplyProgress::MessageAndSecCode(_, _))
    ));
}

#[test]
fn reply_is_dropped_on_failures() {
    let call = reply_call(0, 0);
    assert!(matches!(
        run_reply(&call, vec![ReplyReading::Text(None)]),
        ReplyStep::Rejected(ReplyRejection::ReplyMessage(DecodeLpstrError::NullPointer))
    ));
    assert!(matches!(
        run_reply(
            &call,
            vec![ReplyReading::Text(Some(b"x".to_vec())), ReplyReading::Text(None)]
        ),
        ReplyStep::Rejected(ReplyRejection::SecCode(DecodeLpstrError::NullPointer))
    ));
    assert!(matches!(
        run_reply(&call, vec![ReplyReading::Price(1.0)]),
        ReplyStep::Rejected(ReplyRejection::Mismatch(ReplyField::ReplyMessage))
    ));
}

#[test]
fn reply_is_dropped_when_codes_do_not_fit_i32() {
    let big: i64 = i64::from(i32::MAX) + 1;
    if let Ok(big) = c_long::try_from(big) {
        let readings = || {
            vec![
                ReplyReading::Text(Some(b"x".to_vec())),
                ReplyReading::Text(Some(b"y".to_vec())),
                ReplyReading::Price(1.0),
            ]
        };
        assert!(matches!(
            run_reply(&reply_call(big, 0), readings()),
            ReplyStep::Rejected(ReplyRejection::ErrorCode(code)) if code == big
        ));
        assert!(matches!(
            run_reply(&reply_call(0, big), readings()),
            ReplyStep::Rejected(ReplyRejection::ReplyCode(code)) if code == big
        ));
        assert!(matches!(
            run_reply(&reply_call(big, big), readings()),
            ReplyStep::Rejected(ReplyRejection::ErrorCode(_))
        ));
    }
}

#[test]
fn c_long_to_i32_narrows_when_it_fits() {
    assert_eq!(c_long_to_i32(5), Some(5));
    assert_eq!(c_long_to_i32(-5), Some(-5));
    assert_eq!(c_long_to_i32(c_long::from(i32::MIN)), Some(i32::MIN));
    assert_eq!(c_long_to_i32(c_long::from(i32::MAX)), Some(i32::MAX));
    if let Ok(big) = c_long::try_from(i64::from(i32::MAX) + 1) {
        assert_eq!(c_long_to_i32(big), None);
    }
}

#[test]
fn connection_error_message_reports_missing_or_bad_text() {
    assert_eq!(connection_error_message(None), "error_message is null");
    assert_eq!(connection_error_message(Some(&[0xEF, 0xBB, 0xBF, 0xFF])), "п»їя");
    assert_eq!(connection_error_message(Some(b"lost")), "lost");
    assert_eq!(connection_error_message(Some(&[0xCE, 0xCA])), "ОК");
}

#[test]
fn plan_callback_ignores_everything_without_api() {
    let registrations = Registrations {
        api_installed: false,
        transaction_reply_sender: true,
        order_status_sender: true,
        trade_status_sender: true,
    };
    for stream in [Stream::TransactionReplies, Stream::Orders, Stream::Trades] {
        assert_eq!(plan_callback(&registrations, stream), CallbackPlan::Ignore);
    }
}

#[test]
fn plan_callback_delivers_only_to_registered_streams() {
    let registrations = Registrations {
        api_installed: true,
        transaction_reply_sender: false,
        order_status_sender: true,
        trade_status_sender: false,
    };
    assert_eq!(
        plan_callback(&registrations, Stream::TransactionReplies),
        CallbackPlan::Handle { deliver: false }
    );
    assert_eq!(
        plan_callback(&registrations, Stream::Orders),
        CallbackPlan::Handle { deliver: true }
    );
    assert_eq!(
        plan_callback(&registrations, Stream::Trades),
        CallbackPlan::Handle { deliver: false }
    );
}

#[test]
fn registrations_follow_install_and_register() {
    let mut registrations = Registrations::new();
    assert_eq!(plan_callback(&registrations, Stream::Orders), CallbackPlan::Ignore);
    registrations.register_sender(Stream::Orders);
    assert_eq!(plan_callback(&registrations, Stream::Orders), CallbackPlan::Ignore);
    registrations.install_api();
    assert_eq!(
        plan_callback(&registrations, Stream::Orders),
        CallbackPlan::Handle { deliver: true }
    );
    assert_eq!(
        plan_callback(&registrations, Stream::Trades),
        CallbackPlan::Handle { deliver: false }
    );
    registrations.register_sender(Stream::TransactionReplies);
    assert_eq!(
        plan_callback(&registrations, Stream::TransactionReplies),
        CallbackPlan::Handle { deliver: true }
    );
    assert_eq!(
        plan_callback(&registrations, Stream::Trades),
        CallbackPlan::Handle { deliver: false }
    );
}
