use trans2quik::types::{IsSell, Mode, Status, Trans2QuikResult, TransId};

#[test]
fn trans2quik_result_conversion_matches_reference() {
    assert_eq!(Trans2QuikResult::from(0), Trans2QuikResult::Success);
    assert_eq!(Trans2QuikResult::from(1), Trans2QuikResult::Failed);
    assert_eq!(
        Trans2QuikResult::from(2),
        Trans2QuikResult::TerminalNotFound
    );
    assert_eq!(
        Trans2QuikResult::from(3),
        Trans2QuikResult::DllVersionNotSupported
    );
    assert_eq!(
        Trans2QuikResult::from(4),
        Trans2QuikResult::AlreadyConnectedToQuik
    );
    assert_eq!(Trans2QuikResult::from(5), Trans2QuikResult::WrongSyntax);
    assert_eq!(
        Trans2QuikResult::from(6),
        Trans2QuikResult::QuikNotConnected
    );
    assert_eq!(Trans2QuikResult::from(7), Trans2QuikResult::DllNotConnected);
    assert_eq!(Trans2QuikResult::from(8), Trans2QuikResult::QuikConnected);
    assert_eq!(
        Trans2QuikResult::from(9),
        Trans2QuikResult::QuikDisconnected
    );
    assert_eq!(Trans2QuikResult::from(10), Trans2QuikResult::DllConnected);
    assert_eq!(
        Trans2QuikResult::from(11),
        Trans2QuikResult::DllDisconnected
    );
    assert_eq!(
        Trans2QuikResult::from(12),
        Trans2QuikResult::MemoryAllocationError
    );
    assert_eq!(
        Trans2QuikResult::from(13),
        Trans2QuikResult::WrongConnectionHandle
    );
    assert_eq!(
        Trans2QuikResult::from(14),
        Trans2QuikResult::WrongInputParams
    );
    assert_eq!(Trans2QuikResult::from(999), Trans2QuikResult::Unknown);
}

#[test]
fn trans2quik_result_code_roundtrip() {
    for code in 0..=14 {
        assert_eq!(Trans2QuikResult::from(code).code() as i64, code as i64);
    }
    assert_eq!(Trans2QuikResult::from(-1), Trans2QuikResult::Unknown);
    assert_eq!(Trans2QuikResult::from(15), Trans2QuikResult::Unknown);
    assert_eq!(Trans2QuikResult::Unknown.code(), 15);
    assert_eq!(
        Trans2QuikResult::from(libc::c_long::from(Trans2QuikResult::Unknown.code())),
        Trans2QuikResult::Unknown
    );
}

#[test]
fn mode_conversion() {
    assert_eq!(Mode::from(0), Mode::NewOrder);
    assert_eq!(Mode::from(1), Mode::InitialOrder);
    assert_eq!(Mode::from(2), Mode::LastOrderReceived);
    assert_eq!(Mode::from(3), Mode::Unknown);
    assert_eq!(Mode::from(-1), Mode::Unknown);
}

#[test]
fn trans_id_conversion() {
    assert_eq!(TransId::from(0), TransId::Unknown(0));
    assert_eq!(TransId::from(42), TransId::Id(42));
    assert_eq!(TransId::from(-7), TransId::Id(-7));
}

#[test]
fn is_sell_conversion() {
    assert_eq!(IsSell::from(0), IsSell::Buy);
    assert_eq!(IsSell::from(1), IsSell::Sell);
    assert_eq!(IsSell::from(2), IsSell::Unknown);
}

#[test]
fn status_conversion() {
    assert_eq!(Status::from(0), Status::Unknown);
    assert_eq!(Status::from(1), Status::Active);
    assert_eq!(Status::from(2), Status::Canceled);
    assert_eq!(Status::from(3), Status::Executed);
    assert_eq!(Status::from(4), Status::Unknown);
}
