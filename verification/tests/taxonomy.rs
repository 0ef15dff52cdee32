//! Tests of the error taxonomy, the caution-level order, and the fault-code
//! display format.

use diag_core::commands::CautionLevel;
use diag_core::dtc::{DTCState, DTC};
use diag_core::errors::{DecodedError, ProtocolError};
use diag_core::iface::ComServerError;
use diag_core::text::{bool_text, u64_to_dec};

fn requires_send_and_sync<T: Send + Sync>() {}

#[test]
fn protocol_error_crosses_execution_contexts() {
    // The taxonomy is owned plain data throughout, so transferability is
    // structural, not asserted.
    requires_send_and_sync::<ProtocolError>();
    requires_send_and_sync::<DTC>();
}

#[test]
fn caution_level_order_holds() {
    assert!(CautionLevel::Harmless < CautionLevel::Warn);
    assert!(CautionLevel::Warn < CautionLevel::Alert);
    assert!(CautionLevel::Harmless < CautionLevel::Alert);
    assert!(CautionLevel::Alert > CautionLevel::Warn);
    assert!(CautionLevel::Warn > CautionLevel::Harmless);
    assert!(!(CautionLevel::Alert < CautionLevel::Alert));
    assert!(CautionLevel::Warn <= CautionLevel::Warn);
    assert!(CautionLevel::Warn >= CautionLevel::Warn);
    assert_eq!(CautionLevel::Warn, CautionLevel::Warn);
    assert_ne!(CautionLevel::Harmless, CautionLevel::Alert);
}

#[test]
fn caution_levels_sort_by_risk() {
    let mut levels = vec![
        CautionLevel::Alert,
        CautionLevel::Harmless,
        CautionLevel::Warn,
        CautionLevel::Harmless,
    ];
    levels.sort();
    assert_eq!(
        levels,
        vec![CautionLevel::Harmless, CautionLevel::Harmless, CautionLevel::Warn, CautionLevel::Alert]
    );
}

#[test]
fn caution_level_positions() {
    assert_eq!(CautionLevel::Harmless.level(), 0);
    assert_eq!(CautionLevel::Warn.level(), 1);
    assert_eq!(CautionLevel::Alert.level(), 2);
}

#[test]
fn comm_error_text_round_trip() {
    let e = ComServerError { err_code: 42, err_desc: String::from("bus unplugged") };
    let own_text = e.get_text();
    let wrapped = ProtocolError::from(e);
    assert_eq!(wrapped.get_text(), own_text);
}

#[test]
fn comm_error_text_content() {
    let e = ComServerError { err_code: 7, err_desc: String::from("device lost") };
    assert_eq!(e.get_text(), "Communication API error 7 (device lost)");
}

#[test]
fn invalid_response_size_text() {
    let e = ProtocolError::InvalidResponseSize { expect: 5, actual: 3 };
    assert_eq!(e.get_text(), "Expected 5 bytes, got 3 bytes");
}

#[test]
fn invalid_response_size_text_large_values() {
    let e = ProtocolError::InvalidResponseSize { expect: 1000, actual: 0 };
    assert_eq!(e.get_text(), "Expected 1000 bytes, got 0 bytes");
}

#[test]
fn timeout_text() {
    assert_eq!(ProtocolError::Timeout.get_text(), "Communication timeout");
}

#[test]
fn custom_error_text() {
    let e = ProtocolError::CustomError(String::from("something odd"));
    assert_eq!(e.get_text(), "something odd");
}

#[test]
fn protocol_error_text_is_decoded_desc() {
    let e = ProtocolError::ProtocolError(DecodedError {
        nrc: 0x22,
        desc: String::from("conditions not correct"),
        help: None,
    });
    assert_eq!(e.get_text(), "conditions not correct");
}

#[test]
fn is_timeout_only_for_timeout() {
    assert!(ProtocolError::Timeout.is_timeout());
    assert!(!ProtocolError::CustomError(String::from("x")).is_timeout());
    assert!(!ProtocolError::InvalidResponseSize { expect: 5, actual: 3 }.is_timeout());
    assert!(
        !ProtocolError::CommError(ComServerError { err_code: 0, err_desc: String::new() })
            .is_timeout()
    );
    assert!(
        !ProtocolError::ProtocolError(DecodedError {
            nrc: 0x10,
            desc: String::new(),
            help: None,
        })
        .is_timeout()
    );
}

#[test]
fn dtc_display_format() {
    let dtc = DTC {
        error: String::from("P0101"),
        state: DTCState::Stored,
        check_engine_on: true,
        id: 0x0101,
    };
    assert_eq!(dtc.get_text(), "P0101 - State: Stored, Check engine light on?: true");
}

#[test]
fn dtc_display_other_states() {
    let mut dtc = DTC {
        error: String::from("U0420"),
        state: DTCState::Pending,
        check_engine_on: false,
        id: 0x0420,
    };
    assert_eq!(dtc.get_text(), "U0420 - State: Pending, Check engine light on?: false");
    dtc.state = DTCState::Permanent;
    assert_eq!(dtc.get_text(), "U0420 - State: Permanent, Check engine light on?: false");
    dtc.state = DTCState::Inactive;
    assert_eq!(dtc.get_text(), "U0420 - State: None, Check engine light on?: false");
}

#[test]
fn decimal_rendering() {
    assert_eq!(u64_to_dec(0), "0");
    assert_eq!(u64_to_dec(9), "9");
    assert_eq!(u64_to_dec(10), "10");
    assert_eq!(u64_to_dec(305), "305");
    assert_eq!(u64_to_dec(u64::MAX), "18446744073709551615");
}

#[test]
fn bool_rendering() {
    assert_eq!(bool_text(true), "true");
    assert_eq!(bool_text(false), "false");
}
