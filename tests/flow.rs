use jitstreamer_pair::{
    first_usb_device, interpret_response, next_step, verdict_of, Outcome, Step, UploadVerdict,
    WifiFailure,
};

#[test]
fn accepted_response_finishes_after_confirmation() {
    let v = interpret_response("{\"success\":true}");
    assert!(matches!(v, UploadVerdict::Paired));
    let s = next_step(Step::Upload, &Outcome::Uploaded(v));
    assert_eq!(s, Step::ConfirmAndFinish);
    assert_eq!(next_step(s, &Outcome::RecordFound), Step::ConfirmAndFinish);
}

#[test]
fn refused_response_reports_message_and_regenerates() {
    let v = interpret_response("{\"success\":false,\"message\":\"x\"}");
    match &v {
        UploadVerdict::Rejected(m) => assert_eq!(m, "x"),
        _ => panic!("expected a refusal"),
    }
    assert_eq!(next_step(Step::Upload, &Outcome::Uploaded(v)), Step::OpenLockdown);
}

#[test]
fn unreadable_response_regenerates() {
    let v = interpret_response("<html>bad gateway</html>");
    assert!(matches!(v, UploadVerdict::Unreadable));
    assert_eq!(next_step(Step::Upload, &Outcome::Uploaded(v)), Step::OpenLockdown);
    assert_eq!(next_step(Step::Upload, &Outcome::UploadFailed), Step::OpenLockdown);
}

#[test]
fn response_without_boolean_success_is_refused() {
    match interpret_response("{\"success\":\"yes\"}") {
        UploadVerdict::Rejected(m) => assert_eq!(m, ""),
        _ => panic!("expected a refusal"),
    }
}

#[test]
fn verdict_cases() {
    assert!(matches!(verdict_of(false, Some(true), None), UploadVerdict::Unreadable));
    assert!(matches!(verdict_of(true, Some(true), None), UploadVerdict::Paired));
    match verdict_of(true, Some(false), Some("no".to_string())) {
        UploadVerdict::Rejected(m) => assert_eq!(m, "no"),
        _ => panic!("expected a refusal"),
    }
}

#[test]
fn passcode_error_ends_without_pairing() {
    let s = next_step(
        Step::EnableWifiDebugging,
        &Outcome::WifiFailed(WifiFailure::PasscodeMissing),
    );
    assert_eq!(s, Step::PasscodeRequired);
    assert_eq!(next_step(s, &Outcome::WifiEnabled), Step::PasscodeRequired);
    assert_eq!(next_step(s, &Outcome::LockdownOpened), Step::PasscodeRequired);
}

#[test]
fn other_wifi_error_retries_from_record() {
    assert_eq!(
        next_step(Step::EnableWifiDebugging, &Outcome::WifiFailed(WifiFailure::Other)),
        Step::ReadRecord
    );
    assert_eq!(next_step(Step::EnableWifiDebugging, &Outcome::WifiEnabled), Step::Pair);
}

#[test]
fn device_selection_skips_network_devices() {
    assert_eq!(first_usb_device(&vec![true, false, false]), Some(1));
    assert_eq!(first_usb_device(&vec![true, true]), None);
    assert_eq!(first_usb_device(&Vec::new()), None);
    assert_eq!(next_step(Step::ListDevices, &Outcome::Devices(vec![true])), Step::WaitThenListDevices);
    assert_eq!(next_step(Step::ListDevices, &Outcome::Devices(Vec::new())), Step::WaitThenListDevices);
    assert_eq!(next_step(Step::WaitThenListDevices, &Outcome::Devices(vec![false])), Step::ReadCode);
    assert_eq!(next_step(Step::ListDevices, &Outcome::DeviceListFailed), Step::WaitThenListDevices);
    assert_eq!(
        next_step(Step::WaitThenListDevices, &Outcome::DeviceListFailed),
        Step::WaitThenListDevices
    );
}

#[test]
fn record_and_pairing_steps() {
    assert_eq!(next_step(Step::ReadCode, &Outcome::CodeEntered), Step::ReadRecord);
    assert_eq!(next_step(Step::ReadRecord, &Outcome::RecordFound), Step::Upload);
    assert_eq!(next_step(Step::ReadRecord, &Outcome::RecordMissing), Step::OpenLockdown);
    assert_eq!(next_step(Step::OpenLockdown, &Outcome::LockdownFailed), Step::ReadRecord);
    assert_eq!(next_step(Step::OpenLockdown, &Outcome::LockdownOpened), Step::EnableWifiDebugging);
    assert_eq!(next_step(Step::Pair, &Outcome::PairFailed), Step::WaitThenPair);
    assert_eq!(next_step(Step::WaitThenPair, &Outcome::Paired), Step::ReadRecord);
}

#[test]
fn mismatched_outcome_repeats_step() {
    assert_eq!(next_step(Step::ReadCode, &Outcome::Paired), Step::ReadCode);
}

#[test]
fn refusal_without_message_has_empty_text() {
    match interpret_response("{\"success\":false}") {
        UploadVerdict::Rejected(m) => assert_eq!(m, ""),
        _ => panic!("expected a refusal"),
    }
}

#[test]
fn non_object_answer_is_refused() {
    match interpret_response("[true]") {
        UploadVerdict::Rejected(m) => assert_eq!(m, ""),
        _ => panic!("expected a refusal"),
    }
    match interpret_response("{\"success\":true,\"message\":\"ok\"} trailing") {
        UploadVerdict::Unreadable => {}
        _ => panic!("expected an unreadable answer"),
    }
}
