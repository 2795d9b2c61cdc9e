//! The decisions of the pairing flow: which step comes after each outcome.
//! The caller performs each step (enumerating devices, reading the code,
//! reading or regenerating the pair record, uploading it) and reports what
//! came of it.
use vstd::prelude::*;
use crate::response::UploadVerdict;

verus! {

/// A step of the pairing flow.
#[derive(Clone, Copy, Debug, PartialEq, Eq, Structural)]
pub enum Step {
    /// Enumerate the connected devices.
    ListDevices,
    /// Ask for a device to be plugged in (or for the device service to be
    /// started), wait for a key, then enumerate again.
    WaitThenListDevices,
    /// Read the one-time pairing code.
    ReadCode,
    /// Read the stored pair record of the selected device.
    ReadRecord,
    /// Upload the pair record to the pairing service.
    Upload,
    /// Open a lockdown session with the device, to regenerate the record.
    OpenLockdown,
    /// Turn on wireless debugging on the device.
    EnableWifiDebugging,
    /// Perform the pairing handshake.
    Pair,
    /// Ask for the device to be unlocked, wait for a key, then pair again.
    WaitThenPair,
    /// The record was accepted: ask for the last confirmation and stop.
    ConfirmAndFinish,
    /// The device has no passcode: say so and stop.
    PasscodeRequired,
}

/// Why turning on wireless debugging failed.
#[derive(Clone, Copy, Debug, PartialEq, Eq, Structural)]
pub enum WifiFailure {
    /// The lockdown service's unknown error, which it gives when the device
    /// has no passcode.
    PasscodeMissing,
    /// Any other lockdown error.
    Other,
}

/// What came of a step.
#[derive(Clone, Debug)]
pub enum Outcome {
    /// The devices found, each by whether it is attached over the network.
    Devices(Vec<bool>),
    /// The device list could not be read, as when no multiplexer answers;
    /// the user is asked to fix that and the list is read again.
    DeviceListFailed,
    /// The pairing code was read.
    CodeEntered,
    /// A stored pair record was read and made ready for upload.
    RecordFound,
    /// No stored pair record could be read.
    RecordMissing,
    /// The service answered the upload.
    Uploaded(UploadVerdict),
    /// The upload could not be sent.
    UploadFailed,
    /// A lockdown session is open.
    LockdownOpened,
    /// No lockdown session could be opened.
    LockdownFailed,
    /// Wireless debugging is on.
    WifiEnabled,
    /// Wireless debugging could not be turned on.
    WifiFailed(WifiFailure),
    /// The pairing handshake succeeded.
    Paired,
    /// The pairing handshake failed.
    PairFailed,
}

/// Steps after which the flow stops.
pub open spec fn is_terminal(s: Step) -> bool {
    s is ConfirmAndFinish || s is PasscodeRequired
}

/// Some device is attached by USB.
pub open spec fn has_usb_device(network: Seq<bool>) -> bool {
    exists|i: int| 0 <= i < network.len() && !#[trigger] network[i]
}

/// The step after `s` has given `o`. An outcome that does not belong to `s`
/// repeats `s`, and a final step stays final.
pub open spec fn transition(s: Step, o: Outcome) -> Step {
    match (s, o) {
        (Step::ListDevices, Outcome::Devices(v)) | (Step::WaitThenListDevices, Outcome::Devices(v)) =>
            if has_usb_device(v@) {
                Step::ReadCode
            } else {
                Step::WaitThenListDevices
            },
        (Step::ListDevices, Outcome::DeviceListFailed) | (Step::WaitThenListDevices, Outcome::DeviceListFailed) =>
            Step::WaitThenListDevices,
        (Step::ReadCode, Outcome::CodeEntered) => Step::ReadRecord,
        (Step::ReadRecord, Outcome::RecordFound) => Step::Upload,
        (Step::ReadRecord, Outcome::RecordMissing) => Step::OpenLockdown,
        (Step::Upload, Outcome::Uploaded(UploadVerdict::Paired)) => Step::ConfirmAndFinish,
        (Step::Upload, Outcome::Uploaded(_)) | (Step::Upload, Outcome::UploadFailed) => Step::OpenLockdown,
        (Step::OpenLockdown, Outcome::LockdownOpened) => Step::EnableWifiDebugging,
        (Step::OpenLockdown, Outcome::LockdownFailed) => Step::ReadRecord,
        (Step::EnableWifiDebugging, Outcome::WifiEnabled) => Step::Pair,
        (Step::EnableWifiDebugging, Outcome::WifiFailed(WifiFailure::PasscodeMissing)) => Step::PasscodeRequired,
        (Step::EnableWifiDebugging, Outcome::WifiFailed(WifiFailure::Other)) => Step::ReadRecord,
        (Step::Pair, Outcome::Paired) | (Step::WaitThenPair, Outcome::Paired) => Step::ReadRecord,
        (Step::Pair, Outcome::PairFailed) | (Step::WaitThenPair, Outcome::PairFailed) => Step::WaitThenPair,
        _ => s,
    }
}

/// The first device attached by USB, if any.
pub fn first_usb_device(network: &Vec<bool>) -> (r: Option<usize>)
    ensures
        r is None <==> !has_usb_device(network@),
        r matches Some(i) ==> i < network.len() && !network@[i as int]
            && forall|j: int| 0 <= j < i ==> #[trigger] network@[j],
{
    let mut i: usize = 0;
    while i < network.len()
        invariant
            i <= network.len(),
            forall|j: int| 0 <= j < i ==> #[trigger] network@[j],
        decreases network.len() - i,
    {
        if !network[i] {
            return Some(i);
        }
        i = i + 1;
    }
    None
}

/// The step that follows `s` once it has given `o`.
pub fn next_step(s: Step, o: &Outcome) -> (r: Step)
    ensures
        r == transition(s, *o),
{
    if s == Step::ConfirmAndFinish || s == Step::PasscodeRequired {
        return s;
    }
    match o {
        Outcome::Devices(v) => {
            if s == Step::ListDevices || s == Step::WaitThenListDevices {
                if first_usb_device(v).is_some() {
                    Step::ReadCode
                } else {
                    Step::WaitThenListDevices
                }
            } else {
                s
            }
        },
        Outcome::DeviceListFailed => {
            if s == Step::ListDevices || s == Step::WaitThenListDevices {
                Step::WaitThenListDevices
            } else {
                s
            }
        },
        Outcome::CodeEntered => if s == Step::ReadCode { Step::ReadRecord } else { s },
        Outcome::RecordFound => if s == Step::ReadRecord { Step::Upload } else { s },
        Outcome::RecordMissing => if s == Step::ReadRecord { Step::OpenLockdown } else { s },
        Outcome::Uploaded(v) => {
            if s == Step::Upload {
                match v {
                    UploadVerdict::Paired => Step::ConfirmAndFinish,
                    _ => Step::OpenLockdown,
                }
            } else {
                s
            }
        },
        Outcome::UploadFailed => if s == Step::Upload { Step::OpenLockdown } else { s },
        Outcome::LockdownOpened => if s == Step::OpenLockdown { Step::EnableWifiDebugging } else { s },
        Outcome::LockdownFailed => if s == Step::OpenLockdown { Step::ReadRecord } else { s },
        Outcome::WifiEnabled => if s == Step::EnableWifiDebugging { Step::Pair } else { s },
        Outcome::WifiFailed(f) => {
            if s == Step::EnableWifiDebugging {
                match f {
                    WifiFailure::PasscodeMissing => Step::PasscodeRequired,
                    WifiFailure::Other => Step::ReadRecord,
                }
            } else {
                s
            }
        },
        Outcome::Paired => if s == Step::Pair || s == Step::WaitThenPair { Step::ReadRecord } else { s },
        Outcome::PairFailed => if s == Step::Pair || s == Step::WaitThenPair { Step::WaitThenPair } else { s },
    }
}

/// The step reached from `s` when the steps give the outcomes `os` in turn.
pub open spec fn run(s: Step, os: Seq<Outcome>) -> Step
    decreases os.len(),
{
    if os.len() == 0 {
        s
    } else {
        run(transition(s, os[0]), os.drop_first())
    }
}

/// A final step stays final, whatever is reported after it.
pub proof fn final_step_is_kept(s: Step, os: Seq<Outcome>)
    requires
        is_terminal(s),
    ensures
        run(s, os) == s,
    decreases os.len(),
{
    if os.len() > 0 {
        final_step_is_kept(s, os.drop_first());
    }
}

/// An upload that the service accepts leads to the last confirmation, and
/// the flow stops there, whatever is reported afterwards.
pub proof fn accepted_upload_finishes(rest: Seq<Outcome>)
    ensures
        transition(Step::Upload, Outcome::Uploaded(UploadVerdict::Paired)) == Step::ConfirmAndFinish,
        run(Step::Upload, seq![Outcome::Uploaded(UploadVerdict::Paired)] + rest) == Step::ConfirmAndFinish,
{
    let os = seq![Outcome::Uploaded(UploadVerdict::Paired)] + rest;
    assert(os.drop_first() =~= rest);
    final_step_is_kept(Step::ConfirmAndFinish, rest);
}

/// An upload that the service refuses, with any message, or whose answer
/// cannot be read, or that could not be sent, goes back to regenerating the
/// pair record.
pub proof fn refused_upload_regenerates(v: UploadVerdict)
    requires
        !(v is Paired),
    ensures
        transition(Step::Upload, Outcome::Uploaded(v)) == Step::OpenLockdown,
        transition(Step::Upload, Outcome::UploadFailed) == Step::OpenLockdown,
{
}

/// The lockdown service's unknown error while turning on wireless debugging
/// ends the flow: no pairing handshake follows, whatever is reported after.
pub proof fn passcode_error_stops_before_pairing(rest: Seq<Outcome>)
    ensures
        run(Step::EnableWifiDebugging, seq![Outcome::WifiFailed(WifiFailure::PasscodeMissing)] + rest)
            == Step::PasscodeRequired,
        forall|k: int| 0 <= k <= rest.len() ==> #[trigger] run(
            Step::EnableWifiDebugging,
            seq![Outcome::WifiFailed(WifiFailure::PasscodeMissing)] + rest.take(k),
        ) != Step::Pair,
{
    let os = seq![Outcome::WifiFailed(WifiFailure::PasscodeMissing)] + rest;
    assert(os.drop_first() =~= rest);
    final_step_is_kept(Step::PasscodeRequired, rest);
    assert forall|k: int| 0 <= k <= rest.len() implies #[trigger] run(
        Step::EnableWifiDebugging,
        seq![Outcome::WifiFailed(WifiFailure::PasscodeMissing)] + rest.take(k),
    ) != Step::Pair by {
        let ok = seq![Outcome::WifiFailed(WifiFailure::PasscodeMissing)] + rest.take(k);
        assert(ok.drop_first() =~= rest.take(k));
        final_step_is_kept(Step::PasscodeRequired, rest.take(k));
    }
}

} // verus!
