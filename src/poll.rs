//! Waiting for a device to appear in the multiplexer's device list: a retry
//! policy and the decision taken after each enumeration.
use vstd::prelude::*;

verus! {

/// How often and how far apart the device list is read.
#[derive(Clone, Copy, Debug, PartialEq, Eq)]
pub struct RetryPolicy {
    pub max_attempts: u32,
    pub interval_ms: u64,
}

/// What one read of the device list gave.
pub enum PollEvent {
    /// The identifiers of the devices that are present.
    Listed(Vec<String>),
    /// The list could not be read.
    ListFailed,
}

/// What the waiting loop does next.
#[derive(Clone, Copy, Debug, PartialEq, Eq, Structural)]
pub enum PollAction {
    /// The device is present: stop with success.
    Found,
    /// The list could not be read: stop with failure.
    Failed,
    /// Sleep this many milliseconds, then read the list again.
    WaitAndRetry(u64),
    /// Every attempt was spent without seeing the device: stop with failure.
    GiveUp,
}

/// Twenty attempts, one second apart.
pub fn default_policy() -> (r: RetryPolicy)
    ensures
        r.max_attempts == 20,
        r.interval_ms == 1000,
{
    RetryPolicy { max_attempts: 20, interval_ms: 1000 }
}

/// `udid` is one of the listed identifiers.
pub open spec fn listed(list: Seq<String>, udid: Seq<char>) -> bool {
    exists|i: int| 0 <= i < list.len() && #[trigger] list[i]@ == udid
}

/// Whether `udid` is in `list`.
pub fn list_contains(list: &Vec<String>, udid: &str) -> (r: bool)
    ensures
        r == listed(list@, udid@),
{
    let target = String::from_str(udid);
    let mut i: usize = 0;
    while i < list.len()
        invariant
            i <= list.len(),
            target@ == udid@,
            forall|j: int| 0 <= j < i ==> #[trigger] list@[j]@ != udid@,
        decreases list.len() - i,
    {
        if list[i] == target {
            return true;
        }
        i = i + 1;
    }
    false
}

/// The decision after attempt number `attempt` (counted from zero).
pub open spec fn poll_decision(policy: RetryPolicy, attempt: nat, event: PollEvent, udid: Seq<char>) -> PollAction {
    match event {
        PollEvent::ListFailed => PollAction::Failed,
        PollEvent::Listed(list) => if listed(list@, udid) {
            PollAction::Found
        } else if attempt + 1 < policy.max_attempts {
            PollAction::WaitAndRetry(policy.interval_ms)
        } else {
            PollAction::GiveUp
        },
    }
}

/// Decides what follows attempt number `attempt` (counted from zero) of
/// waiting for `udid`, given what the device list read gave.
pub fn poll_step(policy: &RetryPolicy, attempt: u32, event: &PollEvent, udid: &str) -> (r: PollAction)
    ensures
        r == poll_decision(*policy, attempt as nat, *event, udid@),
{
    match event {
        PollEvent::ListFailed => PollAction::Failed,
        PollEvent::Listed(list) => {
            if list_contains(list, udid) {
                PollAction::Found
            } else if attempt < policy.max_attempts && attempt + 1 < policy.max_attempts {
                PollAction::WaitAndRetry(policy.interval_ms)
            } else {
                PollAction::GiveUp
            }
        },
    }
}

/// Drives the waiting loop from attempt `attempt` on, where read number `j`
/// of the device list gives `events[j]`: whether the device was found, and
/// how many reads were made in all.
pub open spec fn poll_run(policy: RetryPolicy, udid: Seq<char>, events: Seq<PollEvent>, attempt: nat) -> (bool, nat)
    decreases events.len() - attempt,
{
    if attempt >= events.len() || attempt >= policy.max_attempts {
        (false, attempt)
    } else {
        match poll_decision(policy, attempt, events[attempt as int], udid) {
            PollAction::Found => (true, attempt + 1),
            PollAction::WaitAndRetry(_) => poll_run(policy, udid, events, attempt + 1),
            _ => (false, attempt + 1),
        }
    }
}

/// Read `j` lists the device.
pub open spec fn shows(events: Seq<PollEvent>, j: int, udid: Seq<char>) -> bool {
    match events[j] {
        PollEvent::Listed(list) => listed(list@, udid),
        PollEvent::ListFailed => false,
    }
}

/// Read `j` succeeded.
pub open spec fn read_ok(events: Seq<PollEvent>, j: int) -> bool {
    events[j] is Listed
}

/// Reads `0..k` all succeeded and none of them listed the device.
pub open spec fn clear_before(events: Seq<PollEvent>, k: nat, udid: Seq<char>) -> bool {
    forall|j: int| 0 <= j < k ==> #[trigger] read_ok(events, j) && !shows(events, j, udid)
}

/// When read `k` is the first to list the device, within the attempt budget
/// and after reads that all succeeded, the loop succeeds after exactly `k + 1`
/// reads.
pub proof fn poll_stops_at_first_sighting(
    policy: RetryPolicy,
    udid: Seq<char>,
    events: Seq<PollEvent>,
    k: nat,
)
    requires
        k < policy.max_attempts,
        k < events.len(),
        shows(events, k as int, udid),
        clear_before(events, k, udid),
    ensures
        poll_run(policy, udid, events, 0) == (true, k + 1),
    decreases k,
{
    found_from(policy, udid, events, k, 0);
}

proof fn found_from(policy: RetryPolicy, udid: Seq<char>, events: Seq<PollEvent>, k: nat, a: nat)
    requires
        a <= k,
        k < policy.max_attempts,
        k < events.len(),
        shows(events, k as int, udid),
        clear_before(events, k, udid),
    ensures
        poll_run(policy, udid, events, a) == (true, k + 1),
    decreases k - a,
{
    if a < k {
        assert(read_ok(events, a as int) && !shows(events, a as int, udid));
        found_from(policy, udid, events, k, a + 1);
    }
}

/// When no read within the attempt budget lists the device, the loop fails,
/// after no more than `max_attempts` reads.
pub proof fn poll_fails_without_sighting(policy: RetryPolicy, udid: Seq<char>, events: Seq<PollEvent>)
    requires
        forall|j: int| 0 <= j < policy.max_attempts && j < events.len() ==> !shows(events, j, udid),
    ensures
        !poll_run(policy, udid, events, 0).0,
        poll_run(policy, udid, events, 0).1 <= policy.max_attempts,
{
    not_found_from(policy, udid, events, 0);
}

proof fn not_found_from(policy: RetryPolicy, udid: Seq<char>, events: Seq<PollEvent>, a: nat)
    requires
        a <= policy.max_attempts,
        forall|j: int| 0 <= j < policy.max_attempts && j < events.len() ==> !shows(events, j, udid),
    ensures
        !poll_run(policy, udid, events, a).0,
        poll_run(policy, udid, events, a).1 <= policy.max_attempts,
    decreases events.len() - a,
{
    if a < events.len() && a < policy.max_attempts {
        assert(!shows(events, a as int, udid));
        not_found_from(policy, udid, events, a + 1);
    }
}

} // verus!
