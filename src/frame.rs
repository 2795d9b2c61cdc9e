//! The text frames sent to the local USB multiplexer to add or remove a
//! network device record.
use vstd::prelude::*;

verus! {

/// The service name announced for a registered device.
pub const SERVICE_NAME: &'static str = "12:34:56:78:90:AB@fe80::de52:85ff:fece:c422._apple-mobdev2._tcp";

/// Four newline-terminated fields: flag, UDID, service name, address.
pub open spec fn frame_spec(flag: Seq<char>, udid: Seq<char>, service: Seq<char>, ip: Seq<char>) -> Seq<char> {
    flag + seq!['\n'] + udid + seq!['\n'] + service + seq!['\n'] + ip + seq!['\n']
}

/// The frame that registers `udid` at address `ip`.
pub open spec fn register_frame(udid: Seq<char>, ip: Seq<char>) -> Seq<char> {
    frame_spec(seq!['1'], udid, SERVICE_NAME@, ip)
}

/// The frame that unregisters `udid`; the multiplexer ignores the last two fields.
pub open spec fn unregister_frame(udid: Seq<char>) -> Seq<char> {
    frame_spec(seq!['0'], udid, seq!['y', 'o', 'u', 'r'], seq!['m', 'o', 'm'])
}

fn build_frame(flag: &str, udid: &str, service: &str, ip: &str) -> (r: String)
    ensures
        r@ == frame_spec(flag@, udid@, service@, ip@),
{
    let nl = "\n";
    proof {
        reveal_strlit("\n");
    }
    let mut r = String::from_str(flag);
    r.append(nl);
    r.append(udid);
    r.append(nl);
    r.append(service);
    r.append(nl);
    r.append(ip);
    r.append(nl);
    r
}

/// The registration frame for `udid` at `ip`.
pub fn register_message(udid: &str, ip: &str) -> (r: String)
    ensures
        r@ == register_frame(udid@, ip@),
{
    proof {
        reveal_strlit("1");
    }
    build_frame("1", udid, SERVICE_NAME, ip)
}

/// The unregistration frame for `udid`.
pub fn unregister_message(udid: &str) -> (r: String)
    ensures
        r@ == unregister_frame(udid@),
{
    proof {
        reveal_strlit("0");
        reveal_strlit("your");
        reveal_strlit("mom");
    }
    build_frame("0", udid, "your", "mom")
}

} // verus!
