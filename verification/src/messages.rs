//! The exact console lines of the request client: the target URL, the
//! per-iteration announcement, and the termination message.

use vstd::prelude::*;
use vstd::string::StringExecFns;
use crate::decimal::{dec_digits, u64_to_dec};

verus! {

/// `sub` occurs in `s` as one contiguous run.
pub open spec fn contains_seq(s: Seq<char>, sub: Seq<char>) -> bool {
    exists|i: int|
        0 <= i && i + sub.len() <= s.len() && #[trigger] s.subrange(i, i + sub.len() as int) == sub
}

/// The endpoint every request targets: the base URL with the fixed file path.
pub open spec fn request_url_spec(base_url: Seq<char>) -> Seq<char> {
    base_url + "/testfile.txt"@
}

pub fn request_url(base_url: &str) -> (url: String)
    ensures
        url@ == request_url_spec(base_url@),
{
    base_url.to_owned().concat("/testfile.txt")
}

/// The line announcing one iteration: its index and the backend it targets.
pub open spec fn announcement_spec(counter: u64, backend_url: Seq<char>) -> Seq<char> {
    "Sending request #"@ + dec_digits(counter as nat) + " to "@ + backend_url + "..."@
}

pub fn request_announcement(counter: u64, backend_url: &str) -> (line: String)
    ensures
        line@ == announcement_spec(counter, backend_url@),
{
    let mut line = "Sending request #".to_owned();
    let digits = u64_to_dec(counter);
    line.append(digits.as_str());
    line.append(" to ");
    line.append(backend_url);
    line.append("...");
    proof {
        assert(line@ =~= announcement_spec(counter, backend_url@));
    }
    line
}

/// The line printed once all iterations have run, naming the configured
/// maximum.
pub open spec fn termination_message_spec(max_requests: u64) -> Seq<char> {
    "Terminated: exceeded "@ + dec_digits(max_requests as nat) + " requests"@
}

pub fn termination_message(max_requests: u64) -> (line: String)
    ensures
        line@ == termination_message_spec(max_requests),
        contains_seq(line@, dec_digits(max_requests as nat)),
{
    let mut line = "Terminated: exceeded ".to_owned();
    let digits = u64_to_dec(max_requests);
    line.append(digits.as_str());
    line.append(" requests");
    proof {
        assert(line@ =~= termination_message_spec(max_requests));
        reveal_strlit("Terminated: exceeded ");
        let prefix_len = "Terminated: exceeded "@.len() as int;
        let d = dec_digits(max_requests as nat);
        assert(line@.subrange(prefix_len, prefix_len + d.len() as int) =~= d);
    }
    line
}

} // verus!
