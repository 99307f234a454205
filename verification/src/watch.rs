//! Watching for render requests: which notifications trigger a render, the
//! notification endpoint, and the back-off between reconnection attempts.

use vstd::prelude::*;
use vstd::string::StringExecFns;

use crate::text::{ascii_lower, chars_of, same_text, trim, trim_spec};

verus! {

/// What a notification asks the watcher to do.
#[derive(Clone, Copy, Debug, PartialEq, Eq, Structural)]
pub enum WatchAction {
    /// Render the models again.
    Render,
    /// A render of another schema; ignored.
    ResourceMismatch,
    /// A render, but no schema id is configured to compare with.
    MissingSchemaId,
    /// Some other event; ignored.
    Unhandled,
}

/// Whether two texts are equal ignoring ASCII case, as
/// `str::eq_ignore_ascii_case` tests them.
pub open spec fn eq_ignore_ascii_case_spec(a: Seq<char>, b: Seq<char>) -> bool {
    a.len() == b.len() && forall|i: int| 0 <= i < a.len() ==> ascii_lower(a[i]) == ascii_lower(b[i])
}

/// A character with ASCII upper-case letters made lower-case.
fn to_ascii_lower(c: char) -> (r: char)
    ensures
        r == ascii_lower(c),
{
    if 'A' <= c && c <= 'Z' {
        ((c as u8) + 32) as char
    } else {
        c
    }
}

/// Whether two texts are equal ignoring ASCII case.
pub fn eq_ignore_ascii_case(a: &str, b: &str) -> (r: bool)
    ensures
        r == eq_ignore_ascii_case_spec(a@, b@),
{
    let x = chars_of(a);
    let y = chars_of(b);
    if x.len() != y.len() {
        return false;
    }
    let mut i: usize = 0;
    while i < x.len()
        invariant
            x@ == a@,
            y@ == b@,
            x@.len() == y@.len(),
            i <= x@.len(),
            forall|j: int| 0 <= j < i ==> ascii_lower(x@[j]) == ascii_lower(y@[j]),
        decreases x.len() - i,
    {
        if to_ascii_lower(x[i]) != to_ascii_lower(y[i]) {
            return false;
        }
        i += 1;
    }
    true
}

/// What a notification with `event` about `resource_id` asks for, given the
/// configured schema id.
pub open spec fn watch_action_spec(event: Seq<char>, resource_id: Seq<char>, schema_id: Option<
    Seq<char>,
>) -> WatchAction {
    if eq_ignore_ascii_case_spec(trim_spec(event), "RENDER"@) {
        match schema_id {
            Some(s) => if resource_id == s {
                WatchAction::Render
            } else {
                WatchAction::ResourceMismatch
            },
            None => WatchAction::MissingSchemaId,
        }
    } else {
        WatchAction::Unhandled
    }
}

/// What a notification asks for: a render when its event is `RENDER` in
/// any ASCII case, surrounded by any white space, and it names the
/// configured schema.
pub fn watch_action(event: &str, resource_id: &str, schema_id: Option<&String>) -> (a: WatchAction)
    ensures
        a == watch_action_spec(
            event@,
            resource_id@,
            match schema_id {
                Some(s) => Some(s@),
                None => None,
            },
        ),
{
    let ev = trim(event);
    if eq_ignore_ascii_case(ev.as_str(), "RENDER") {
        match schema_id {
            Some(s) => if same_text(resource_id, s.as_str()) {
                WatchAction::Render
            } else {
                WatchAction::ResourceMismatch
            },
            None => WatchAction::MissingSchemaId,
        }
    } else {
        WatchAction::Unhandled
    }
}

/// The notification endpoint of a workspace, authenticated by `token`.
pub open spec fn watch_url_spec(sub: Seq<char>, token: Seq<char>) -> Seq<char> {
    "wss://api.gingersociety.org/notification/ws/workspace_"@ + sub + "?token="@ + token
}

/// The notification endpoint of the workspace of user `sub`.
pub fn watch_url(sub: &str, token: &str) -> (u: String)
    ensures
        u@ == watch_url_spec(sub@, token@),
{
    "wss://api.gingersociety.org/notification/ws/workspace_".to_string().concat(sub).concat(
        "?token=",
    ).concat(token)
}

/// Two to the power `e`.
pub open spec fn pow2_spec(e: nat) -> nat
    decreases e,
{
    if e == 0 {
        1
    } else {
        2 * pow2_spec((e - 1) as nat)
    }
}

/// The longest wait between attempts, as a power of two seconds.
pub const MAX_BACKOFF_EXPONENT: u32 = 5;

/// The wait before reconnecting after the `attempt`-th failed attempt:
/// doubling from two seconds up to thirty-two.
pub fn reconnect_delay_secs(attempt: u32) -> (secs: u64)
    ensures
        secs == pow2_spec(vstd::math::min(attempt as int, MAX_BACKOFF_EXPONENT as int) as nat),
{
    let e = if attempt < MAX_BACKOFF_EXPONENT {
        attempt
    } else {
        MAX_BACKOFF_EXPONENT
    };
    let mut secs: u64 = 1;
    let mut i: u32 = 0;
    while i < e
        invariant
            i <= e <= MAX_BACKOFF_EXPONENT,
            secs == pow2_spec(i as nat),
            secs <= 32,
        decreases e - i,
    {
        secs = secs * 2;
        i += 1;
        proof {
            reveal_with_fuel(pow2_spec, 6);
        }
    }
    secs
}

/// The wait never shrinks as failures accumulate and never exceeds
/// thirty-two seconds.
pub proof fn lemma_backoff_bounded_and_monotone(a: nat, b: nat)
    requires
        a <= b,
    ensures
        pow2_spec(vstd::math::min(a as int, 5) as nat) <= pow2_spec(
            vstd::math::min(b as int, 5) as nat,
        ),
        pow2_spec(vstd::math::min(b as int, 5) as nat) <= 32,
{
    reveal_with_fuel(pow2_spec, 6);
}

} // verus!
