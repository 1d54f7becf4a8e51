//! The decisions behind the account commands: what a failed client launch
//! means for a switch of account, the messages a switch answers with, and
//! the tally of a refresh of every account.

use vstd::prelude::*;
use crate::text::chars_of;

verus! {

/// Whether `s` begins with `prefix`.
pub open spec fn has_prefix(s: Seq<char>, prefix: Seq<char>) -> bool {
    prefix.len() <= s.len() && s.take(prefix.len() as int) == prefix
}

/// Whether `pattern` occurs in `s` as a run of characters.
pub open spec fn has_infix(s: Seq<char>, pattern: Seq<char>) -> bool {
    exists|i: int| 0 <= i <= s.len() - pattern.len() && #[trigger] s.subrange(i, i + pattern.len()) == pattern
}

fn matches_at(s: &Vec<char>, pattern: &Vec<char>, at: usize) -> (r: bool)
    requires
        at + pattern@.len() <= s@.len(),
    ensures
        r == (s@.subrange(at as int, at + pattern@.len()) == pattern@),
{
    let n = s.len();
    let mut j: usize = 0;
    while j < pattern.len()
        invariant
            at + pattern@.len() <= s@.len(),
            n == s@.len(),
            j <= pattern@.len(),
            forall|k: int| 0 <= k < j ==> s@[at + k] == pattern@[k],
        decreases pattern@.len() - j,
    {
        if s[at + j] != pattern[j] {
            assert(s@.subrange(at as int, at + pattern@.len())[j as int] != pattern@[j as int]);
            return false;
        }
        j = j + 1;
    }
    assert(s@.subrange(at as int, at + pattern@.len()) =~= pattern@);
    true
}

/// `str::starts_with` for a text prefix.
pub fn starts_with(s: &str, prefix: &str) -> (r: bool)
    ensures
        r == has_prefix(s@, prefix@),
{
    let sc = chars_of(s);
    let pc = chars_of(prefix);
    if pc.len() > sc.len() {
        return false;
    }
    let r = matches_at(&sc, &pc, 0);
    assert(sc@.subrange(0, pc@.len() as int) =~= sc@.take(pc@.len() as int));
    r
}

/// `str::contains` for a text pattern.
pub fn contains_str(s: &str, pattern: &str) -> (r: bool)
    ensures
        r == has_infix(s@, pattern@),
{
    let sc = chars_of(s);
    let pc = chars_of(pattern);
    if pc.len() > sc.len() {
        return false;
    }
    if pc.len() == 0 {
        assert(s@.subrange(0, 0 + pattern@.len() as int) =~= pattern@);
        return true;
    }
    let last = sc.len() - pc.len();
    let bound = last + 1;
    let mut i: usize = 0;
    while i < bound
        invariant
            bound == last + 1,
            sc@ == s@,
            pc@ == pattern@,
            last == sc@.len() - pc@.len(),
            i <= bound,
            forall|k: int| 0 <= k < i ==> #[trigger] s@.subrange(k, k + pattern@.len()) != pattern@,
        decreases last + 1 - i,
    {
        if matches_at(&sc, &pc, i) {
            return true;
        }
        i = i + 1;
    }
    false
}

/// The prefix of a launch error for a client whose application is missing.
pub open spec fn app_path_missing_prefix() -> Seq<char> {
    "APP_PATH_NOT_FOUND:"@
}

/// What a launch error reports when the client did not start.
pub open spec fn launch_failed_marker() -> Seq<char> {
    "启动 Cursor 失败"@
}

/// What a switch of account does after starting the client.
#[derive(Debug, Clone, Copy)]
pub enum LaunchDecision {
    /// The client started.
    Launched,
    /// The client did not start; the switch stands, with a warning. Where
    /// the application is missing, the user is asked for its path.
    Warn { app_path_missing: bool },
    /// The switch fails with the launch error.
    Abort,
}

/// The decision for a launch result: an error that reports a missing
/// application or a failed start is a warning, any other error aborts.
pub open spec fn launch_decision(launch: Result<(), Seq<char>>) -> LaunchDecision {
    match launch {
        Ok(()) => LaunchDecision::Launched,
        Err(e) => if has_prefix(e, app_path_missing_prefix()) || has_infix(e, launch_failed_marker()) {
            LaunchDecision::Warn { app_path_missing: has_prefix(e, app_path_missing_prefix()) }
        } else {
            LaunchDecision::Abort
        },
    }
}

pub fn classify_launch_result(launch: &Result<(), String>) -> (r: LaunchDecision)
    ensures
        r == launch_decision(
            match launch {
                Ok(()) => Ok(()),
                Err(e) => Err(e@),
            },
        ),
{
    match launch {
        Ok(()) => LaunchDecision::Launched,
        Err(err) => {
            let missing = starts_with(err.as_str(), "APP_PATH_NOT_FOUND:");
            if missing || contains_str(err.as_str(), "启动 Cursor 失败") {
                LaunchDecision::Warn { app_path_missing: missing }
            } else {
                LaunchDecision::Abort
            }
        },
    }
}

/// The answer to a switch of account: the e-mail address switched to, or
/// the launch warning where the client did not start.
pub open spec fn switch_message_text(email: Seq<char>, launch_warning: Option<Seq<char>>) -> Seq<char> {
    match launch_warning {
        Some(err) => "切换完成，但 Cursor 启动失败: "@ + err,
        None => "切换完成: "@ + email,
    }
}

pub fn switch_message(email: &str, launch_warning: Option<&str>) -> (r: String)
    ensures
        r@ == switch_message_text(email@, crate::text::opt_text(launch_warning)),
{
    match launch_warning {
        Some(err) => "切换完成，但 Cursor 启动失败: ".to_owned().concat(err),
        None => "切换完成: ".to_owned().concat(email),
    }
}

/// The answer when the account to switch to is not stored.
pub fn account_not_found_message(account_id: &str) -> (r: String)
    ensures
        r@ == "Cursor account not found: "@ + account_id@,
{
    "Cursor account not found: ".to_owned().concat(account_id)
}

/// The number of `true` in `s`.
pub open spec fn count_true(s: Seq<bool>) -> nat
    decreases s.len(),
{
    if s.len() == 0 {
        0
    } else {
        count_true(s.drop_last()) + if s.last() {
            1nat
        } else {
            0nat
        }
    }
}

proof fn lemma_count_true_bound(s: Seq<bool>)
    ensures
        count_true(s) <= s.len(),
    decreases s.len(),
{
    if s.len() > 0 {
        lemma_count_true_bound(s.drop_last());
    }
}

/// How a refresh of every account went.
#[derive(Debug, Clone, Copy)]
pub struct RefreshTally {
    pub succeeded: usize,
    pub failed: usize,
}

/// Counts the refreshes that succeeded (`true`) and failed.
pub fn tally_refresh_results(succeeded: &[bool]) -> (r: RefreshTally)
    ensures
        r.succeeded == count_true(succeeded@),
        r.failed == succeeded@.len() - count_true(succeeded@),
{
    let mut ok: usize = 0;
    let mut i: usize = 0;
    while i < succeeded.len()
        invariant
            i <= succeeded@.len(),
            ok == count_true(succeeded@.take(i as int)),
            ok <= i,
        decreases succeeded@.len() - i,
    {
        assert(succeeded@.take(i + 1).drop_last() =~= succeeded@.take(i as int));
        if succeeded[i] {
            ok = ok + 1;
        }
        i = i + 1;
    }
    assert(succeeded@.take(i as int) =~= succeeded@);
    RefreshTally { succeeded: ok, failed: succeeded.len() - ok }
}

} // verus!
