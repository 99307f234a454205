//! Following services while `docker-compose` brings them up or down: their
//! states, the progress summaries and the spinner.

use vstd::prelude::*;

use crate::text::{
    contains, contains_spec, lines_of, lines_spec, lossy_utf8, lower_text, split_once, split_spec, texts,
    to_lowercase, utf8_lossy,
};
use crate::ui::Color;

verus! {

/// Where a service is in starting up.
#[derive(Clone, Copy, Debug, PartialEq, Eq, Structural)]
pub enum BootStatus {
    Waiting,
    Starting,
    Running,
    Failed,
}

/// A declared service and what `docker ps` last said of it.
pub struct BootService {
    pub name: String,
    pub status: BootStatus,
    pub raw_status: String,
}

/// The state a lower-cased `docker ps` status text shows: up, exited or
/// dead, not listed yet, or on its way.
pub open spec fn boot_status_of_lower_spec(lower: Seq<char>) -> BootStatus {
    if contains_spec(lower, "up"@) {
        BootStatus::Running
    } else if contains_spec(lower, "exit"@) || contains_spec(lower, "dead"@) {
        BootStatus::Failed
    } else if lower.len() == 0 {
        BootStatus::Waiting
    } else {
        BootStatus::Starting
    }
}

/// The state a `docker ps` status text shows, read case-insensitively.
pub open spec fn boot_status_spec(raw: Seq<char>) -> BootStatus {
    boot_status_of_lower_spec(lower_text(raw))
}

/// The boot state shown by a lower-cased `docker ps` status text.
pub fn boot_status_of_lower(lower: &str) -> (s: BootStatus)
    ensures
        s == boot_status_of_lower_spec(lower@),
{
    if contains(lower, "up") {
        BootStatus::Running
    } else if contains(lower, "exit") || contains(lower, "dead") {
        BootStatus::Failed
    } else if lower.is_empty() {
        BootStatus::Waiting
    } else {
        BootStatus::Starting
    }
}

/// The boot state shown by a `docker ps` status text. A service shown
/// waiting or failed is one that `is_stopped` counts as stopped.
pub fn classify_boot_status(raw: &str) -> (s: BootStatus)
    ensures
        s == boot_status_spec(raw@),
        (s == BootStatus::Waiting || s == BootStatus::Failed) ==> is_stopped_spec(raw@),
{
    let lower = to_lowercase(raw);
    boot_status_of_lower(lower.as_str())
}

/// The `(service, status)` pairs of `service|status` lines, skipping empty
/// lines and lines without a `|`; the status is all after the first `|`.
pub open spec fn status_pairs_spec(ls: Seq<Seq<char>>) -> Seq<(Seq<char>, Seq<char>)>
    decreases ls.len(),
{
    if ls.len() == 0 {
        Seq::empty()
    } else {
        let prev = status_pairs_spec(ls.drop_last());
        let line = ls.last();
        let p = split_spec(line, '|');
        if line.len() > 0 && p.len() >= 2 {
            prev.push((p[0], line.skip(p[0].len() + 1int)))
        } else {
            prev
        }
    }
}

/// The status last listed for `name`, or an empty text when it is not
/// listed.
pub open spec fn status_of_spec(pairs: Seq<(Seq<char>, Seq<char>)>, name: Seq<char>) -> Seq<char>
    decreases pairs.len(),
{
    if pairs.len() == 0 {
        Seq::empty()
    } else if pairs.last().0 == name {
        pairs.last().1
    } else {
        status_of_spec(pairs.drop_last(), name)
    }
}

/// The pairs listed in `docker ps --format '{{.Label
/// "com.docker.compose.service"}}|{{.Status}}'` output.
fn status_pairs(text: &str) -> (pairs: Vec<(String, String)>)
    ensures
        pairs@.map_values(|p: (String, String)| (p.0@, p.1@)) == status_pairs_spec(lines_spec(text@)),
{
    let ls = lines_of(text);
    let ghost spec_ls = lines_spec(text@);
    let mut pairs: Vec<(String, String)> = Vec::new();
    let mut i: usize = 0;
    while i < ls.len()
        invariant
            i <= ls@.len() == spec_ls.len(),
            spec_ls == lines_spec(text@),
            forall|k: int| 0 <= k < ls@.len() ==> #[trigger] ls@[k]@ == spec_ls[k],
            pairs@.map_values(|p: (String, String)| (p.0@, p.1@)) == status_pairs_spec(
                spec_ls.take(i as int),
            ),
        decreases ls.len() - i,
    {
        assert(spec_ls.take(i + 1).drop_last() =~= spec_ls.take(i as int));
        let line = &ls[i];
        if !line.as_str().is_empty() {
            if let Some((key, rest)) = split_once(line.as_str(), '|') {
                let ghost before = pairs@;
                let ghost kv = (key@, rest@);
                pairs.push((key, rest));
                assert(pairs@.map_values(|p: (String, String)| (p.0@, p.1@)) =~= before.map_values(
                    |p: (String, String)| (p.0@, p.1@),
                ).push(kv));
            }
        }
        i += 1;
    }
    assert(spec_ls.take(ls.len() as int) =~= spec_ls);
    pairs
}


/// The status last listed for `name` among `pairs`, or an empty text.
fn status_of(pairs: &Vec<(String, String)>, name: &String) -> (r: String)
    ensures
        r@ == status_of_spec(pairs@.map_values(|p: (String, String)| (p.0@, p.1@)), name@),
{
    let ghost view = pairs@.map_values(|p: (String, String)| (p.0@, p.1@));
    let mut i: usize = pairs.len();
    assert(view.take(i as int) =~= view);
    while i > 0
        invariant
            i <= pairs@.len(),
            view == pairs@.map_values(|p: (String, String)| (p.0@, p.1@)),
            status_of_spec(view, name@) == status_of_spec(view.take(i as int), name@),
        decreases i,
    {
        assert(view.take(i as int).drop_last() =~= view.take(i - 1));
        i -= 1;
        if pairs[i].0 == *name {
            return pairs[i].1.clone();
        }
    }
    String::new()
}

/// What a boot service shows: name, state and raw status text.
pub open spec fn boot_view(b: BootService) -> (Seq<char>, BootStatus, Seq<char>) {
    (b.name@, b.status, b.raw_status@)
}

/// The boot state of each expected service from a `service|status` listing
/// of `docker ps`: the status last listed under its name, or none.
pub open spec fn boot_services_spec(expected: Seq<Seq<char>>, listing: Seq<char>) -> Seq<
    (Seq<char>, BootStatus, Seq<char>),
> {
    let pairs = status_pairs_spec(lines_spec(listing));
    expected.map_values(
        |n: Seq<char>|
            {
                let raw = status_of_spec(pairs, n);
                (n, boot_status_spec(raw), raw)
            },
    )
}

/// The boot states of the `expected` services, from the bytes that
/// `docker ps -a --format '{{.Label "com.docker.compose.service"}}|{{.Status}}'`
/// printed.
pub fn boot_services(expected: &[String], listing: &[u8]) -> (r: Vec<BootService>)
    ensures
        r@.map_values(|b: BootService| boot_view(b)) == boot_services_spec(
            texts(expected@),
            lossy_utf8(listing@),
        ),
        forall|k: int|
            0 <= k < r@.len() && (#[trigger] r@[k].status == BootStatus::Waiting || r@[k].status
                == BootStatus::Failed) ==> is_stopped_spec(r@[k].raw_status@),
{
    let text = utf8_lossy(listing);
    let pairs = status_pairs(text.as_str());
    let ghost target = boot_services_spec(texts(expected@), lossy_utf8(listing@));
    let mut out: Vec<BootService> = Vec::new();
    let mut i: usize = 0;
    while i < expected.len()
        invariant
            i <= expected@.len(),
            text@ == lossy_utf8(listing@),
            pairs@.map_values(|p: (String, String)| (p.0@, p.1@)) == status_pairs_spec(
                lines_spec(text@),
            ),
            target == boot_services_spec(texts(expected@), lossy_utf8(listing@)),
            out@.len() == i,
            forall|k: int| 0 <= k < i ==> #[trigger] boot_view(out@[k]) == target[k],
            forall|k: int|
                0 <= k < i && (#[trigger] out@[k].status == BootStatus::Waiting || out@[k].status
                    == BootStatus::Failed) ==> is_stopped_spec(out@[k].raw_status@),
        decreases expected.len() - i,
    {
        let raw = status_of(&pairs, &expected[i]);
        let status = classify_boot_status(raw.as_str());
        out.push(BootService { name: expected[i].clone(), status, raw_status: raw });
        i += 1;
    }
    assert(out@.map_values(|b: BootService| boot_view(b)) =~= target);
    out
}

/// The non-empty lines of a text.
pub open spec fn nonempty_lines_spec(ls: Seq<Seq<char>>) -> Seq<Seq<char>>
    decreases ls.len(),
{
    if ls.len() == 0 {
        Seq::empty()
    } else if ls.last().len() == 0 {
        nonempty_lines_spec(ls.drop_last())
    } else {
        nonempty_lines_spec(ls.drop_last()).push(ls.last())
    }
}

/// The services that `docker-compose config --services` printed, one per
/// non-empty line.
pub fn declared_services(stdout: &[u8]) -> (names: Vec<String>)
    ensures
        texts(names@) == nonempty_lines_spec(lines_spec(lossy_utf8(stdout@))),
{
    let text = utf8_lossy(stdout);
    let ls = lines_of(text.as_str());
    let ghost spec_ls = lines_spec(text@);
    let mut names: Vec<String> = Vec::new();
    let mut i: usize = 0;
    while i < ls.len()
        invariant
            i <= ls@.len() == spec_ls.len(),
            spec_ls == lines_spec(text@),
            text@ == lossy_utf8(stdout@),
            forall|k: int| 0 <= k < ls@.len() ==> #[trigger] ls@[k]@ == spec_ls[k],
            texts(names@) == nonempty_lines_spec(spec_ls.take(i as int)),
        decreases ls.len() - i,
    {
        assert(spec_ls.take(i + 1).drop_last() =~= spec_ls.take(i as int));
        if !ls[i].as_str().is_empty() {
            let ghost before = names@;
            names.push(ls[i].clone());
            assert(texts(names@) =~= texts(before).push(spec_ls[i as int]));
        }
        i += 1;
    }
    assert(spec_ls.take(ls.len() as int) =~= spec_ls);
    names
}

/// Whether a lower-cased `docker ps` status text shows an exited, dead or
/// departing service.
pub open spec fn stopped_lower_spec(lower: Seq<char>) -> bool {
    contains_spec(lower, "exit"@) || contains_spec(lower, "dead"@) || contains_spec(lower, "remov"@)
}

/// Whether a `docker ps` status text shows a stopped service: no longer
/// listed, exited, dead or being removed.
pub open spec fn is_stopped_spec(raw: Seq<char>) -> bool {
    raw.len() == 0 || stopped_lower_spec(lower_text(raw))
}

/// Whether a lower-cased status text shows an exited, dead or departing
/// service.
pub fn stopped_lower(lower: &str) -> (b: bool)
    ensures
        b == stopped_lower_spec(lower@),
{
    contains(lower, "exit") || contains(lower, "dead") || contains(lower, "remov")
}

/// Whether a service whose `docker ps` status text is `raw` has stopped.
pub fn is_stopped(raw: &str) -> (b: bool)
    ensures
        b == is_stopped_spec(raw@),
{
    if raw.is_empty() {
        return true;
    }
    let lower = to_lowercase(raw);
    stopped_lower(lower.as_str())
}

/// The frames of the progress spinner.
pub open spec fn spinner_frames() -> Seq<Seq<char>> {
    seq!["⠋"@, "⠙"@, "⠹"@, "⠸"@, "⠼"@, "⠴"@, "⠦"@, "⠧"@, "⠇"@, "⠏"@]
}

/// The spinner frame drawn at animation step `tick`.
pub fn spinner_frame(tick: usize) -> (f: &'static str)
    ensures
        f@ == spinner_frames()[(tick % 10) as int],
{
    match tick % 10 {
        0 => "⠋",
        1 => "⠙",
        2 => "⠹",
        3 => "⠸",
        4 => "⠼",
        5 => "⠴",
        6 => "⠦",
        7 => "⠧",
        8 => "⠇",
        _ => "⠏",
    }
}

/// The spinner repeats every ten steps.
pub proof fn lemma_spinner_period(tick: nat)
    ensures
        spinner_frames()[(tick % 10) as int] == spinner_frames()[((tick + 10) % 10) as int],
{
}


/// How many of `services` are in state `status`.
pub open spec fn count_status(services: Seq<BootService>, status: BootStatus) -> nat
    decreases services.len(),
{
    if services.len() == 0 {
        0
    } else {
        count_status(services.drop_last(), status) + if services.last().status == status {
            1nat
        } else {
            0nat
        }
    }
}

/// A count never exceeds the number of services.
pub proof fn lemma_count_status_bound(services: Seq<BootService>, status: BootStatus)
    ensures
        count_status(services, status) <= services.len(),
    decreases services.len(),
{
    if services.len() > 0 {
        lemma_count_status_bound(services.drop_last(), status);
    }
}

/// How many of `services` are in state `status`.
fn count_in_status(services: &[BootService], status: BootStatus) -> (n: usize)
    ensures
        n == count_status(services@, status),
{
    let mut n: usize = 0;
    let mut i: usize = 0;
    while i < services.len()
        invariant
            i <= services@.len(),
            n == count_status(services@.take(i as int), status),
        decreases services.len() - i,
    {
        assert(services@.take(i + 1).drop_last() =~= services@.take(i as int));
        proof {
            lemma_count_status_bound(services@.take(i as int), status);
        }
        if services[i].status == status {
            n += 1;
        }
        i += 1;
    }
    assert(services@.take(services.len() as int) =~= services@);
    n
}

/// The phase of start-up that the progress screen announces.
#[derive(Clone, Copy, Debug, PartialEq, Eq, Structural)]
pub enum StartupPhase {
    Preparing,
    AllRunning,
    SomeFailed,
    Starting,
}

/// Start-up progress: how many services there are, run and failed.
pub struct StartupSummary {
    pub total: usize,
    pub running: usize,
    pub failed: usize,
    pub all_up: bool,
    pub any_fail: bool,
    pub phase: StartupPhase,
}

/// The start-up phase: preparing until services are known, then all
/// running, some failed, or still starting.
pub open spec fn startup_phase_spec(total: nat, running: nat, failed: nat) -> StartupPhase {
    if total == 0 {
        StartupPhase::Preparing
    } else if running == total {
        StartupPhase::AllRunning
    } else if failed > 0 {
        StartupPhase::SomeFailed
    } else {
        StartupPhase::Starting
    }
}

/// The start-up progress of `services`.
pub fn startup_summary(services: &[BootService]) -> (s: StartupSummary)
    ensures
        s.total == services@.len(),
        s.running == count_status(services@, BootStatus::Running),
        s.failed == count_status(services@, BootStatus::Failed),
        s.all_up == (s.total > 0 && s.running == s.total),
        s.any_fail == (s.failed > 0),
        s.phase == startup_phase_spec(s.total as nat, s.running as nat, s.failed as nat),
{
    let total = services.len();
    let running = count_in_status(services, BootStatus::Running);
    let failed = count_in_status(services, BootStatus::Failed);
    let all_up = total > 0 && running == total;
    let any_fail = failed > 0;
    let phase = if total == 0 {
        StartupPhase::Preparing
    } else if all_up {
        StartupPhase::AllRunning
    } else if any_fail {
        StartupPhase::SomeFailed
    } else {
        StartupPhase::Starting
    };
    StartupSummary { total, running, failed, all_up, any_fail, phase }
}

/// No service is in state `status` exactly when the count is zero; every
/// service is exactly when the count is the number of services.
proof fn lemma_count_status_extremes(services: Seq<BootService>, status: BootStatus)
    ensures
        (count_status(services, status) == 0) == (forall|i: int|
            0 <= i < services.len() ==> #[trigger] services[i].status != status),
        (count_status(services, status) == services.len()) == (forall|i: int|
            0 <= i < services.len() ==> #[trigger] services[i].status == status),
    decreases services.len(),
{
    if services.len() > 0 {
        let t = services.drop_last();
        let n = services.len() - 1;
        lemma_count_status_extremes(t, status);
        lemma_count_status_bound(t, status);
        assert forall|i: int| 0 <= i < t.len() implies #[trigger] t[i] == services[i] by {}
        assert(services.last() == services[n]);
        if forall|i: int| 0 <= i < services.len() ==> #[trigger] services[i].status != status {
            assert forall|i: int| 0 <= i < t.len() implies #[trigger] t[i].status != status by {
                assert(services[i].status != status);
            }
            assert(services[n].status != status);
        }
        if count_status(services, status) == 0 {
            assert forall|i: int| 0 <= i < services.len() implies #[trigger] services[i].status
                != status by {
                if i < n {
                    assert(t[i].status != status);
                }
            }
        }
        if forall|i: int| 0 <= i < services.len() ==> #[trigger] services[i].status == status {
            assert forall|i: int| 0 <= i < t.len() implies #[trigger] t[i].status == status by {
                assert(services[i].status == status);
            }
            assert(services[n].status == status);
        }
        if count_status(services, status) == services.len() {
            assert(services.last().status == status);
            assert forall|i: int| 0 <= i < services.len() implies #[trigger] services[i].status
                == status by {
                if i < n {
                    assert(t[i].status == status);
                }
            }
        }
    }
}

/// The start-up phase of a list of services: preparing exactly when there
/// are none; all running exactly when there are some and every one runs;
/// some failed exactly when one has failed; starting exactly when there are
/// some, none has failed and one does not run yet.
pub proof fn lemma_startup_phase_by_services(services: Seq<BootService>)
    ensures
        ({
            let phase = startup_phase_spec(
                services.len(),
                count_status(services, BootStatus::Running),
                count_status(services, BootStatus::Failed),
            );
            &&& (phase == StartupPhase::Preparing) == (services.len() == 0)
            &&& (phase == StartupPhase::AllRunning) == (services.len() > 0 && forall|i: int|
                0 <= i < services.len() ==> #[trigger] services[i].status == BootStatus::Running)
            &&& (phase == StartupPhase::SomeFailed) == (exists|i: int|
                0 <= i < services.len() && #[trigger] services[i].status == BootStatus::Failed)
            &&& (phase == StartupPhase::Starting) == (services.len() > 0 && (forall|i: int|
                0 <= i < services.len() ==> #[trigger] services[i].status != BootStatus::Failed)
                && exists|i: int|
                0 <= i < services.len() && #[trigger] services[i].status != BootStatus::Running)
        }),
{
    lemma_count_status_extremes(services, BootStatus::Running);
    lemma_count_status_extremes(services, BootStatus::Failed);
    if services.len() > 0 && count_status(services, BootStatus::Running) == services.len() {
        lemma_all_up_means_none_failed(services);
    }
}

/// When every service runs, none has failed.
pub proof fn lemma_all_up_means_none_failed(services: Seq<BootService>)
    requires
        services.len() > 0,
        count_status(services, BootStatus::Running) == services.len(),
    ensures
        count_status(services, BootStatus::Failed) == 0,
    decreases services.len(),
{
    let t = services.drop_last();
    lemma_count_status_bound(t, BootStatus::Running);
    assert(services.last().status == BootStatus::Running);
    assert(count_status(t, BootStatus::Running) == t.len());
    if t.len() > 0 {
        lemma_all_up_means_none_failed(t);
    }
}

/// The announcement of a start-up phase and its colour.
pub fn startup_phase_text(phase: StartupPhase) -> (r: (&'static str, Color))
    ensures
        r == (match phase {
            StartupPhase::Preparing => ("Preparing…", Color::Yellow),
            StartupPhase::AllRunning => ("All services running ✓", Color::Green),
            StartupPhase::SomeFailed => ("Some services failed ✗", Color::Red),
            StartupPhase::Starting => ("Starting services…", Color::Cyan),
        }),
{
    match phase {
        StartupPhase::Preparing => ("Preparing…", Color::Yellow),
        StartupPhase::AllRunning => ("All services running ✓", Color::Green),
        StartupPhase::SomeFailed => ("Some services failed ✗", Color::Red),
        StartupPhase::Starting => ("Starting services…", Color::Cyan),
    }
}

/// The colour of the start-up progress bar.
pub fn startup_bar_color(summary: &StartupSummary) -> (c: Color)
    ensures
        c == (if summary.any_fail {
            Color::Red
        } else if summary.all_up {
            Color::Green
        } else {
            Color::Cyan
        }),
{
    if summary.any_fail {
        Color::Red
    } else if summary.all_up {
        Color::Green
    } else {
        Color::Cyan
    }
}

/// The icon and colour of a service on the start-up screen.
pub fn boot_icon(status: BootStatus, tick: usize) -> (r: (&'static str, Color))
    ensures
        r.1 == (match status {
            BootStatus::Running => Color::Green,
            BootStatus::Failed => Color::Red,
            BootStatus::Starting => Color::Cyan,
            BootStatus::Waiting => Color::DarkGray,
        }),
        r.0@ == (match status {
            BootStatus::Running => "✓"@,
            BootStatus::Failed => "✗"@,
            BootStatus::Starting => spinner_frames()[(tick % 10) as int],
            BootStatus::Waiting => "○"@,
        }),
{
    match status {
        BootStatus::Running => ("✓", Color::Green),
        BootStatus::Failed => ("✗", Color::Red),
        BootStatus::Starting => (spinner_frame(tick), Color::Cyan),
        BootStatus::Waiting => ("○", Color::DarkGray),
    }
}

/// The longest the shutdown screen waits, in seconds.
pub const SHUTDOWN_TIMEOUT_SECS: u64 = 120;

/// How many of `services` have stopped, judged by their raw status.
pub open spec fn count_stopped(services: Seq<BootService>) -> nat
    decreases services.len(),
{
    if services.len() == 0 {
        0
    } else {
        count_stopped(services.drop_last()) + if is_stopped_spec(services.last().raw_status@) {
            1nat
        } else {
            0nat
        }
    }
}

/// A count of stopped services never exceeds the number of services.
pub proof fn lemma_count_stopped_bound(services: Seq<BootService>)
    ensures
        count_stopped(services) <= services.len(),
    decreases services.len(),
{
    if services.len() > 0 {
        lemma_count_stopped_bound(services.drop_last());
    }
}

/// Every service counts as stopped exactly when each one's raw status
/// shows it stopped, so shutdown is done only once all have stopped.
pub proof fn lemma_all_stopped_iff_each(services: Seq<BootService>)
    ensures
        (count_stopped(services) == services.len()) == (forall|i: int|
            0 <= i < services.len() ==> is_stopped_spec(#[trigger] services[i].raw_status@)),
    decreases services.len(),
{
    if services.len() > 0 {
        let t = services.drop_last();
        let n = services.len() - 1;
        lemma_all_stopped_iff_each(t);
        lemma_count_stopped_bound(t);
        assert forall|i: int| 0 <= i < t.len() implies #[trigger] t[i] == services[i] by {}
        assert(services.last() == services[n]);
        if forall|i: int| 0 <= i < services.len() ==> is_stopped_spec(#[trigger] services[i].raw_status@) {
            assert forall|i: int| 0 <= i < t.len() implies is_stopped_spec(#[trigger] t[i].raw_status@) by {
                assert(is_stopped_spec(services[i].raw_status@));
            }
            assert(is_stopped_spec(services[n].raw_status@));
        }
        if count_stopped(services) == services.len() {
            assert(is_stopped_spec(services.last().raw_status@));
            assert forall|i: int| 0 <= i < services.len() implies is_stopped_spec(
                #[trigger] services[i].raw_status@,
            ) by {
                if i < n {
                    assert(is_stopped_spec(t[i].raw_status@));
                }
            }
        }
    }
}

/// Shutdown progress: how many services there are and have stopped, and
/// whether the wait is over.
pub struct ShutdownSummary {
    pub total: usize,
    pub stopped: usize,
    pub all_done: bool,
    pub timed_out: bool,
    pub finished: bool,
}

/// The shutdown progress of `statuses` after `elapsed_secs` seconds: done
/// when every service has stopped, over when done or out of time.
pub fn shutdown_summary(statuses: &[BootService], elapsed_secs: u64) -> (s: ShutdownSummary)
    ensures
        s.total == statuses@.len(),
        s.stopped == count_stopped(statuses@),
        s.all_done == (s.total == 0 || s.stopped == s.total),
        s.timed_out == (elapsed_secs >= SHUTDOWN_TIMEOUT_SECS),
        s.finished == (s.all_done || s.timed_out),
{
    let total = statuses.len();
    let mut stopped: usize = 0;
    let mut i: usize = 0;
    while i < total
        invariant
            total == statuses@.len(),
            i <= total,
            stopped == count_stopped(statuses@.take(i as int)),
        decreases total - i,
    {
        assert(statuses@.take(i + 1).drop_last() =~= statuses@.take(i as int));
        proof {
            lemma_count_stopped_bound(statuses@.take(i as int));
        }
        if is_stopped(statuses[i].raw_status.as_str()) {
            stopped += 1;
        }
        i += 1;
    }
    assert(statuses@.take(total as int) =~= statuses@);
    let all_done = total == 0 || stopped == total;
    let timed_out = elapsed_secs >= SHUTDOWN_TIMEOUT_SECS;
    ShutdownSummary { total, stopped, all_done, timed_out, finished: all_done || timed_out }
}

/// The shutdown screen's headline, footer and their colour.
pub fn shutdown_texts(finished: bool) -> (r: (&'static str, &'static str, Color))
    ensures
        r == (if finished {
            ("All services stopped ✓", "  Shutdown complete — goodbye", Color::Green)
        } else {
            ("Stopping services…", "  Waiting for containers to stop…  q  force quit", Color::Yellow)
        }),
{
    if finished {
        ("All services stopped ✓", "  Shutdown complete — goodbye", Color::Green)
    } else {
        ("Stopping services…", "  Waiting for containers to stop…  q  force quit", Color::Yellow)
    }
}


/// The status text shown for a service: its `docker ps` status, or
/// `placeholder` when docker lists none.
pub fn status_display(raw: &str, placeholder: &str) -> (t: String)
    ensures
        t@ == (if raw@.len() == 0 { placeholder@ } else { raw@ }),
{
    if raw.is_empty() {
        placeholder.to_string()
    } else {
        raw.to_string()
    }
}

/// The icon and colour of a service on the shutdown screen: a check mark
/// once it has stopped, the spinner while it stops.
pub fn shutdown_icon(raw: &str, tick: usize) -> (r: (&'static str, Color))
    ensures
        is_stopped_spec(raw@) ==> r.0@ == "✓"@ && r.1 == Color::Green,
        !is_stopped_spec(raw@) ==> r.0@ == spinner_frames()[(tick % 10) as int] && r.1
            == Color::Yellow,
{
    if is_stopped(raw) {
        ("✓", Color::Green)
    } else {
        (spinner_frame(tick), Color::Yellow)
    }
}

} // verus!
