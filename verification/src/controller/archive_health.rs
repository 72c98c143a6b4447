//! Health of history archives: which requests show it, what the replies amount
//! to, and how long to wait before the next try.

use std::time::Duration;

use vstd::arithmetic::power2;
use vstd::prelude::*;
use vstd::string::StringExecFns;

use crate::error::Error;
use crate::lists::{no_items, push_item};
use crate::text;
use crate::text::{cat2, cat3, cat4, decimal_u64, join, trim_slashes};

verus! {

/// The duration of a number of seconds.
pub uninterp spec fn duration_of_secs(secs: u64) -> Duration;

/// `Duration::from_secs` of std: the duration of that many whole seconds.
pub assume_specification[ std::time::Duration::from_secs ](secs: u64) -> (r: std::time::Duration)
    ensures
        r == duration_of_secs(secs),
;

/// Result of checking multiple history archive URLs
#[derive(Debug, Clone)]
pub struct ArchiveHealthResult {
    /// URLs that passed the health check
    pub healthy_urls: Vec<String>,
    /// URLs that failed with their error messages
    pub unhealthy_urls: Vec<(String, String)>,
    /// True if all URLs are healthy
    pub all_healthy: bool,
    /// True if at least one URL is healthy
    pub any_healthy: bool,
}

/// The errors of unhealthy archives, one to a line.
pub open spec fn error_lines(unhealthy: Seq<(Seq<char>, Seq<char>)>) -> Seq<Seq<char>> {
    Seq::new(unhealthy.len(), |i: int| "  - "@ + unhealthy[i].0 + ": "@ + unhealthy[i].1)
}

impl ArchiveHealthResult {
    /// What the check found, in one line.
    pub open spec fn summary_text(self) -> Seq<char> {
        if self.healthy_urls@.len() == 0 && self.unhealthy_urls@.len() == 0 {
            "No archives configured"@
        } else if self.all_healthy {
            "All "@ + text::decimal(self.healthy_urls@.len()) + " archive(s) healthy"@
        } else if self.any_healthy {
            text::decimal(self.healthy_urls@.len()) + " healthy, "@ + text::decimal(
                self.unhealthy_urls@.len(),
            ) + " unhealthy archive(s)"@
        } else {
            "All "@ + text::decimal(self.unhealthy_urls@.len()) + " archive(s) unhealthy"@
        }
    }

    /// The errors of unhealthy archives.
    pub open spec fn details_text(self) -> Seq<char> {
        text::joined(error_lines(self.unhealthy_urls.deep_view()), "\n"@)
    }

    /// Create a new result from check outcomes
    pub fn new(healthy: Vec<String>, unhealthy: Vec<(String, String)>) -> (r: Self)
        ensures
            r.healthy_urls == healthy,
            r.unhealthy_urls == unhealthy,
            r.all_healthy == (unhealthy@.len() == 0 && healthy@.len() > 0),
            r.any_healthy == (healthy@.len() > 0),
    {
        let all_healthy = unhealthy.len() == 0 && healthy.len() > 0;
        let any_healthy = healthy.len() > 0;
        ArchiveHealthResult {
            healthy_urls: healthy,
            unhealthy_urls: unhealthy,
            all_healthy,
            any_healthy,
        }
    }

    /// What the check found, in one line.
    pub fn summary(&self) -> (r: String)
        ensures
            r@ == self.summary_text(),
    {
        if self.healthy_urls.len() == 0 && self.unhealthy_urls.len() == 0 {
            "No archives configured".to_owned()
        } else if self.all_healthy {
            cat3(
                "All ",
                decimal_u64(self.healthy_urls.len() as u64).as_str(),
                " archive(s) healthy",
            )
        } else if self.any_healthy {
            cat4(
                decimal_u64(self.healthy_urls.len() as u64).as_str(),
                " healthy, ",
                decimal_u64(self.unhealthy_urls.len() as u64).as_str(),
                " unhealthy archive(s)",
            )
        } else {
            cat3(
                "All ",
                decimal_u64(self.unhealthy_urls.len() as u64).as_str(),
                " archive(s) unhealthy",
            )
        }
    }

    /// Get detailed error messages for unhealthy archives
    pub fn error_details(&self) -> (r: String)
        ensures
            r@ == self.details_text(),
    {
        let mut lines: Vec<String> = no_items();
        let ghost wanted = error_lines(self.unhealthy_urls.deep_view());
        for i in 0..self.unhealthy_urls.len()
            invariant
                wanted == error_lines(self.unhealthy_urls.deep_view()),
                lines.deep_view() == wanted.take(i as int),
        {
            let failed = &self.unhealthy_urls[i];
            push_item(&mut lines, cat4("  - ", failed.0.as_str(), ": ", failed.1.as_str()));
            assert(wanted.take(i + 1) =~= wanted.take(i as int).push(wanted[i as int]));
        }
        assert(wanted.take(wanted.len() as int) =~= wanted);
        join(&lines, "\n")
    }
}

/// How an archive is asked.
#[derive(Clone, Copy, Debug, PartialEq, Eq, Structural)]
pub enum ProbeMethod {
    Head,
    Get,
}

/// A request that shows whether an archive is there.
#[derive(Clone, Debug)]
pub struct ArchiveProbe {
    pub method: ProbeMethod,
    pub url: String,
}

/// The address of the metadata of an archive.
pub open spec fn metadata_url(url: Seq<char>) -> Seq<char> {
    text::without_trailing_slashes(url) + "/.well-known/stellar-history.json"@
}

/// The light request that an archive is asked first: for the head of its metadata.
pub fn metadata_probe(url: &str) -> (r: ArchiveProbe)
    ensures
        r.method == ProbeMethod::Head,
        r.url@ == metadata_url(url@),
{
    ArchiveProbe {
        method: ProbeMethod::Head,
        url: cat2(trim_slashes(url), "/.well-known/stellar-history.json"),
    }
}

/// The address of the root of an archive.
pub open spec fn root_url(url: Seq<char>) -> Seq<char> {
    text::without_trailing_slashes(url) + "/"@
}

/// The request that an archive is asked where the first one did not succeed: for
/// its root.
pub fn root_probe(url: &str) -> (r: ArchiveProbe)
    ensures
        r.method == ProbeMethod::Get,
        r.url@ == root_url(url@),
{
    ArchiveProbe { method: ProbeMethod::Get, url: cat2(trim_slashes(url), "/") }
}

/// The reply of an archive to a request.
#[derive(Clone, Debug)]
pub enum ProbeReply {
    /// The archive replied with a status, a success or not
    Status { success: bool, status: String },
    /// The archive could not be reached
    Failed(String),
}

impl ProbeReply {
    /// Whether the archive replied with success.
    pub open spec fn succeeded(self) -> bool {
        self matches ProbeReply::Status { success, .. } && success
    }

    /// Whether the archive replied with success.
    pub fn is_success(&self) -> (r: bool)
        ensures
            r == self.succeeded(),
    {
        match self {
            ProbeReply::Status { success, .. } => *success,
            ProbeReply::Failed(_) => false,
        }
    }
}

/// How the check of an archive goes on after the first request.
#[derive(Clone, Debug)]
pub enum ArchiveStep {
    /// The archive is healthy
    Healthy,
    /// The archive is asked once more
    Ask(ArchiveProbe),
}

/// How the check of an archive goes on after the first request: one that replied
/// with success is healthy, and any other is asked for its root.
pub fn after_metadata(url: &str, reply: &ProbeReply) -> (r: ArchiveStep)
    ensures
        match r {
            ArchiveStep::Healthy => reply.succeeded(),
            ArchiveStep::Ask(probe) => !reply.succeeded() && probe.method == ProbeMethod::Get
                && probe.url@ == root_url(url@),
        },
{
    if reply.is_success() {
        ArchiveStep::Healthy
    } else {
        ArchiveStep::Ask(root_probe(url))
    }
}

/// What the reply to the second request says of an archive.
pub fn root_outcome(reply: ProbeReply) -> (r: Result<(), Error>)
    ensures
        match reply {
            ProbeReply::Status { success, status } => if success {
                r is Ok
            } else {
                r matches Err(Error::ArchiveHealthCheckError(e)) && e@ == "Archive returned HTTP "@
                    + status@
            },
            ProbeReply::Failed(error) => r == Err::<(), Error>(Error::HttpError(error)),
        },
{
    match reply {
        ProbeReply::Status { success, status } => if success {
            Ok(())
        } else {
            Err(Error::ArchiveHealthCheckError(cat2("Archive returned HTTP ", status.as_str())))
        },
        ProbeReply::Failed(error) => Err(Error::HttpError(error)),
    }
}

/// The archives that passed their check, in order.
pub open spec fn passed(urls: Seq<Seq<char>>, outcomes: Seq<Result<(), Error>>) -> Seq<Seq<char>>
    decreases urls.len(),
{
    if urls.len() == 0 {
        seq![]
    } else if outcomes[urls.len() - 1] is Ok {
        passed(urls.drop_last(), outcomes).push(urls.last())
    } else {
        passed(urls.drop_last(), outcomes)
    }
}

/// The archives that failed their check, in order, with their errors.
pub open spec fn failed(urls: Seq<Seq<char>>, outcomes: Seq<Result<(), Error>>) -> Seq<
    (Seq<char>, Seq<char>),
>
    decreases urls.len(),
{
    if urls.len() == 0 {
        seq![]
    } else if outcomes[urls.len() - 1] is Ok {
        failed(urls.drop_last(), outcomes)
    } else {
        failed(urls.drop_last(), outcomes).push(
            (urls.last(), outcomes[urls.len() - 1]->Err_0.message()),
        )
    }
}

/// Sorts archives into healthy and unhealthy ones by the outcomes of their checks.
pub fn categorize(urls: &Vec<String>, outcomes: &Vec<Result<(), Error>>) -> (r: ArchiveHealthResult)
    requires
        urls@.len() == outcomes@.len(),
    ensures
        r.healthy_urls.deep_view() == passed(urls.deep_view(), outcomes@),
        r.unhealthy_urls.deep_view() == failed(urls.deep_view(), outcomes@),
        r.all_healthy == (r.unhealthy_urls@.len() == 0 && r.healthy_urls@.len() > 0),
        r.any_healthy == (r.healthy_urls@.len() > 0),
{
    let mut healthy: Vec<String> = no_items();
    let mut unhealthy: Vec<(String, String)> = no_items();
    let ghost all = urls.deep_view();
    for i in 0..urls.len()
        invariant
            urls@.len() == outcomes@.len(),
            all == urls.deep_view(),
            healthy.deep_view() == passed(all.take(i as int), outcomes@),
            unhealthy.deep_view() == failed(all.take(i as int), outcomes@),
    {
        proof {
            assert(all.take(i + 1).drop_last() =~= all.take(i as int));
            assert(all.take(i + 1).last() == urls@[i as int]@);
        }
        match &outcomes[i] {
            Ok(()) => {
                push_item(&mut healthy, urls[i].clone());
            },
            Err(e) => {
                push_item(&mut unhealthy, (urls[i].clone(), e.to_string()));
            },
        }
    }
    assert(all.take(urls@.len() as int) =~= all);
    ArchiveHealthResult::new(healthy, unhealthy)
}

/// Every archive is either healthy or unhealthy, and none is both or lost.
pub proof fn archives_are_partitioned(urls: Seq<Seq<char>>, outcomes: Seq<Result<(), Error>>)
    ensures
        passed(urls, outcomes).len() + failed(urls, outcomes).len() == urls.len(),
        forall|i: int|
            0 <= i < urls.len() && outcomes[i] is Ok ==> passed(urls, outcomes).contains(
                #[trigger] urls[i],
            ),
        forall|i: int|
            0 <= i < urls.len() && outcomes[i] is Err ==> failed(urls, outcomes).contains(
                (#[trigger] urls[i], outcomes[i]->Err_0.message()),
            ),
    decreases urls.len(),
{
    if urls.len() > 0 {
        let rest = urls.drop_last();
        archives_are_partitioned(rest, outcomes);
        let healthy = passed(urls, outcomes);
        let unhealthy = failed(urls, outcomes);
        assert forall|i: int| 0 <= i < urls.len() && outcomes[i] is Ok implies healthy.contains(
            #[trigger] urls[i],
        ) by {
            if i < rest.len() {
                assert(rest[i] == urls[i]);
                let k = choose|k: int|
                    0 <= k < passed(rest, outcomes).len() && passed(rest, outcomes)[k] == rest[i];
                assert(healthy[k] == urls[i]);
            } else {
                assert(healthy[healthy.len() - 1] == urls[i]);
            }
        }
        assert forall|i: int| 0 <= i < urls.len() && outcomes[i] is Err implies unhealthy.contains(
            (#[trigger] urls[i], outcomes[i]->Err_0.message()),
        ) by {
            let entry = (urls[i], outcomes[i]->Err_0.message());
            if i < rest.len() {
                assert(rest[i] == urls[i]);
                let k = choose|k: int|
                    0 <= k < failed(rest, outcomes).len() && failed(rest, outcomes)[k] == entry;
                assert(unhealthy[k] == entry);
            } else {
                assert(unhealthy[unhealthy.len() - 1] == entry);
            }
        }
    }
}

/// Some archive is healthy exactly when some check passed, and all are healthy
/// exactly when there is a check and none failed.
pub proof fn health_follows_from_outcomes(urls: Seq<Seq<char>>, outcomes: Seq<Result<(), Error>>)
    ensures
        passed(urls, outcomes).len() > 0 <==> exists|i: int|
            0 <= i < urls.len() && #[trigger] outcomes[i] is Ok,
        failed(urls, outcomes).len() == 0 <==> forall|i: int|
            0 <= i < urls.len() ==> #[trigger] outcomes[i] is Ok,
    decreases urls.len(),
{
    if urls.len() > 0 {
        health_follows_from_outcomes(urls.drop_last(), outcomes);
        let last = urls.len() - 1;
        if outcomes[last] is Ok {
            assert(passed(urls, outcomes).len() > 0);
        }
    }
}

/// `base * 2^attempt` seconds, where the exponent stops at 5 and the delay at the
/// largest number and at `max`.
pub open spec fn backoff_delay(attempt: u32, base: u64, max: u64) -> int {
    let exponent: nat = if attempt < 5 {
        attempt as nat
    } else {
        5
    };
    let delay = base * power2::pow2(exponent);
    let held = if delay > u64::MAX {
        u64::MAX as int
    } else {
        delay
    };
    if held > max {
        max as int
    } else {
        held
    }
}

/// A number that is given, or else the default.
pub open spec fn or_else(value: Option<u64>, default: u64) -> u64 {
    match value {
        Some(v) => v,
        None => default,
    }
}

/// The delay before a retry, in seconds.
pub fn backoff_seconds(attempt: u32, base_delay_secs: Option<u64>, max_delay_secs: Option<u64>) -> (r:
    u64)
    ensures
        r == backoff_delay(attempt, or_else(base_delay_secs, 15), or_else(max_delay_secs, 300)),
{
    let base: u64 = match base_delay_secs {
        Some(base) => base,
        None => 15,
    };
    let max: u64 = match max_delay_secs {
        Some(max) => max,
        None => 300,
    };
    let exponent: u32 = if attempt < 5 {
        attempt
    } else {
        5
    };
    proof {
        power2::lemma2_to64();
    }
    let factor: u64 = match exponent {
        0 => 1,
        1 => 2,
        2 => 4,
        3 => 8,
        4 => 16,
        _ => 32,
    };
    assert(factor == power2::pow2(exponent as nat));
    let delay: u64 = match base.checked_mul(factor) {
        Some(delay) => delay,
        None => u64::MAX,
    };
    if delay > max {
        max
    } else {
        delay
    }
}

/// Calculate exponential backoff delay for retry attempts
///
/// # Arguments
/// * `attempt` - Current retry attempt number (0-indexed)
/// * `base_delay_secs` - Base delay in seconds (default: 15)
/// * `max_delay_secs` - Maximum delay cap in seconds (default: 300 = 5 minutes)
///
/// # Returns
/// Duration to wait before next retry
pub fn calculate_backoff(
    attempt: u32,
    base_delay_secs: Option<u64>,
    max_delay_secs: Option<u64>,
) -> (r: Duration)
    ensures
        r == duration_of_secs(
            backoff_delay(
                attempt,
                or_else(base_delay_secs, 15),
                or_else(max_delay_secs, 300),
            ) as u64,
        ),
{
    Duration::from_secs(backoff_seconds(attempt, base_delay_secs, max_delay_secs))
}

/// Later attempts never wait less, no attempt waits longer than the cap, the
/// first attempt waits for the base delay (or the cap), and from the sixth on
/// the delay stays the same.
pub proof fn backoff_grows_to_the_cap(earlier: u32, later: u32, base: u64, max: u64)
    requires
        earlier <= later,
    ensures
        backoff_delay(earlier, base, max) <= backoff_delay(later, base, max),
        0 <= backoff_delay(later, base, max) <= max,
        backoff_delay(0, base, max) == if base > max {
            max
        } else {
            base
        },
        earlier >= 5 ==> backoff_delay(earlier, base, max) == backoff_delay(later, base, max),
{
    power2::lemma2_to64();
    let a: nat = if earlier < 5 {
        earlier as nat
    } else {
        5
    };
    let b: nat = if later < 5 {
        later as nat
    } else {
        5
    };
    if a < b {
        power2::lemma_pow2_strictly_increases(a, b);
    }
    let x = power2::pow2(a);
    let y = power2::pow2(b);
    assert(base * x <= base * y) by (nonlinear_arith)
        requires
            x <= y,
            0 <= base,
    ;
    assert(0 <= base * y) by (nonlinear_arith)
        requires
            0 <= y,
            0 <= base,
    ;
    assert(base * 1 == base);
}

/// The archives that passed and those that failed come in the order in which they are
/// configured: what holds of the first of them is found first.
pub proof fn archives_keep_their_order(urls: Seq<Seq<char>>, outcomes: Seq<Result<(), Error>>)
    requires
        0 < urls.len() <= outcomes.len(),
    ensures
        ({
            let (healthy, unhealthy) = (
                passed(urls.skip(1), outcomes.skip(1)),
                failed(urls.skip(1), outcomes.skip(1)),
            );
            match outcomes[0] {
                Ok(_) => {
                    &&& passed(urls, outcomes) == seq![urls[0]] + healthy
                    &&& failed(urls, outcomes) == unhealthy
                },
                Err(error) => {
                    &&& passed(urls, outcomes) == healthy
                    &&& failed(urls, outcomes) == seq![(urls[0], error.message())] + unhealthy
                },
            }
        }),
    decreases urls.len(),
{
    let tail = urls.skip(1);
    let rest = outcomes.skip(1);
    if urls.len() == 1 {
        assert(urls.drop_last() =~= seq![]);
        assert(tail =~= seq![]);
        assert(passed(urls.drop_last(), outcomes) =~= seq![]);
        assert(failed(urls.drop_last(), outcomes) =~= seq![]);
        assert(passed(tail, rest) =~= seq![]);
        assert(failed(tail, rest) =~= seq![]);
        assert(passed(urls, outcomes) =~= (if outcomes[0] is Ok {
            seq![urls[0]]
        } else {
            seq![]
        }));
    } else {
        archives_keep_their_order(urls.drop_last(), outcomes);
        assert(urls.drop_last().skip(1) =~= tail.drop_last());
        assert(urls.drop_last()[0] == urls[0]);
        assert(rest[tail.len() - 1] == outcomes[urls.len() - 1]);
        assert(tail.last() == urls.last());
        assert(passed(urls, outcomes) =~= (if outcomes[0] is Ok {
            seq![urls[0]] + passed(tail, rest)
        } else {
            passed(tail, rest)
        }));
        assert(failed(urls, outcomes) =~= (if outcomes[0] is Ok {
            failed(tail, rest)
        } else {
            seq![(urls[0], outcomes[0]->Err_0.message())] + failed(tail, rest)
        }));
    }
}

/// An archive is asked for its metadata and its root below its address, however many
/// slashes the address ends with.
pub proof fn archives_are_asked_below_their_address(base: Seq<char>, url: Seq<char>)
    requires
        base.len() > 0 ==> base.last() != '/',
        base.is_prefix_of(url),
        forall|i: int| base.len() <= i < url.len() ==> #[trigger] url[i] == '/',
    ensures
        metadata_url(url) == base + "/.well-known/stellar-history.json"@,
        root_url(url) == base + "/"@,
    decreases url.len(),
{
    if url.len() == base.len() {
        assert(url =~= base);
    } else {
        assert(url.last() == '/');
        let shorter = url.drop_last();
        assert(shorter.subrange(0, base.len() as int) =~= base);
        assert forall|i: int| base.len() <= i < shorter.len() implies #[trigger] shorter[i]
            == '/' by {
            assert(shorter[i] == url[i]);
        }
        archives_are_asked_below_their_address(base, shorter);
    }
}

/// What a check found is summed up by how many archives are healthy and how many are
/// not, and every unhealthy one has a line of its own, with its address and its error.
pub proof fn findings_are_summed_up(result: ArchiveHealthResult, i: int)
    requires
        result.all_healthy == (result.unhealthy_urls@.len() == 0 && result.healthy_urls@.len() > 0),
        result.any_healthy == (result.healthy_urls@.len() > 0),
    ensures
        ({
            let up = result.healthy_urls@.len();
            let down = result.unhealthy_urls@.len();
            let lines = error_lines(result.unhealthy_urls.deep_view());
            &&& up == 0 && down == 0 ==> result.summary_text() == "No archives configured"@
            &&& up > 0 && down == 0 ==> result.summary_text() == "All "@ + text::decimal(up)
                + " archive(s) healthy"@
            &&& up > 0 && down > 0 ==> result.summary_text() == text::decimal(up) + " healthy, "@
                + text::decimal(down) + " unhealthy archive(s)"@
            &&& up == 0 && down > 0 ==> result.summary_text() == "All "@ + text::decimal(down)
                + " archive(s) unhealthy"@
            &&& lines.len() == down
            &&& 0 <= i < down ==> lines[i] == "  - "@ + result.unhealthy_urls@[i].0@ + ": "@
                + result.unhealthy_urls@[i].1@
            &&& result.details_text() == text::joined(lines, "\n"@)
        }),
{
}

/// Below the cap, each of the first five retries waits twice as long as the one before.
pub proof fn backoff_doubles(attempt: u32, base: u64, max: u64)
    requires
        attempt < 5,
    ensures
        ({
            let next = 2 * backoff_delay(attempt, base, max);
            backoff_delay((attempt + 1) as u32, base, max) == if next < max {
                next
            } else {
                max as int
            }
        }),
{
    power2::lemma2_to64();
    power2::lemma_pow2_unfold((attempt + 1) as nat);
    let x = power2::pow2(attempt as nat);
    assert(base * (2 * x) == 2 * (base * x)) by (nonlinear_arith);
    assert(0 <= base * x) by (nonlinear_arith)
        requires
            0 <= x,
            0 <= base,
    ;
}

} // verus!
