use vstd::arithmetic::div_mod::lemma_div_is_ordered;
use vstd::arithmetic::div_mod::lemma_div_multiples_vanish;
use vstd::arithmetic::div_mod::lemma_div_pos_is_pos;
use vstd::prelude::*;

use crate::channel::StatusChannel;
use crate::status::is_terminal;
use crate::status::Status;
use crate::status::StatusView;

verus! {

/// What the external updater reported when asked whether an update exists.
/// An updater that is not configured at all and one that finds nothing both
/// end the run the same way; they are kept apart because the collaborator
/// reports them apart.
#[derive(Clone, Copy, PartialEq, Eq, Structural, Debug)]
pub enum UpdateCheckResult {
    NotConfigured,
    NoUpdate,
    UpdateAvailable,
}

/// How the download-and-install phase of an available update ended.
#[derive(Clone, Copy, PartialEq, Eq, Structural, Debug)]
pub enum InstallResult {
    Failed,
    Installed,
}

/// The terminal action of one workflow run: settle on running the current
/// build, or restart into the updated one.
#[derive(Clone, Copy, PartialEq, Eq, Structural, Debug)]
pub enum WorkflowEnd {
    RunCurrent,
    Restart,
}

/// The sum of a sequence of chunk sizes.
pub open spec fn spec_sum(chunks: Seq<u64>) -> int
    decreases chunks.len(),
{
    if chunks.len() == 0 {
        0
    } else {
        spec_sum(chunks.drop_last()) + chunks.last()
    }
}

/// The progress percent for a downloaded byte count against a total:
/// `floor(downloaded * 100 / total)`, and 0 when the total is zero or
/// unknown.
pub open spec fn spec_percent(downloaded: int, total: int) -> int {
    if total <= 0 {
        0
    } else {
        downloaded * 100 / total
    }
}

/// `spec_percent` against an optional total: an absent total counts as
/// unknown.
pub open spec fn spec_percent_opt(downloaded: int, total: Option<u64>) -> int {
    match total {
        Option::Some(t) => spec_percent(downloaded, t as int),
        Option::None => 0,
    }
}

/// The percent reported at each progress callback of a download: entry `i`
/// is the percent of everything downloaded through chunk `i`.
pub open spec fn spec_percents(chunks: Seq<u64>, total: Option<u64>) -> Seq<int> {
    Seq::new(chunks.len(), |i: int| spec_percent_opt(spec_sum(chunks.take(i + 1)), total))
}

/// A sequence with every run of consecutive equal values collapsed to its
/// first occurrence.
pub open spec fn spec_coalesce(s: Seq<int>) -> Seq<int>
    decreases s.len(),
{
    if s.len() == 0 {
        Seq::empty()
    } else if s.len() == 1 {
        seq![s[0]]
    } else if s[s.len() - 2] == s.last() {
        spec_coalesce(s.drop_last())
    } else {
        spec_coalesce(s.drop_last()).push(s.last())
    }
}

/// The progress values one download session publishes: the callback percents
/// with consecutive duplicates suppressed.
pub open spec fn spec_published(chunks: Seq<u64>, total: Option<u64>) -> Seq<int> {
    spec_coalesce(spec_percents(chunks, total))
}

/// A sum of chunk sizes is never negative.
proof fn lemma_sum_nonneg(chunks: Seq<u64>)
    ensures
        0 <= spec_sum(chunks),
    decreases chunks.len(),
{
    if chunks.len() > 0 {
        lemma_sum_nonneg(chunks.drop_last());
    }
}

/// Extending a prefix by one chunk adds exactly that chunk to its sum.
proof fn lemma_sum_take_succ(chunks: Seq<u64>, i: int)
    requires
        0 <= i < chunks.len(),
    ensures
        spec_sum(chunks.take(i + 1)) == spec_sum(chunks.take(i)) + chunks[i],
{
    let t = chunks.take(i + 1);
    assert(t.drop_last() =~= chunks.take(i));
    assert(t.last() == chunks[i]);
}

/// Prefix sums grow with the prefix.
proof fn lemma_sum_take_monotone(chunks: Seq<u64>, a: int, b: int)
    requires
        0 <= a <= b <= chunks.len(),
    ensures
        spec_sum(chunks.take(a)) <= spec_sum(chunks.take(b)),
    decreases b - a,
{
    if a < b {
        lemma_sum_take_succ(chunks, b - 1);
        lemma_sum_take_monotone(chunks, a, b - 1);
    }
}

/// No prefix sums past the whole sequence's sum.
proof fn lemma_sum_take_le(chunks: Seq<u64>, i: int)
    requires
        0 <= i <= chunks.len(),
    ensures
        spec_sum(chunks.take(i)) <= spec_sum(chunks),
{
    lemma_sum_take_monotone(chunks, i, chunks.len() as int);
    assert(chunks.take(chunks.len() as int) =~= chunks);
}

/// The percent of a byte count is between 0 and 100 once the count is within
/// the total.
proof fn lemma_percent_bounds(downloaded: int, total: int)
    requires
        0 <= downloaded,
    ensures
        0 <= spec_percent(downloaded, total),
        0 < total && downloaded <= total ==> spec_percent(downloaded, total) <= 100,
{
    if total > 0 {
        lemma_div_pos_is_pos(downloaded * 100, total);
        if downloaded <= total {
            lemma_div_is_ordered(downloaded * 100, total * 100, total);
            lemma_div_multiples_vanish(100, total);
        }
    }
}

/// The percent never falls as the downloaded count grows.
proof fn lemma_percent_monotone(d1: int, d2: int, total: int)
    requires
        0 <= d1 <= d2,
    ensures
        spec_percent(d1, total) <= spec_percent(d2, total),
{
    if total > 0 {
        lemma_div_is_ordered(d1 * 100, d2 * 100, total);
    }
}

/// The running progress state of one download session: how much has arrived
/// and the last percent that was published, if any. It starts empty and
/// unpublished, so the first callback always publishes.
pub struct ProgressTracker {
    pub downloaded_bytes: u64,
    pub last_published: Option<u32>,
}

impl ProgressTracker {
    /// A fresh session: nothing downloaded, nothing published yet.
    pub fn new() -> (r: ProgressTracker)
        ensures
            r.downloaded_bytes == 0,
            r.last_published is None,
    {
        ProgressTracker { downloaded_bytes: 0, last_published: None }
    }

    /// One progress callback firing with `(chunk_bytes, total_bytes)`:
    /// accumulates the chunk and answers the percent to publish, or `None`
    /// when it equals the last published percent (coalescing). A zero or
    /// unknown total counts as total-unknown and reports percent 0.
    pub fn on_chunk(&mut self, chunk_bytes: u64, total_bytes: Option<u64>) -> (publish: Option<
        u32,
    >)
        requires
            old(self).downloaded_bytes + chunk_bytes <= u64::MAX,
            total_bytes matches Some(t) ==> (t > 0 ==> old(self).downloaded_bytes + chunk_bytes
                <= t),
        ensures
            final(self).downloaded_bytes == old(self).downloaded_bytes + chunk_bytes,
            ({
                let p = spec_percent_opt(old(self).downloaded_bytes + chunk_bytes, total_bytes);
                &&& 0 <= p <= 100
                &&& final(self).last_published == Some(p as u32)
                &&& publish == (if old(self).last_published == Some(p as u32) {
                    Option::<u32>::None
                } else {
                    Some(p as u32)
                })
            }),
    {
        self.downloaded_bytes = self.downloaded_bytes + chunk_bytes;
        let percent: u32 = match total_bytes {
            Some(t) => {
                if t == 0 {
                    0
                } else {
                    let wide: u128 = (self.downloaded_bytes as u128) * 100 / (t as u128);
                    proof {
                        lemma_percent_bounds(self.downloaded_bytes as int, t as int);
                    }
                    wide as u32
                }
            },
            None => 0,
        };
        let prev = self.last_published;
        self.last_published = Some(percent);
        let duplicate = match prev {
            Some(lp) => lp == percent,
            None => false,
        };
        if duplicate {
            None
        } else {
            Some(percent)
        }
    }
}

/// The `DownloadingUpdate` statuses carrying a sequence of percents.
pub open spec fn spec_downloading(ps: Seq<int>) -> Seq<StatusView> {
    ps.map_values(|p: int| StatusView::DownloadingUpdate { progress: p as u32 })
}

/// Appending a percent to a run extends the coalesced form only when it
/// differs from the run's last percent.
proof fn lemma_coalesce_push(s: Seq<int>, x: int)
    ensures
        spec_coalesce(s.push(x)) == (if s.len() > 0 && s.last() == x {
            spec_coalesce(s)
        } else {
            spec_coalesce(s).push(x)
        }),
{
    let t = s.push(x);
    assert(t.drop_last() =~= s);
    if s.len() == 0 {
        assert(spec_coalesce(t) =~= spec_coalesce(s).push(x));
    }
}

/// Mapping percents to `DownloadingUpdate` statuses commutes with appending.
proof fn lemma_downloading_push(ps: Seq<int>, p: int)
    ensures
        spec_downloading(ps.push(p)) == spec_downloading(ps).push(
            StatusView::DownloadingUpdate { progress: p as u32 },
        ),
{
    assert(spec_downloading(ps.push(p)) =~= spec_downloading(ps).push(
        StatusView::DownloadingUpdate { progress: p as u32 },
    ));
}

/// The percents of a prefix one chunk longer are those of the shorter prefix
/// plus the percent after that chunk.
proof fn lemma_percents_take_succ(chunks: Seq<u64>, total: Option<u64>, i: int)
    requires
        0 <= i < chunks.len(),
    ensures
        spec_percents(chunks.take(i + 1), total) == spec_percents(chunks.take(i), total).push(
            spec_percent_opt(spec_sum(chunks.take(i + 1)), total),
        ),
{
    let a = spec_percents(chunks.take(i + 1), total);
    let b = spec_percents(chunks.take(i), total).push(
        spec_percent_opt(spec_sum(chunks.take(i + 1)), total),
    );
    assert forall|j: int| 0 <= j < i + 1 implies a[j] == b[j] by {
        assert(chunks.take(i + 1).take(j + 1) =~= chunks.take(j + 1));
        if j < i {
            assert(chunks.take(i).take(j + 1) =~= chunks.take(j + 1));
        } else {
            assert(chunks.take(i + 1).take(i + 1) =~= chunks.take(i + 1));
        }
    }
    assert(a =~= b);
}

/// The coalesced form of a non-decreasing run is strictly increasing and
/// ends on the run's last value.
proof fn lemma_coalesce_sorted(s: Seq<int>)
    requires
        forall|i: int, j: int| 0 <= i <= j < s.len() ==> s[i] <= s[j],
    ensures
        s.len() == 0 ==> spec_coalesce(s).len() == 0,
        s.len() > 0 ==> spec_coalesce(s).len() > 0 && spec_coalesce(s).last() == s.last(),
        forall|a: int, b: int|
            0 <= a < b < spec_coalesce(s).len() ==> spec_coalesce(s)[a] < spec_coalesce(s)[b],
    decreases s.len(),
{
    if s.len() <= 1 {
    } else {
        let d = s.drop_last();
        assert forall|i: int, j: int| 0 <= i <= j < d.len() implies d[i] <= d[j] by {
            assert(d[i] == s[i]);
            assert(d[j] == s[j]);
        }
        lemma_coalesce_sorted(d);
        let c = spec_coalesce(s);
        let cd = spec_coalesce(d);
        assert(d.last() == s[s.len() - 2]);
        if s[s.len() - 2] == s.last() {
            assert(c == cd);
            assert(c.last() == s.last());
        } else {
            assert(c == cd.push(s.last()));
            assert(s[s.len() - 2] <= s.last());
            assert(cd.last() < s.last());
            assert forall|a: int, b: int| 0 <= a < b < c.len() implies c[a] < c[b] by {
                if b < c.len() - 1 {
                    assert(c[a] == cd[a]);
                    assert(c[b] == cd[b]);
                } else {
                    assert(c[b] == s.last());
                    assert(c[a] == cd[a]);
                    if a < cd.len() - 1 {
                        assert(cd[a] < cd[cd.len() - 1]);
                    }
                }
            }
        }
    }
}

/// Coalescing: over a download whose total is known and positive, the
/// published progress values are strictly increasing — in particular the
/// publish sequence holds no two consecutive equal values.
pub proof fn lemma_published_strictly_increasing(chunks: Seq<u64>, total: u64)
    requires
        total > 0,
    ensures
        forall|a: int, b: int|
            0 <= a < b < spec_published(chunks, Some(total)).len() ==> spec_published(
                chunks,
                Some(total),
            )[a] < spec_published(chunks, Some(total))[b],
{
    let ps = spec_percents(chunks, Some(total));
    assert forall|i: int, j: int| 0 <= i <= j < ps.len() implies ps[i] <= ps[j] by {
        lemma_sum_nonneg(chunks.take(i + 1));
        lemma_sum_take_monotone(chunks, i + 1, j + 1);
        lemma_percent_monotone(
            spec_sum(chunks.take(i + 1)),
            spec_sum(chunks.take(j + 1)),
            total as int,
        );
    }
    lemma_coalesce_sorted(ps);
}

/// One progress callback of the update workflow: accumulates the chunk into
/// the tracker and publishes `DownloadingUpdate` with the new percent — but
/// only when it differs from the last published percent, so subscribers are
/// never flooded with duplicates.
pub fn publish_progress(
    ch: &mut StatusChannel,
    tracker: &mut ProgressTracker,
    chunk_bytes: u64,
    total_bytes: Option<u64>,
)
    requires
        old(ch).wf(),
        old(tracker).downloaded_bytes + chunk_bytes <= u64::MAX,
        total_bytes matches Some(t) ==> (t > 0 ==> old(tracker).downloaded_bytes + chunk_bytes
            <= t),
    ensures
        final(ch).wf(),
        final(tracker).downloaded_bytes == old(tracker).downloaded_bytes + chunk_bytes,
        ({
            let p = spec_percent_opt(old(tracker).downloaded_bytes + chunk_bytes, total_bytes);
            &&& 0 <= p <= 100
            &&& final(tracker).last_published == Some(p as u32)
            &&& (if old(tracker).last_published == Some(p as u32) {
                final(ch)@ == old(ch)@
            } else {
                final(ch)@ == old(ch)@.push((StatusView::DownloadingUpdate { progress: p as u32 }))
            })
        }),
{
    match tracker.on_chunk(chunk_bytes, total_bytes) {
        Some(p) => {
            ch.update(Status::DownloadingUpdate { progress: p });
        },
        None => {},
    }
}

/// The terminal action a workflow run converges on: restart into the update
/// exactly when one was found, downloaded and installed; in every other case
/// settle on running the current build.
pub open spec fn spec_workflow_end(check: UpdateCheckResult, install: InstallResult) -> WorkflowEnd {
    if check is UpdateAvailable && install is Installed {
        WorkflowEnd::Restart
    } else {
        WorkflowEnd::RunCurrent
    }
}

/// Every status one workflow run publishes, in order, given the
/// collaborator's answers: checking first; then, when an update was found,
/// the coalesced download percents; and, unless the run restarts, the
/// terminal `Running` status with the current build version.
pub open spec fn spec_workflow_publishes(
    check: UpdateCheckResult,
    chunks: Seq<u64>,
    total: Option<u64>,
    install: InstallResult,
    version: Seq<char>,
) -> Seq<StatusView> {
    seq![StatusView::CheckingForUpdates] + (if check is UpdateAvailable {
        spec_downloading(spec_published(chunks, total)) + (if install is Installed {
            Seq::<StatusView>::empty()
        } else {
            seq![StatusView::Running { version }]
        })
    } else {
        seq![StatusView::Running { version }]
    })
}

/// One whole update workflow run over the status channel, replayed against
/// the collaborator's answers: the check outcome, the progress callbacks the
/// download fired, and how the install ended. The channel receives exactly
/// `spec_workflow_publishes` of those answers, appended in order, and the
/// returned action is the run's terminal action — triggering the restart
/// itself is the caller's, the process runner's, job.
pub fn run_update_workflow(
    ch: &mut StatusChannel,
    check: &UpdateCheckResult,
    chunks: &Vec<u64>,
    total_bytes: Option<u64>,
    install: &InstallResult,
    current_version: &str,
) -> (end: WorkflowEnd)
    requires
        old(ch).wf(),
        spec_sum(chunks@) <= u64::MAX,
        total_bytes matches Some(t) ==> (t > 0 ==> spec_sum(chunks@) <= t),
    ensures
        final(ch).wf(),
        end == spec_workflow_end(*check, *install),
        final(ch)@ == old(ch)@ + spec_workflow_publishes(
            *check,
            chunks@,
            total_bytes,
            *install,
            current_version@,
        ),
{
    ch.update(Status::CheckingForUpdates);
    let ghost base = ch@;
    proof {
        assert(base =~= old(ch)@ + seq![StatusView::CheckingForUpdates]);
    }
    match check {
        UpdateCheckResult::UpdateAvailable => {
            let mut tracker = ProgressTracker::new();
            let mut i: usize = 0;
            proof {
                assert(chunks@.take(0) =~= Seq::<u64>::empty());
                assert(ch@ =~= base + spec_downloading(spec_published(chunks@.take(0), total_bytes)));
            }
            while i < chunks.len()
                invariant
                    i <= chunks.len(),
                    ch.wf(),
                    spec_sum(chunks@) <= u64::MAX,
                    total_bytes matches Some(t) ==> (t > 0 ==> spec_sum(chunks@) <= t),
                    tracker.downloaded_bytes == spec_sum(chunks@.take(i as int)),
                    tracker.last_published == (if i == 0 {
                        Option::<u32>::None
                    } else {
                        Some(
                            spec_percent_opt(spec_sum(chunks@.take(i as int)), total_bytes) as u32,
                        )
                    }),
                    ch@ == base + spec_downloading(
                        spec_published(chunks@.take(i as int), total_bytes),
                    ),
                decreases chunks.len() - i,
            {
                let ghost gi = i as int;
                proof {
                    lemma_sum_take_succ(chunks@, gi);
                    lemma_sum_take_le(chunks@, gi + 1);
                    lemma_sum_nonneg(chunks@.take(gi));
                    lemma_sum_nonneg(chunks@.take(gi + 1));
                }
                let ghost pre_tracker = tracker;
                let ghost pre_ch = ch@;
                publish_progress(ch, &mut tracker, chunks[i], total_bytes);
                i = i + 1;
                proof {
                    let prev_ps = spec_percents(chunks@.take(gi), total_bytes);
                    let p = spec_percent_opt(spec_sum(chunks@.take(gi + 1)), total_bytes);
                    lemma_percents_take_succ(chunks@, total_bytes, gi);
                    lemma_coalesce_push(prev_ps, p);
                    if gi > 0 {
                        // the tracker's last published percent is the last callback percent
                        assert(chunks@.take(gi).take(gi) =~= chunks@.take(gi));
                        assert(prev_ps.last() == spec_percent_opt(
                            spec_sum(chunks@.take(gi)),
                            total_bytes,
                        ));
                        lemma_percent_bounds_opt(spec_sum(chunks@.take(gi)), total_bytes);
                    }
                    lemma_percent_bounds_opt(spec_sum(chunks@.take(gi + 1)), total_bytes);
                    if pre_tracker.last_published == Some(p as u32) {
                        // coalesced away: the previous percent equals this one
                        assert(gi > 0);
                        assert(prev_ps.last() as u32 == p as u32);
                        assert(prev_ps.last() == p);
                        assert(spec_published(chunks@.take(gi + 1), total_bytes) == spec_published(
                            chunks@.take(gi),
                            total_bytes,
                        ));
                    } else {
                        // published: a fresh percent
                        if gi > 0 {
                            assert(prev_ps.last() != p);
                        }
                        assert(spec_published(chunks@.take(gi + 1), total_bytes)
                            == spec_published(chunks@.take(gi), total_bytes).push(p));
                        lemma_downloading_push(spec_published(chunks@.take(gi), total_bytes), p);
                    }
                }
            }
            proof {
                assert(chunks@.take(chunks@.len() as int) =~= chunks@);
            }
            match install {
                InstallResult::Failed => {
                    ch.update(Status::Running { version: current_version.to_owned() });
                    proof {
                        assert(ch@ =~= old(ch)@ + spec_workflow_publishes(
                            *check,
                            chunks@,
                            total_bytes,
                            *install,
                            current_version@,
                        ));
                    }
                    WorkflowEnd::RunCurrent
                },
                InstallResult::Installed => {
                    proof {
                        assert(ch@ =~= old(ch)@ + spec_workflow_publishes(
                            *check,
                            chunks@,
                            total_bytes,
                            *install,
                            current_version@,
                        ));
                    }
                    WorkflowEnd::Restart
                },
            }
        },
        _ => {
            ch.update(Status::Running { version: current_version.to_owned() });
            proof {
                assert(ch@ =~= old(ch)@ + spec_workflow_publishes(
                    *check,
                    chunks@,
                    total_bytes,
                    *install,
                    current_version@,
                ));
            }
            WorkflowEnd::RunCurrent
        },
    }
}

/// `spec_percent_opt` stays between 0 and 100 whenever the downloaded count
/// is within the known total.
proof fn lemma_percent_bounds_opt(downloaded: int, total: Option<u64>)
    requires
        0 <= downloaded,
        total matches Some(t) ==> (t > 0 ==> downloaded <= t),
    ensures
        0 <= spec_percent_opt(downloaded, total) <= 100,
{
    match total {
        Option::Some(t) => {
            lemma_percent_bounds(downloaded, t as int);
        },
        Option::None => {},
    }
}

/// Terminal convergence: whatever the updater reports — not configured, no
/// update, a failing download, or a successful install — one workflow run
/// ends terminally. Either it restarts, exactly when an update was installed,
/// or its last published status is `Running` with the current version; it
/// never leaves the channel resting on `CheckingForUpdates` or
/// `DownloadingUpdate`.
pub proof fn lemma_terminal_convergence(
    check: UpdateCheckResult,
    chunks: Seq<u64>,
    total: Option<u64>,
    install: InstallResult,
    version: Seq<char>,
)
    ensures
        spec_workflow_end(check, install) == WorkflowEnd::Restart <==> (check is UpdateAvailable
            && install is Installed),
        spec_workflow_end(check, install) == WorkflowEnd::RunCurrent ==> ({
            let pubs = spec_workflow_publishes(check, chunks, total, install, version);
            &&& pubs.len() > 0
            &&& pubs.last() == (StatusView::Running { version })
            &&& is_terminal(pubs.last())
        }),
{
    let pubs = spec_workflow_publishes(check, chunks, total, install, version);
    if spec_workflow_end(check, install) == WorkflowEnd::RunCurrent {
        if check is UpdateAvailable {
            let tail = spec_downloading(spec_published(chunks, total)) + seq![
                StatusView::Running { version },
            ];
            assert(tail.last() == (StatusView::Running { version }));
            assert(pubs.last() == tail.last());
        } else {
            assert(pubs.last() == (StatusView::Running { version }));
        }
    }
}

} // verus!
