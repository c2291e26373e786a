//! The crawl controller: owns the extracted sources, the progress record
//! and the cancellation flag, and drives extraction, the download
//! schedule and the cleanup selection. Everything that touches the
//! network, the clock or the disk stays with the caller, which hands in
//! plain values: fetched documents, per-attempt transfer results, and
//! directory listings.

use vstd::prelude::*;
use vstd::string::StrSliceExecFns;
use vstd::string::StringExecFns;
use crate::cleanup::FileEntry;
use crate::cleanup::deletions_spec;
use crate::cleanup::select_deletions;
use crate::extract::SourceDescriptor;
use crate::extract::extract_fold;
use crate::extract::extract_pages_into;
use crate::extract::page_view_of;
use crate::extract::read_all_markers;
use crate::extract::sources_view;
use crate::progress::BunkrSpiderInformation;
use crate::progress::BunkrSpiderState;
use crate::retry::AttemptEvent;
use crate::retry::ItemOutcome;
use crate::retry::MAX_ATTEMPTS;
use crate::retry::resolve_item;
use crate::retry::successful_within;
use crate::paths::download_dir_spec;
use crate::paths::resolve_download_dir;
use crate::urls::normalize_url;
use crate::urls::normalize_url_spec;

verus! {

/// Downloads in flight at once.
pub const CONCURRENT_LIMIT: usize = 8;

/// Throughput floor handed to the transfer guard; zero disables the
/// stall check and stands as a policy hook for stricter configurations.
pub const MIN_SPEED_BPS: u64 = 0;

/// Successful items among the first `n`, given the attempt results each
/// item would produce and the cancellation flag as observed at dispatch.
pub open spec fn successes(evs: Seq<Seq<AttemptEvent>>, cancelled: bool, n: int) -> nat
    decreases n,
{
    if n <= 0 {
        0
    } else {
        successes(evs, cancelled, n - 1) + (if !cancelled && successful_within(
            evs[n - 1],
            MAX_ATTEMPTS as int,
        ) {
            1nat
        } else {
            0nat
        })
    }
}

pub proof fn lemma_successes_bound(evs: Seq<Seq<AttemptEvent>>, cancelled: bool, n: int)
    requires
        n >= 0,
    ensures
        successes(evs, cancelled, n) <= n,
    decreases n,
{
    if n > 0 {
        lemma_successes_bound(evs, cancelled, n - 1);
    }
}

/// The downloaded counter never decreases: the count after any further
/// items is at least the count before them, whatever the attempt results
/// and whatever completion order a concurrent driver realizes — the count
/// is a function of the set of successful items alone.
pub proof fn lemma_successes_monotone(evs: Seq<Seq<AttemptEvent>>, cancelled: bool, m: int, n: int)
    requires
        0 <= m <= n,
    ensures
        successes(evs, cancelled, m) <= successes(evs, cancelled, n),
    decreases n,
{
    if m < n {
        lemma_successes_monotone(evs, cancelled, m, n - 1);
    }
}

pub proof fn lemma_successes_cancelled(evs: Seq<Seq<AttemptEvent>>, n: int)
    requires
        n >= 0,
    ensures
        successes(evs, true, n) == 0,
    decreases n,
{
    if n > 0 {
        lemma_successes_cancelled(evs, n - 1);
    }
}

/// One gallery crawl and its downloads.
pub struct BunkrSpider {
    /// The normalized album URL of the current run.
    pub url: String,
    /// The sanitized album title; empty while none was found.
    pub title: String,
    /// The extracted sources, in album order.
    pub sources: Vec<SourceDescriptor>,
    /// Where the album directory is created.
    pub base_dir: String,
    /// The cancellation flag: set by `stop`, cleared only by `reset`.
    pub should_stop: bool,
    /// The progress record shared with the presentation layer.
    pub info: BunkrSpiderInformation,
}

impl BunkrSpider {
    pub fn new() -> (r: BunkrSpider)
        ensures
            r.url@ == Seq::<char>::empty(),
            r.title@ == Seq::<char>::empty(),
            r.sources@ == Seq::<SourceDescriptor>::empty(),
            r.base_dir@ == "."@,
            !r.should_stop,
            r.info.fresh(),
    {
        BunkrSpider {
            url: String::new(),
            title: String::new(),
            sources: Vec::new(),
            base_dir: String::from_str("."),
            should_stop: false,
            info: BunkrSpiderInformation::new(),
        }
    }

    /// The analysis phase of one run: stores the base directory, keeps the
    /// URL with its query string stripped, folds the already-fetched
    /// documents into the album title and the source list, and sets both
    /// counters. Fetching the documents is the caller's work; the state is
    /// `Analyzing` until the download phase begins.
    pub fn run(&mut self, base_dir: String, url: &str, pages: &Vec<String>) -> (r:
        BunkrSpiderInformation)
        ensures
            final(self).base_dir == base_dir,
            final(self).url@ == normalize_url_spec(url@),
            final(self).should_stop == old(self).should_stop,
            final(self).info.state is Analyzing,
            (final(self).title@, sources_view(final(self).sources@)) == extract_fold(
                pages@.map_values(|h: String| page_view_of(h@)),
                (old(self).title@, sources_view(old(self).sources@)),
            ),
            (final(self).info.total_sources matches Some(t) && t == final(self).sources@.len()),
            final(self).info.downloaded_sources == Some(0usize),
            final(self).info.wf(),
            r == final(self).info,
    {
        self.base_dir = base_dir;
        self.url = normalize_url(url);
        self.info.state = BunkrSpiderState::Analyzing;
        let markers = read_all_markers(pages);
        extract_pages_into(&mut self.title, &mut self.sources, &markers);
        let n = self.sources.len();
        self.info.total_sources = Some(n);
        self.info.downloaded_sources = Some(0);
        self.info
    }

    /// The download phase over the extracted sources, resolved from the
    /// attempt results the transfers produce: one list per source, read
    /// only as far as the retry budget reaches. Outcome `i` belongs to
    /// source `i`. The downloaded counter moves up once per completed
    /// item from wherever it starts, never decreases, and never passes
    /// the total; with the cancellation flag set before the phase starts,
    /// every item is stopped and the counter does not move. Ends in state
    /// `Finished` either way.
    pub fn download_all(&mut self, events: &Vec<Vec<AttemptEvent>>) -> (r: Vec<ItemOutcome>)
        requires
            events@.len() == old(self).sources@.len(),
            forall|i: int| 0 <= i < events@.len() ==> events@[i]@.len() >= MAX_ATTEMPTS,
            (old(self).info.total_sources matches Some(t) && (old(
                self).info.downloaded_sources matches Some(d0) && d0 + events@.len() <= t)),
        ensures
            final(self).url == old(self).url,
            final(self).title == old(self).title,
            final(self).sources == old(self).sources,
            final(self).base_dir == old(self).base_dir,
            final(self).should_stop == old(self).should_stop,
            final(self).info.state is Finished,
            final(self).info.total_sources == old(self).info.total_sources,
            final(self).info.wf(),
            r@.len() == events@.len(),
            forall|i: int| 0 <= i < r@.len() ==> ((r@[i] is Stopped) <==> old(self).should_stop),
            forall|i: int|
                0 <= i < r@.len() ==> (!old(self).should_stop ==> ((r@[i] is Completed)
                    <==> successful_within(events@[i]@, MAX_ATTEMPTS as int))),
            forall|i: int|
                0 <= i < r@.len() ==> (!old(self).should_stop && !successful_within(
                    events@[i]@,
                    MAX_ATTEMPTS as int,
                ) ==> (r@[i] matches ItemOutcome::Exhausted(m) && m@ == events@[i]@[MAX_ATTEMPTS
                    - 1]->Failure_0@)),
            (old(self).info.downloaded_sources matches Some(d0) && (final(
                self).info.downloaded_sources matches Some(d) && d == d0 + successes(
                events@.map_values(|v: Vec<AttemptEvent>| v@),
                old(self).should_stop,
                events@.len() as int,
            ) && d0 <= d)),
            (final(self).info.downloaded_sources matches Some(d) && (old(
                self).info.total_sources matches Some(t) && d <= t)),
            old(self).should_stop ==> final(self).info.downloaded_sources == old(
                self,
            ).info.downloaded_sources,
    {
        self.info.state = BunkrSpiderState::Downloading;
        let ghost evs = events@.map_values(|v: Vec<AttemptEvent>| v@);
        let cancelled = self.should_stop;
        let mut outcomes: Vec<ItemOutcome> = Vec::new();
        let n = events.len();
        let mut i: usize = 0;
        while i < n
            invariant
                i <= n,
                n == events@.len(),
                evs == events@.map_values(|v: Vec<AttemptEvent>| v@),
                forall|k: int| 0 <= k < events@.len() ==> events@[k]@.len() >= MAX_ATTEMPTS,
                cancelled == old(self).should_stop,
                outcomes@.len() == i,
                forall|k: int|
                    0 <= k < i ==> ((outcomes@[k] is Stopped) <==> cancelled),
                forall|k: int|
                    0 <= k < i ==> (!cancelled ==> ((outcomes@[k] is Completed)
                        <==> successful_within(events@[k]@, MAX_ATTEMPTS as int))),
                forall|k: int|
                    0 <= k < i ==> (!cancelled && !successful_within(
                        events@[k]@,
                        MAX_ATTEMPTS as int,
                    ) ==> (outcomes@[k] matches ItemOutcome::Exhausted(m) && m@
                        == events@[k]@[MAX_ATTEMPTS - 1]->Failure_0@)),
                (old(self).info.total_sources matches Some(t) && (old(
                    self).info.downloaded_sources matches Some(d0) && d0 + n <= t)),
                (old(self).info.downloaded_sources matches Some(d0) && (
                self.info.downloaded_sources matches Some(d) && d == d0 + successes(
                    evs,
                    cancelled,
                    i as int,
                ))),
                successes(evs, cancelled, i as int) <= i,
                self.info.total_sources == old(self).info.total_sources,
                self.info.state == BunkrSpiderState::Downloading,
                self.url == old(self).url,
                self.title == old(self).title,
                self.sources == old(self).sources,
                self.base_dir == old(self).base_dir,
                self.should_stop == old(self).should_stop,
            decreases n - i,
        {
            let outcome = resolve_item(&events[i], cancelled);
            proof {
                assert(evs[i as int] == events@[i as int]@);
            }
            match &outcome {
                ItemOutcome::Completed => {
                    match self.info.downloaded_sources {
                        Some(c) => {
                            self.info.downloaded_sources = Some(c + 1);
                        },
                        None => {},
                    }
                },
                _ => {},
            }
            outcomes.push(outcome);
            i += 1;
            proof {
                lemma_successes_bound(evs, cancelled, i as int);
            }
        }
        self.info.state = BunkrSpiderState::Finished;
        proof {
            lemma_successes_bound(evs, cancelled, n as int);
            if cancelled {
                lemma_successes_cancelled(evs, n as int);
            }
        }
        outcomes
    }

    /// Marks the download phase begun. A concurrent driver takes this
    /// edge itself, dispatches the items under its own pool, and accounts
    /// each success through `record_completed`.
    pub fn begin_download(&mut self)
        ensures
            final(self).info.state is Downloading,
            final(self).info.total_sources == old(self).info.total_sources,
            final(self).info.downloaded_sources == old(self).info.downloaded_sources,
            final(self).url == old(self).url,
            final(self).title == old(self).title,
            final(self).sources == old(self).sources,
            final(self).base_dir == old(self).base_dir,
            final(self).should_stop == old(self).should_stop,
    {
        self.info.state = BunkrSpiderState::Downloading;
    }

    /// Marks every dispatched item terminal: the run is finished.
    pub fn finish_download(&mut self)
        ensures
            final(self).info.state is Finished,
            final(self).info.total_sources == old(self).info.total_sources,
            final(self).info.downloaded_sources == old(self).info.downloaded_sources,
            final(self).url == old(self).url,
            final(self).title == old(self).title,
            final(self).sources == old(self).sources,
            final(self).base_dir == old(self).base_dir,
            final(self).should_stop == old(self).should_stop,
    {
        self.info.state = BunkrSpiderState::Finished;
    }

    /// Accounts exactly one successful terminal item outcome: when the
    /// counters are set, the downloaded count moves up by one and stays
    /// within the total; while they are unset nothing moves.
    pub fn record_completed(&mut self)
        requires
            old(self).info.wf(),
            (old(self).info.downloaded_sources matches Some(d) ==> (old(
                self).info.total_sources matches Some(t) && d < t)),
        ensures
            final(self).url == old(self).url,
            final(self).title == old(self).title,
            final(self).sources == old(self).sources,
            final(self).base_dir == old(self).base_dir,
            final(self).should_stop == old(self).should_stop,
            final(self).info.state == old(self).info.state,
            final(self).info.total_sources == old(self).info.total_sources,
            old(self).info.downloaded_sources is None ==> final(self).info.downloaded_sources
                is None,
            (old(self).info.downloaded_sources matches Some(d) ==> final(
                self).info.downloaded_sources == Some((d + 1) as usize)),
            final(self).info.wf(),
    {
        match self.info.downloaded_sources {
            Some(c) => {
                self.info.downloaded_sources = Some(c + 1);
            },
            None => {},
        }
    }

    /// Raises the cancellation flag and nothing else: in-flight work
    /// aborts at its next decision point, the state does not change here.
    pub fn stop(&mut self)
        ensures
            final(self).should_stop,
            final(self).url == old(self).url,
            final(self).title == old(self).title,
            final(self).sources == old(self).sources,
            final(self).base_dir == old(self).base_dir,
            final(self).info == old(self).info,
    {
        self.should_stop = true;
    }

    /// Clears the cancellation flag, both counters, the state, the source
    /// list, the album title and the base directory; the URL of the last
    /// run stays.
    pub fn reset(&mut self)
        ensures
            !final(self).should_stop,
            final(self).info.fresh(),
            final(self).sources@.len() == 0,
            final(self).title@.len() == 0,
            final(self).base_dir@.len() == 0,
            final(self).url == old(self).url,
    {
        self.should_stop = false;
        self.info.state = BunkrSpiderState::Idle;
        self.info.total_sources = None;
        self.info.downloaded_sources = None;
        self.sources = Vec::new();
        self.title = String::new();
        self.base_dir = String::new();
    }

    /// The current run state.
    pub fn get_state(&self) -> (r: BunkrSpiderState)
        ensures
            r == self.info.state,
    {
        self.info.state
    }

    /// A snapshot of the progress record.
    pub fn get_info(&self) -> (r: BunkrSpiderInformation)
        ensures
            r == self.info,
    {
        self.info
    }

    /// The resolved output directory. Whether the stored base directory
    /// exists as a directory on disk is the caller's finding, handed in
    /// as `base_usable`.
    pub fn get_download_dir(&self, base_usable: bool) -> (r: String)
        ensures
            r@ == download_dir_spec(self.base_dir@, base_usable, self.title@),
    {
        resolve_download_dir(self.base_dir.as_str(), base_usable, self.title.as_str())
    }

    /// Chooses what the cleanup pass deletes from the listed directory
    /// entries: exactly the regular files strictly under the size floor,
    /// in directory order.
    pub fn clean_error_files(&self, entries: &Vec<FileEntry>) -> (r: Vec<String>)
        ensures
            r@.map_values(|n: String| n@) == deletions_spec(entries@),
    {
        select_deletions(entries)
    }
}

} // verus!
