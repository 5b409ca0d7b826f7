//! Automatic updates: where release metadata comes from, which requests the updater's worker
//! gets, when an update cycle runs, which release is picked and how a download proceeds.
use vstd::prelude::*;

use crate::text::{push_str, str_eq, str_starts_with, starts_with_seq};

verus! {

/// The release list of the application on GitHub.
pub const RECENT_RELEASES_METADATA_URL: &'static str =
    "https://api.github.com/repos/TicClick/steel/releases";

/// The prefix of release lists served by the GitHub API.
pub const GITHUB_REPOS_PREFIX: &'static str = "https://api.github.com/repos/";

/// The file of a gist that holds a release list.
pub const GIST_METADATA_FILENAME: &'static str = "releases.json";

/// How often automatic updates are checked for, in minutes.
pub const AUTOUPDATE_INTERVAL_MINUTES: i64 = 10;

/// The size of a download chunk, in bytes (256 KiB).
pub const DOWNLOAD_CHUNK_SIZE: usize = 262144;

/// The release list that updates are fetched from unless the user chose another.
pub fn default_update_url() -> (r: String)
    ensures
        r@ == RECENT_RELEASES_METADATA_URL@,
{
    RECENT_RELEASES_METADATA_URL.to_owned()
}

/// Where release metadata comes from.
#[derive(Debug)]
pub enum UpdateSource {
    /// A release list of the GitHub API.
    GitHub(String),
    /// A gist whose `releases.json` holds a release list.
    Gist(String),
}

/// The source that a URL stands for: the GitHub API for URLs under its repositories, a gist
/// otherwise.
pub open spec fn source_of(url: String) -> UpdateSource {
    if starts_with_seq(url@, GITHUB_REPOS_PREFIX@) {
        UpdateSource::GitHub(url)
    } else {
        UpdateSource::Gist(url)
    }
}

impl UpdateSource {
    /// The URL of the source.
    pub open spec fn spec_url(self) -> Seq<char> {
        match self {
            UpdateSource::GitHub(u) => u@,
            UpdateSource::Gist(u) => u@,
        }
    }

    /// The URL of the source.
    pub fn url(&self) -> (r: &str)
        ensures
            r@ == self.spec_url(),
    {
        match self {
            UpdateSource::GitHub(u) => u.as_str(),
            UpdateSource::Gist(u) => u.as_str(),
        }
    }

    /// Whether the source is at `url`.
    pub fn is_at(&self, url: &str) -> (r: bool)
        ensures
            r == (self.spec_url() == url@),
    {
        str_eq(self.url(), url)
    }
}

impl From<String> for UpdateSource {
    fn from(value: String) -> (r: Self) {
        if str_starts_with(value.as_str(), GITHUB_REPOS_PREFIX) {
            UpdateSource::GitHub(value)
        } else {
            UpdateSource::Gist(value)
        }
    }
}

impl vstd::std_specs::convert::FromSpecImpl<String> for UpdateSource {
    open spec fn obeys_from_spec() -> bool {
        true
    }

    open spec fn from_spec(value: String) -> Self {
        source_of(value)
    }
}

/// A request to the updater's worker.
#[derive(Debug)]
pub enum BackendRequest {
    InitiateAutoupdate,
    SetAutoupdateStatus(bool),
    ChangeURL(String),
    FetchMetadata,
    FetchRelease,
    Quit,
}

/// Automatic update settings.
#[derive(Debug)]
pub struct AutoUpdate {
    pub enabled: bool,
    /// The release list to check.
    pub url: String,
}

/// Whether updates from `url` are applied whatever their version: for any list but the
/// default one.
pub fn should_force_update(url: &str) -> (r: bool)
    ensures
        r == (url@ != RECENT_RELEASES_METADATA_URL@),
{
    !str_eq(url, RECENT_RELEASES_METADATA_URL)
}

/// The requests that switch automatic updates on or off: the switch, then, when switching
/// on, a check.
pub fn toggle_requests(enabled: bool) -> (r: Vec<BackendRequest>)
    ensures
        r@.len() == (if enabled { 2int } else { 1int }),
        r@[0] == BackendRequest::SetAutoupdateStatus(enabled),
        enabled ==> r@[1] == BackendRequest::InitiateAutoupdate,
{
    let mut r = Vec::new();
    r.push(BackendRequest::SetAutoupdateStatus(enabled));
    if enabled {
        r.push(BackendRequest::InitiateAutoupdate);
    }
    r
}

/// The front of the updater: its settings, from which it derives requests to its worker.
#[derive(Debug)]
pub struct Updater {
    pub settings: AutoUpdate,
}

impl Updater {
    /// An updater with the given settings.
    pub fn new(settings: AutoUpdate) -> (u: Self)
        ensures
            u.settings == settings,
    {
        Updater { settings }
    }

    /// Adopts new settings; returns the requests that this takes, in order: a URL change when
    /// the URL differs, then the switch of automatic updates when it differs.
    pub fn change_settings(&mut self, new_settings: AutoUpdate) -> (r: Vec<BackendRequest>)
        ensures
            final(self).settings == new_settings,
            ({
                let url_changed = new_settings.url@ != old(self).settings.url@;
                let toggled = new_settings.enabled != old(self).settings.enabled;
                let first = if url_changed { 1int } else { 0int };
                &&& r@.len() == first + (if toggled {
                    if new_settings.enabled { 2int } else { 1int }
                } else {
                    0int
                })
                &&& url_changed ==> (r@[0] matches BackendRequest::ChangeURL(u) && u@
                    == new_settings.url@)
                &&& toggled ==> r@[first] == BackendRequest::SetAutoupdateStatus(
                    new_settings.enabled,
                )
                &&& toggled && new_settings.enabled ==> r@[first + 1]
                    == BackendRequest::InitiateAutoupdate
            }),
    {
        let mut r: Vec<BackendRequest> = Vec::new();
        if !str_eq(new_settings.url.as_str(), self.settings.url.as_str()) {
            r.push(BackendRequest::ChangeURL(new_settings.url.clone()));
        }
        if new_settings.enabled != self.settings.enabled {
            let mut t = toggle_requests(new_settings.enabled);
            r.append(&mut t);
        }
        self.settings = new_settings;
        r
    }
}

/// What the updater's worker keeps between requests.
#[derive(Debug)]
pub struct UpdateCycle {
    pub src: UpdateSource,
    pub autoupdate: bool,
    /// When the last automatic cycle started, in seconds since the UNIX epoch.
    pub last_autoupdate_run: Option<i64>,
    /// Apply the next release whatever its version.
    pub force_update: bool,
    /// The outcome of the last check of a release list URL.
    pub url_test_result: Option<Result<(), String>>,
}

/// Whether at least the update interval has passed between two times in seconds.
pub open spec fn interval_passed(last: i64, now: i64) -> bool {
    now - last >= 60 * AUTOUPDATE_INTERVAL_MINUTES
}

impl UpdateCycle {
    /// The worker for the given settings, before its first cycle: updates are forced for any
    /// list but the default one.
    pub fn new(settings: &AutoUpdate) -> (c: Self)
        ensures
            c.src == source_of(settings.url),
            c.autoupdate == settings.enabled,
            c.last_autoupdate_run is None,
            c.force_update == (settings.url@ != RECENT_RELEASES_METADATA_URL@),
            c.url_test_result is None,
    {
        UpdateCycle {
            src: UpdateSource::from(settings.url.clone()),
            autoupdate: settings.enabled,
            last_autoupdate_run: None,
            force_update: should_force_update(settings.url.as_str()),
            url_test_result: None,
        }
    }

    /// Records that a URL equal to the current one was confirmed.
    pub fn confirm_url(&mut self)
        ensures
            final(self).url_test_result == Some(Ok::<(), String>(())),
            final(self).src == old(self).src,
            final(self).force_update == old(self).force_update,
            final(self).autoupdate == old(self).autoupdate,
            final(self).last_autoupdate_run == old(self).last_autoupdate_run,
    {
        self.url_test_result = Some(Ok(()));
    }

    /// Records the check of a new release list URL: a working list becomes the source and its
    /// next release is forced; a failure keeps the source and forces nothing. Tells whether an
    /// update cycle follows.
    pub fn apply_url_test(&mut self, tested: Result<UpdateSource, String>) -> (cycle: bool)
        ensures
            cycle == (tested is Ok),
            match tested {
                Ok(src) => {
                    &&& final(self).src == src
                    &&& final(self).force_update
                    &&& final(self).url_test_result == Some(Ok::<(), String>(()))
                },
                Err(e) => {
                    &&& final(self).src == old(self).src
                    &&& !final(self).force_update
                    &&& final(self).url_test_result == Some(Err::<(), String>(e))
                },
            },
            final(self).autoupdate == old(self).autoupdate,
            final(self).last_autoupdate_run == old(self).last_autoupdate_run,
    {
        match tested {
            Ok(src) => {
                self.src = src;
                self.url_test_result = Some(Ok(()));
                self.force_update = true;
                true
            },
            Err(e) => {
                self.force_update = false;
                self.url_test_result = Some(Err(e));
                false
            },
        }
    }

    /// Starts an update cycle at `now` (seconds) if one is due: when an update is forced, or
    /// when automatic updates are on and the interval has passed since the last cycle (or none
    /// ran). Tells whether it started.
    pub fn start_cycle(&mut self, now: i64) -> (started: bool)
        ensures
            started == (old(self).force_update || (old(self).autoupdate && match old(
                self,
            ).last_autoupdate_run {
                None => true,
                Some(last) => interval_passed(last, now),
            })),
            final(self).last_autoupdate_run == (if started {
                Some(now)
            } else {
                old(self).last_autoupdate_run
            }),
            final(self).force_update == old(self).force_update,
            final(self).autoupdate == old(self).autoupdate,
            final(self).src == old(self).src,
    {
        let enough_time_slept = match self.last_autoupdate_run {
            None => true,
            Some(last) => (now as i128) - (last as i128) >= 600,
        };
        if !(self.force_update || (enough_time_slept && self.autoupdate)) {
            return false;
        }
        self.last_autoupdate_run = Some(now);
        true
    }

    /// Ends a cycle in which release metadata was fetched: the release is downloaded when it
    /// is forced or newer than the running version, and has a file for this platform; the
    /// force is spent either way.
    pub fn finish_cycle(&mut self, newer: bool, has_platform_asset: bool) -> (fetch: bool)
        ensures
            fetch == ((old(self).force_update || newer) && has_platform_asset),
            !final(self).force_update,
            final(self).src == old(self).src,
            final(self).last_autoupdate_run == old(self).last_autoupdate_run,
    {
        let fetch = (self.force_update || newer) && has_platform_asset;
        self.force_update = false;
        fetch
    }
}

/// A release in a release list: its version and whether it has a file for this platform.
#[derive(Clone, Copy, Debug, PartialEq, Eq, Structural)]
pub struct ReleaseInfo {
    pub major: u64,
    pub minor: u64,
    pub patch: u64,
    pub has_platform_asset: bool,
}

/// Whether release `a` has a lower version than release `b`.
pub open spec fn version_lt(a: ReleaseInfo, b: ReleaseInfo) -> bool {
    a.major < b.major || (a.major == b.major && (a.minor < b.minor || (a.minor == b.minor
        && a.patch < b.patch)))
}

fn version_less(a: &ReleaseInfo, b: &ReleaseInfo) -> (r: bool)
    ensures
        r == version_lt(*a, *b),
{
    a.major < b.major || (a.major == b.major && (a.minor < b.minor || (a.minor == b.minor
        && a.patch < b.patch)))
}

/// The release picked from a list: among those with a file for this platform, the one with
/// the highest version, the first of them in the list when several share it.
pub open spec fn is_picked_release(releases: Seq<ReleaseInfo>, i: int) -> bool {
    &&& 0 <= i < releases.len()
    &&& releases[i].has_platform_asset
    &&& forall|j: int|
        0 <= j < releases.len() && releases[j].has_platform_asset ==> !version_lt(
            releases[i],
            #[trigger] releases[j],
        )
    &&& forall|j: int|
        0 <= j < i && releases[j].has_platform_asset ==> version_lt(
            #[trigger] releases[j],
            releases[i],
        )
}

/// Picks the release to offer from a list; `None` when no release has a file for this
/// platform.
pub fn pick_release(releases: &[ReleaseInfo]) -> (r: Option<usize>)
    ensures
        match r {
            Some(i) => is_picked_release(releases@, i as int),
            None => forall|j: int|
                0 <= j < releases@.len() ==> !(#[trigger] releases@[j]).has_platform_asset,
        },
{
    let mut best: Option<usize> = None;
    let n = releases.len();
    for i in 0..n
        invariant
            n == releases@.len(),
            match best {
                Some(b) => {
                    &&& b < i
                    &&& releases@[b as int].has_platform_asset
                    &&& forall|j: int|
                        0 <= j < i && releases@[j].has_platform_asset ==> !version_lt(
                            releases@[b as int],
                            #[trigger] releases@[j],
                        )
                    &&& forall|j: int|
                        0 <= j < b && releases@[j].has_platform_asset ==> version_lt(
                            #[trigger] releases@[j],
                            releases@[b as int],
                        )
                },
                None => forall|j: int|
                    0 <= j < i ==> !(#[trigger] releases@[j]).has_platform_asset,
            },
    {
        if releases[i].has_platform_asset {
            match best {
                None => {
                    best = Some(i);
                },
                Some(b) => {
                    if version_less(&releases[b], &releases[i]) {
                        best = Some(i);
                    }
                },
            }
        }
    }
    best
}

/// What fetching a release list comes to: the index of the release offered, or the error
/// `no suitable release found for your platform` when no release has a file for this platform.
pub fn release_status(releases: &[ReleaseInfo]) -> (r: Result<usize, String>)
    ensures
        match r {
            Ok(i) => is_picked_release(releases@, i as int),
            Err(e) => e@ == "no suitable release found for your platform"@ && forall|j: int|
                0 <= j < releases@.len() ==> !(#[trigger] releases@[j]).has_platform_asset,
        },
{
    match pick_release(releases) {
        Some(i) => Ok(i),
        None => Err("no suitable release found for your platform".to_owned()),
    }
}

/// A release file being downloaded: its announced length, if any, and the bytes received.
#[derive(Debug)]
pub struct Download {
    total: Option<usize>,
    data: Vec<u8>,
}

/// What follows a chunk of a download.
#[derive(Clone, Copy, Debug, PartialEq, Eq, Structural)]
pub enum DownloadStep {
    /// The user stopped the download; what was received is thrown away.
    Aborted,
    /// `received` bytes are in; the next chunk to read has `next` bytes.
    Progress { received: usize, next: usize },
    /// The file is complete with `received` bytes.
    Finished { received: usize },
}

impl Download {
    /// The length the server announced, if any.
    pub closed spec fn total(self) -> Option<usize> {
        self.total
    }

    /// The bytes received so far.
    pub closed spec fn data(self) -> Seq<u8> {
        self.data@
    }

    /// A download of a file of the announced length, with nothing received; the first read is
    /// of no bytes, and its step reports the progress at zero.
    pub fn new(total: Option<usize>) -> (d: Self)
        ensures
            d.total() == total,
            d.data().len() == 0,
    {
        Download { total, data: Vec::new() }
    }

    /// Takes in a chunk just read; `stop` tells whether the user asked to stop. The chunk is
    /// kept; then a stop aborts the download, and otherwise the progress is reported with the
    /// size of the next chunk, the download finishing when none is left to read. A file of
    /// unknown length only ends when a read fails.
    pub fn receive(&mut self, chunk: Vec<u8>, stop: bool) -> (r: DownloadStep)
        requires
            old(self).data().len() + chunk@.len() <= usize::MAX,
            old(self).total() matches Some(t) ==> old(self).data().len() + chunk@.len() <= t,
        ensures
            final(self).total() == old(self).total(),
            final(self).data() == old(self).data() + chunk@,
            r == (if stop {
                DownloadStep::Aborted
            } else {
                let received = final(self).data().len() as usize;
                let next = match old(self).total() {
                    Some(t) => if t - received < DOWNLOAD_CHUNK_SIZE {
                        (t - received) as usize
                    } else {
                        DOWNLOAD_CHUNK_SIZE
                    },
                    None => DOWNLOAD_CHUNK_SIZE,
                };
                if next == 0 {
                    DownloadStep::Finished { received }
                } else {
                    DownloadStep::Progress { received, next }
                }
            }),
    {
        let mut chunk = chunk;
        self.data.append(&mut chunk);
        if stop {
            return DownloadStep::Aborted;
        }
        let received = self.data.len();
        let next = next_chunk_size(self.total, received);
        if next == 0 {
            DownloadStep::Finished { received }
        } else {
            DownloadStep::Progress { received, next }
        }
    }

    /// The bytes received.
    pub fn into_data(self) -> (r: Vec<u8>)
        ensures
            r@ == self.data(),
    {
        self.data
    }
}

/// The size of the next chunk to read after `received` bytes of a download: the rest of the
/// file up to a chunk when its length is known, a whole chunk otherwise; zero ends it.
pub fn next_chunk_size(total: Option<usize>, received: usize) -> (r: usize)
    requires
        total matches Some(t) ==> received <= t,
    ensures
        r == match total {
            Some(t) => if t - received < DOWNLOAD_CHUNK_SIZE {
                (t - received) as usize
            } else {
                DOWNLOAD_CHUNK_SIZE
            },
            None => DOWNLOAD_CHUNK_SIZE,
        },
{
    let bytes_left = match total {
        Some(t) => t - received,
        None => DOWNLOAD_CHUNK_SIZE,
    };
    if bytes_left < DOWNLOAD_CHUNK_SIZE {
        bytes_left
    } else {
        DOWNLOAD_CHUNK_SIZE
    }
}

/// The name the running executable is given while a new one replaces it.
pub fn backup_file_name(name: &str) -> (r: String)
    ensures
        r@ == name@ + ".old"@,
{
    let mut r = name.to_owned();
    push_str(&mut r, ".old");
    r
}

/// The error for a release file of an unknown archive kind.
pub fn unknown_archive_message(ext: &str) -> (r: String)
    ensures
        r@ == "unknown archive extension "@ + ext@
            + " -- you might be able to deal with it yourself"@,
{
    let mut r = String::new();
    push_str(&mut r, "unknown archive extension ");
    push_str(&mut r, ext);
    push_str(&mut r, " -- you might be able to deal with it yourself");
    r
}

} // verus!
