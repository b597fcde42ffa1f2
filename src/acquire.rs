//! The decisions of registry acquisition: which source to read, when a cached
//! snapshot is fresh, and what a fetch failure falls back to. Reading files and
//! fetching are left to the caller, which reports back what happened.
use vstd::prelude::*;

verus! {

/// A cached snapshot younger than this (two hours, in milliseconds) is used without
/// a network call.
pub const CACHE_TTL_MS: u64 = 7_200_000;

/// The bound on one network fetch, in seconds.
pub const FETCH_TIMEOUT_SECS: u64 = 30;

/// What the environment says before anything is read.
#[derive(Debug, Clone, Copy, PartialEq, Eq, Structural)]
pub struct AcquireConfig {
    /// An explicit path to the registry document is set.
    pub has_override_path: bool,
    /// Network access is disabled (offline or documentation build).
    pub offline: bool,
    /// The local snapshot file exists.
    pub cache_exists: bool,
    /// The age of the local snapshot in milliseconds, where it could be determined.
    pub cache_age_ms: Option<u64>,
}

/// What to do first.
#[derive(Debug, Clone, Copy, PartialEq, Eq, Structural)]
pub enum Step {
    /// Read the explicit path; failing to read it is fatal.
    ReadOverride,
    /// Read the local snapshot without any network access; failing is fatal.
    ReadLocal,
    /// Read the fresh local snapshot; if that fails, fetch.
    ReadCache,
    /// Fetch from the network.
    Fetch,
    /// Give up.
    Fail(AcquireError),
}

/// Why no registry document could be had.
#[derive(Debug, Clone, Copy, PartialEq, Eq, Structural)]
pub enum AcquireError {
    /// The explicit path could not be read.
    OverrideUnreadable,
    /// Network access is disabled and there is no local snapshot.
    OfflineWithoutSnapshot,
    /// The fetch failed and there is no local snapshot to fall back to.
    FetchFailedWithoutSnapshot,
}

/// A registry document, with what the caller still has to do about it.
#[derive(Debug)]
pub struct Acquired {
    pub text: String,
    /// Write the text to the local snapshot path (creating its directories).
    pub persist: bool,
    /// Report that the fetch failed and a cached snapshot was used.
    pub warn: bool,
}

/// Where the local snapshot lives.
#[derive(Debug, Clone, Copy, PartialEq, Eq, Structural)]
pub enum CacheDir {
    /// The directory given explicitly.
    Override,
    /// The `data` directory of the project root.
    DataDir,
    /// The project root itself.
    ProjectRoot,
}

/// A snapshot is stale unless its age is known and below the time-to-live.
pub open spec fn stale(age_ms: Option<u64>, ttl_ms: u64) -> bool {
    match age_ms {
        Some(a) => a >= ttl_ms,
        None => true,
    }
}

/// Whether a snapshot of this age is stale.
pub fn is_stale(age_ms: Option<u64>, ttl_ms: u64) -> (r: bool)
    ensures
        r == stale(age_ms, ttl_ms),
{
    match age_ms {
        Some(a) => a >= ttl_ms,
        None => true,
    }
}

/// The first step, by priority: an explicit path, then offline mode, then a fresh
/// cache, then the network.
pub open spec fn first_step(c: AcquireConfig) -> Step {
    if c.has_override_path {
        Step::ReadOverride
    } else if c.offline {
        if c.cache_exists {
            Step::ReadLocal
        } else {
            Step::Fail(AcquireError::OfflineWithoutSnapshot)
        }
    } else if c.cache_exists && !stale(c.cache_age_ms, CACHE_TTL_MS) {
        Step::ReadCache
    } else {
        Step::Fetch
    }
}

/// Chooses the first step of acquisition.
pub fn initial_step(c: &AcquireConfig) -> (r: Step)
    ensures
        r == first_step(*c),
{
    if c.has_override_path {
        Step::ReadOverride
    } else if c.offline {
        if c.cache_exists {
            Step::ReadLocal
        } else {
            Step::Fail(AcquireError::OfflineWithoutSnapshot)
        }
    } else if c.cache_exists && !is_stale(c.cache_age_ms, CACHE_TTL_MS) {
        Step::ReadCache
    } else {
        Step::Fetch
    }
}

/// The outcome of a fetch: the fetched text, to be persisted; on failure the cached
/// snapshot of any age, unchanged and with a warning; else an error.
pub fn resolve_fetch(fetched: Option<String>, cached: Option<String>) -> (r: Result<
    Acquired,
    AcquireError,
>)
    ensures
        fetched matches Some(t) ==> (r matches Ok(a) && a.text == t && a.persist && !a.warn),
        fetched is None && cached is Some ==> (r matches Ok(a) && a.text == cached->0
            && !a.persist && a.warn),
        fetched is None && cached is None ==> r == Err::<Acquired, AcquireError>(
            AcquireError::FetchFailedWithoutSnapshot,
        ),
{
    match fetched {
        Some(t) => Ok(Acquired { text: t, persist: true, warn: false }),
        None => match cached {
            Some(c) => Ok(Acquired { text: c, persist: false, warn: true }),
            None => Err(AcquireError::FetchFailedWithoutSnapshot),
        },
    }
}

/// Where the local snapshot lives: the explicit directory if one is set, else the
/// project's `data` directory if it exists, else the project root.
pub fn cache_dir(has_override_dir: bool, data_dir_exists: bool) -> (r: CacheDir)
    ensures
        r == (if has_override_dir {
            CacheDir::Override
        } else if data_dir_exists {
            CacheDir::DataDir
        } else {
            CacheDir::ProjectRoot
        }),
{
    if has_override_dir {
        CacheDir::Override
    } else if data_dir_exists {
        CacheDir::DataDir
    } else {
        CacheDir::ProjectRoot
    }
}

} // verus!
