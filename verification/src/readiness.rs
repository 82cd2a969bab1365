//! Waiting for an imported profile's proxy groups: when to refresh its
//! providers, when to give up, and how the automatic provider refresh is
//! counted.
use vstd::prelude::*;
use crate::models::{auto_refresh_message, ProviderAutoRefreshSummary};
use crate::strs::{dec, from_chars, owned, push_dec, push_str, to_chars, views};
use crate::text::{sanitize_url_error, sanitized};

verus! {

/// How long to wait for proxy groups: a minute when the runtime draws on
/// providers, else fifteen seconds.
pub const PROVIDER_READY_TIMEOUT_MILLIS: u64 = 60_000;
pub const READY_TIMEOUT_MILLIS: u64 = 15_000;
/// Providers are refreshed at the latest two seconds into the wait.
pub const PROVIDER_REFRESH_AFTER_MILLIS: u64 = 2_000;
/// At most this many providers are refreshed automatically.
pub const MAX_AUTO_PROVIDER_REFRESHES: usize = 16;
/// The time one automatic provider refresh may take, in seconds.
pub const PROVIDER_REFRESH_TIMEOUT_SECS: u64 = 8;

/// The state of the wait.
#[derive(Debug, Clone, PartialEq, Eq)]
pub struct ReadyWait {
    pub started: u64,
    pub timeout: u64,
    pub uses_providers: bool,
    pub refresh_attempted: bool,
    pub provider_refresh: ProviderAutoRefreshSummary,
    pub last_error: String,
}

/// What a load of the proxy groups brought.
#[derive(Debug, Clone, PartialEq, Eq)]
pub enum ReadyAttempt {
    Ready,
    /// Loaded but without usable groups; the text says what is missing.
    NotReady(String),
    /// The load failed with this error.
    Failed(String),
}

/// What to do after a load.
#[derive(Debug, Clone, Copy, PartialEq, Eq, Structural)]
pub enum ReadyStep {
    Done,
    RefreshProviders,
    Continue,
}

impl ReadyWait {
    /// A wait that starts at `now`.
    pub fn new(now: u64, uses_providers: bool) -> (r: ReadyWait)
        ensures
            r.started == now,
            r.timeout == (if uses_providers { PROVIDER_READY_TIMEOUT_MILLIS } else { READY_TIMEOUT_MILLIS }),
            r.uses_providers == uses_providers,
            !r.refresh_attempted,
            r.provider_refresh.attempted == 0,
            r.last_error@.len() == 0,
    {
        ReadyWait {
            started: now,
            timeout: if uses_providers { PROVIDER_READY_TIMEOUT_MILLIS } else { READY_TIMEOUT_MILLIS },
            uses_providers,
            refresh_attempted: false,
            provider_refresh: ProviderAutoRefreshSummary {
                candidates: 0,
                attempted: 0,
                succeeded: 0,
                failed: 0,
                errors: Vec::new(),
            },
            last_error: String::new(),
        }
    }

    /// Takes a load: ready groups end the wait; groups that are not ready
    /// ask once for the providers to be refreshed when the runtime uses
    /// them; either way the error is kept for the final message.
    pub fn attempted(&mut self, attempt: ReadyAttempt) -> (r: ReadyStep)
        ensures
            match attempt {
                ReadyAttempt::Ready => r == ReadyStep::Done && *final(self) == *old(self),
                ReadyAttempt::NotReady(m) => {
                    &&& final(self).last_error@ == m@
                    &&& r == (if !old(self).refresh_attempted && old(self).uses_providers {
                        ReadyStep::RefreshProviders
                    } else {
                        ReadyStep::Continue
                    })
                    &&& final(self).refresh_attempted == (old(self).refresh_attempted || old(self).uses_providers)
                    &&& *final(self) == (ReadyWait {
                        last_error: final(self).last_error,
                        refresh_attempted: final(self).refresh_attempted,
                        ..*old(self)
                    })
                },
                ReadyAttempt::Failed(e) => {
                    &&& r == ReadyStep::Continue
                    &&& final(self).last_error@ == e@
                    &&& *final(self) == (ReadyWait { last_error: final(self).last_error, ..*old(self) })
                },
            },
    {
        match attempt {
            ReadyAttempt::Ready => ReadyStep::Done,
            ReadyAttempt::NotReady(m) => {
                self.last_error = m;
                if !self.refresh_attempted && self.uses_providers {
                    self.refresh_attempted = true;
                    ReadyStep::RefreshProviders
                } else {
                    ReadyStep::Continue
                }
            },
            ReadyAttempt::Failed(e) => {
                self.last_error = e;
                ReadyStep::Continue
            },
        }
    }

    /// Keeps the report of a provider refresh; when one was attempted the
    /// caller lets the providers settle before loading again.
    pub fn providers_refreshed(&mut self, summary: ProviderAutoRefreshSummary) -> (settle: bool)
        ensures
            settle == (summary.attempted != 0),
            *final(self) == (ReadyWait { provider_refresh: summary, ..*old(self) }),
    {
        let settle = summary.attempted != 0;
        self.provider_refresh = summary;
        settle
    }

    /// Providers not refreshed yet are refreshed two seconds into the wait
    /// when the runtime uses them.
    pub fn refresh_due(&mut self, now: u64) -> (r: bool)
        ensures
            r == (!old(self).refresh_attempted && old(self).uses_providers && now >= old(self).started
                && now - old(self).started >= PROVIDER_REFRESH_AFTER_MILLIS),
            *final(self) == (ReadyWait { refresh_attempted: old(self).refresh_attempted || r, ..*old(self) }),
    {
        let due = !self.refresh_attempted && self.uses_providers && now >= self.started && now - self.started
            >= PROVIDER_REFRESH_AFTER_MILLIS;
        if due {
            self.refresh_attempted = true;
        }
        due
    }

    /// After the time limit the wait ends with the last error, the provider
    /// refresh report where one was attempted, and the limit in seconds.
    pub fn give_up(&self, now: u64) -> (r: Option<String>)
        ensures
            !(now >= self.started && now - self.started >= self.timeout) ==> r is None,
            (now >= self.started && now - self.started >= self.timeout) ==> (r matches Some(m) && m@
                == self.last_error@ + (if self.provider_refresh.attempted != 0 {
                "；"@ + auto_refresh_message(self.provider_refresh)
            } else {
                Seq::empty()
            }) + "，等待 "@ + dec((self.timeout / 1000) as nat) + " 秒后仍未就绪"@),
    {
        if !(now >= self.started && now - self.started >= self.timeout) {
            return None;
        }
        let mut v = to_chars(self.last_error.as_str());
        let ghost before = v@;
        match self.provider_refresh.to_message() {
            Some(m) => {
                push_str(&mut v, "；");
                push_str(&mut v, m.as_str());
            },
            None => {
                proof {
                    assert(v@ =~= before + Seq::<char>::empty());
                }
            },
        }
        push_str(&mut v, "，等待 ");
        push_dec(&mut v, self.timeout / 1000);
        push_str(&mut v, " 秒后仍未就绪");
        Some(from_chars(&v))
    }
}

/// How one automatic provider refresh ended.
#[derive(Debug, Clone, PartialEq, Eq)]
pub enum RefreshOutcome {
    Updated,
    Failed(String),
    TimedOut,
}

/// The providers refreshed automatically: the first sixteen candidates.
pub fn auto_refresh_batch(names: &Vec<String>) -> (r: Vec<String>)
    ensures
        views(r@) == views(names@).take(
            if names@.len() <= MAX_AUTO_PROVIDER_REFRESHES { names@.len() as int } else { MAX_AUTO_PROVIDER_REFRESHES as int },
        ),
{
    let n: usize = if names.len() <= MAX_AUTO_PROVIDER_REFRESHES { names.len() } else { MAX_AUTO_PROVIDER_REFRESHES };
    let mut r: Vec<String> = Vec::new();
    let mut i: usize = 0;
    while i < n
        invariant
            i <= n <= names.len(),
            views(r@) == views(names@).take(i as int),
        decreases n - i,
    {
        let x = owned(names[i].as_str());
        let ghost before = views(r@);
        r.push(x);
        proof {
            assert(views(r@) =~= before.push(x@));
            assert(views(names@).take(i + 1) =~= views(names@).take(i as int).push(names@[i as int]@));
        }
        i += 1;
    }
    r
}

/// The report of an automatic refresh before any provider was tried.
pub fn auto_refresh_started(candidates: usize) -> (r: ProviderAutoRefreshSummary)
    ensures
        r.candidates == candidates,
        r.attempted == 0 && r.succeeded == 0 && r.failed == 0,
        r.errors@.len() == 0,
{
    ProviderAutoRefreshSummary { candidates, attempted: 0, succeeded: 0, failed: 0, errors: Vec::new() }
}

/// The example kept for a failed provider refresh.
pub open spec fn refresh_error_text(provider: Seq<char>, outcome: RefreshOutcome) -> Seq<char> {
    match outcome {
        RefreshOutcome::Failed(e) => provider + ": "@ + sanitized(e@),
        _ => provider + ": 更新请求超过 "@ + dec(PROVIDER_REFRESH_TIMEOUT_SECS as nat) + " 秒"@,
    }
}

/// Counts one provider refresh: every one is an attempt, an update a
/// success, anything else a failure, of which the first three are kept as
/// examples.
pub fn auto_refresh_recorded(summary: &mut ProviderAutoRefreshSummary, provider: &str, outcome: RefreshOutcome)
    requires
        old(summary).attempted < usize::MAX,
        old(summary).succeeded < usize::MAX,
        old(summary).failed < usize::MAX,
    ensures
        final(summary).candidates == old(summary).candidates,
        final(summary).attempted == old(summary).attempted + 1,
        outcome is Updated ==> {
            &&& final(summary).succeeded == old(summary).succeeded + 1
            &&& final(summary).failed == old(summary).failed
            &&& final(summary).errors@ == old(summary).errors@
        },
        !(outcome is Updated) ==> {
            &&& final(summary).succeeded == old(summary).succeeded
            &&& final(summary).failed == old(summary).failed + 1
            &&& views(final(summary).errors@) == (if old(summary).errors@.len() < 3 {
                views(old(summary).errors@).push(refresh_error_text(provider@, outcome))
            } else {
                views(old(summary).errors@)
            })
        },
{
    summary.attempted = summary.attempted + 1;
    match outcome {
        RefreshOutcome::Updated => {
            summary.succeeded = summary.succeeded + 1;
        },
        RefreshOutcome::Failed(e) => {
            summary.failed = summary.failed + 1;
            if summary.errors.len() < 3 {
                let mut v = to_chars(provider);
                push_str(&mut v, ": ");
                let clean = sanitize_url_error(e.as_str());
                push_str(&mut v, clean.as_str());
                let x = from_chars(&v);
                let ghost before = views(summary.errors@);
                summary.errors.push(x);
                proof {
                    assert(views(summary.errors@) =~= before.push(x@));
                }
            }
        },
        RefreshOutcome::TimedOut => {
            summary.failed = summary.failed + 1;
            if summary.errors.len() < 3 {
                let mut v = to_chars(provider);
                push_str(&mut v, ": 更新请求超过 ");
                push_dec(&mut v, PROVIDER_REFRESH_TIMEOUT_SECS);
                push_str(&mut v, " 秒");
                let x = from_chars(&v);
                let ghost before = views(summary.errors@);
                summary.errors.push(x);
                proof {
                    assert(views(summary.errors@) =~= before.push(x@));
                }
            }
        },
    }
}

} // verus!
