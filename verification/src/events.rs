//! Background events (jobs and the core's state) as they reach the
//! client's status line.
use vstd::prelude::*;
use vstd::view::View as _;
use crate::strs::{from_chars, push_str, str_eq};
use crate::models::{JobRecord, JobStatus, KernelState};
use crate::labels::{job_status_label, job_status_text, kernel_state_label, kernel_state_text};
use crate::commands::status_after;
use crate::refresh_state::{cleared_runtime, key_view};
use crate::state::TuiApp;

verus! {

/// A background event.
#[derive(Debug, Clone, PartialEq, Eq)]
pub enum TuiEvent {
    JobCreated(JobRecord),
    JobUpdated(JobRecord),
    KernelStateChanged(KernelState),
    Traffic,
    Log,
    /// Events were dropped because the client fell behind.
    Lagged,
}

/// What a refresh status message does at `now`: nothing while the status
/// is pinned, else it is shown and recorded.
pub open spec fn refresh_status_done(s: TuiApp, msg: Seq<char>, now: u64, f: TuiApp) -> bool {
    if s.status_pinned_until matches Some(d) && now < d {
        f == s
    } else {
        status_after(s, msg, f)
    }
}

/// A profile update of the profile in use finished successfully.
pub open spec fn current_update_succeeded(s: TuiApp, job: JobRecord) -> bool {
    &&& job.kind@ == "profile-update"@
    &&& job.status == JobStatus::Succeeded
    &&& job.target is Some
    &&& ((job.result matches Some(r) && key_view(r.current) == Some(job.target->0@)) || key_view(
        s.profiles_current,
    ) == Some(job.target->0@))
}

/// The status message of an updated job.
pub open spec fn job_update_text(s: TuiApp, job: JobRecord) -> Seq<char> {
    "任务"@ + job_status_text(job.status) + "："@ + job.name@ + (if current_update_succeeded(s, job) {
        "；当前订阅已更新，正在刷新代理列表"@
    } else {
        Seq::empty()
    })
}

/// What an event does at `now`; `r` says whether to keep reading events.
pub open spec fn event_done(s: TuiApp, e: TuiEvent, now: u64, f: TuiApp, r: bool) -> bool {
    match e {
        TuiEvent::JobCreated(job) => r && refresh_status_done(s, "任务已创建："@ + job.name@, now, f),
        TuiEvent::JobUpdated(job) => r && if current_update_succeeded(s, job) {
            &&& f.proxy_groups@.len() == 0
            &&& f.proxy_node_meta@.len() == 0
            &&& f.proxy_providers@.len() == 0
            &&& f.rule_providers@.len() == 0
            &&& f.provider_operation_feedback@.len() == 0
            &&& f.rules@.len() == 0
            &&& f.connections@.len() == 0
            &&& refresh_status_done(
                TuiApp { last_refresh: None, ..cleared_runtime(s, f) },
                job_update_text(s, job),
                now,
                f,
            )
        } else {
            refresh_status_done(s, job_update_text(s, job), now, f)
        },
        TuiEvent::KernelStateChanged(st) => r && refresh_status_done(s, "核心状态："@ + kernel_state_text(st), now, f),
        TuiEvent::Traffic | TuiEvent::Log => r && f == s,
        TuiEvent::Lagged => !r && refresh_status_done(s, "事件流滞后，已刷新快照"@, now, f),
    }
}

impl TuiApp {
    /// Whether a job finished updating the profile in use.
    pub fn current_profile_update_job_succeeded(&self, job: &JobRecord) -> (b: bool)
        ensures
            b == current_update_succeeded(*self, *job),
    {
        if !str_eq(job.kind.as_str(), "profile-update") || job.status != JobStatus::Succeeded {
            return false;
        }
        let target = match &job.target {
            Some(t) => t,
            None => {
                return false;
            },
        };
        let by_result = match &job.result {
            Some(r) => match &r.current {
                Some(c) => str_eq(c.as_str(), target.as_str()),
                None => false,
            },
            None => false,
        };
        let by_current = match &self.profiles_current {
            Some(c) => str_eq(c.as_str(), target.as_str()),
            None => false,
        };
        by_result || by_current
    }

    fn refresh_status(&mut self, message: &str, now: u64)
        ensures
            refresh_status_done(*old(self), message@, now, *final(self)),
    {
        self.set_refresh_status(message, now);
    }

    /// Applies a background event at `now`; returns whether to keep reading
    /// events (not after the client fell behind).
    pub fn apply_event(&mut self, event: &TuiEvent, now: u64) -> (r: bool)
        ensures
            event_done(*old(self), *event, now, *final(self), r),
    {
        match event {
            TuiEvent::JobCreated(job) => {
                let mut v: Vec<char> = Vec::new();
                push_str(&mut v, "任务已创建：");
                push_str(&mut v, job.name.as_str());
                let msg = from_chars(&v);
                self.refresh_status(msg.as_str(), now);
                true
            },
            TuiEvent::JobUpdated(job) => {
                let current = self.current_profile_update_job_succeeded(job);
                let mut v: Vec<char> = Vec::new();
                push_str(&mut v, "任务");
                push_str(&mut v, job_status_label(job.status));
                push_str(&mut v, "：");
                push_str(&mut v, job.name.as_str());
                if current {
                    push_str(&mut v, "；当前订阅已更新，正在刷新代理列表");
                }
                let msg = from_chars(&v);
                if current {
                    self.clear_profile_bound_runtime_state();
                    self.last_refresh = None;
                }
                self.refresh_status(msg.as_str(), now);
                true
            },
            TuiEvent::KernelStateChanged(st) => {
                let mut v: Vec<char> = Vec::new();
                push_str(&mut v, "核心状态：");
                push_str(&mut v, kernel_state_label(*st));
                let msg = from_chars(&v);
                self.refresh_status(msg.as_str(), now);
                true
            },
            TuiEvent::Traffic | TuiEvent::Log => true,
            TuiEvent::Lagged => {
                self.refresh_status("事件流滞后，已刷新快照", now);
                false
            },
        }
    }
}

} // verus!
