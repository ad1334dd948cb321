//! The engine's public surface: current options, the discovered model list,
//! the resolved executable and at most one job in flight. The caller drives
//! it with plain values — directory listings, probe results, poll events —
//! and carries out the actions it returns: spawning the command of a
//! `SubmitOutcome::Started`, killing the subprocess after `cancel`, and
//! delivering each returned `Notification` to its result sink.

use vstd::prelude::*;

use crate::builder::build;
use crate::builder::dir_view;
use crate::builder::invocation_for;
use crate::builder::no_model_reason;
use crate::builder::options_defaulted;
use crate::builder::supported_input;
use crate::builder::Invocation;
use crate::builder::SourceImage;
use crate::builder::UpscaleOptions;
use crate::catalog::discover;
use crate::catalog::recognized_models;
use crate::catalog::sort_models;
use crate::catalog::Model;
use crate::error::Error;
use crate::job::cancelled_reason;
use crate::job::is_terminal_event;
use crate::job::nonzero_exit_reason;
use crate::job::spawn_failure_reason;
use crate::job::Job;
use crate::job::JobState;
use crate::job::Notification;
use crate::job::PollEvent;
use crate::locator::bundled_path;
use crate::locator::locate;
use crate::paths::path_extension;
use vstd::string::StringExecFns;

verus! {

/// What a submission attempt came to: the command of a freshly started job,
/// a no-op because a job is already running (the caller may warn, nothing was
/// replaced or queued), or a rejection that leaves the engine idle.
#[derive(Debug)]
pub enum SubmitOutcome {
    Started(Invocation),
    AlreadyRunning,
    Rejected(Error),
}

/// The model directory the engine reads: the user's custom folder when the
/// configuration asks for one and it is present, the bundled default
/// otherwise.
pub fn resolve_models_dir(use_custom_folder: bool, custom_dir: Option<String>, default_dir: String)
    -> (r: String)
    ensures
        use_custom_folder && custom_dir is Some ==> r == custom_dir->0,
        !(use_custom_folder && custom_dir is Some) ==> r == default_dir,
{
    if use_custom_folder {
        match custom_dir {
            Some(d) => d,
            None => default_dir,
        }
    } else {
        default_dir
    }
}

/// The upscale engine.
#[derive(Debug)]
pub struct Upscale {
    /// The current option set, edited by the presentation layer between jobs.
    pub options: UpscaleOptions,
    /// The discovered model catalog, in picker order.
    pub models: Vec<Model>,
    /// Whether a job is in flight; mirrors `active`.
    pub upscaling: bool,
    /// The resolved path of the external binary: `None` until `init` has
    /// located it, then cached for the process lifetime and re-resolved only
    /// by another `init`.
    pub exe_path: Option<String>,
    /// The job in flight, if any. At most one ever exists.
    pub active: Option<Job>,
    /// The id the next submitted job will get.
    pub next_job_id: u64,
}

impl Upscale {
    /// The engine's invariant: valid option domains, the running flag
    /// mirroring the job slot, and any job in flight actually running.
    pub open spec fn wf(&self) -> bool {
        &&& self.options.wf()
        &&& self.upscaling <==> self.active is Some
        &&& match self.active {
            Some(j) => j.state is Running,
            None => true,
        }
    }

    /// Everything but the job slot and the running flag, unchanged.
    pub open spec fn same_settings(&self, other: &Upscale) -> bool {
        &&& self.options == other.options
        &&& self.models == other.models
        &&& self.exe_path == other.exe_path
        &&& self.next_job_id == other.next_job_id
    }

    /// Whether `init` has resolved the external binary.
    pub open spec fn initialized(&self) -> bool {
        self.exe_path is Some
    }

    /// A fresh, idle engine: default options, no models, no executable
    /// resolved yet. `init` makes it usable.
    pub fn new() -> (r: Upscale)
        ensures
            r.wf(),
            options_defaulted(r.options),
            r.models@.len() == 0,
            !r.upscaling,
            r.active is None,
            r.exe_path is None,
            r.next_job_id == 0,
    {
        Upscale {
            options: UpscaleOptions::default(),
            models: Vec::new(),
            upscaling: false,
            exe_path: None,
            active: None,
            next_job_id: 0,
        }
    }

    /// Initialises the engine: resolves the external binary from the
    /// caller's probes (the parameters of `locate`, with its errors — fatal,
    /// and the engine is left as it was) and then discovers the model
    /// catalog from the caller's listing of the model directory (the
    /// contract of `discover`). When only discovery fails the resolved
    /// binary is kept and the stored models are left as they were, so the
    /// engine stays usable in a degraded no-models state. Options and any
    /// job in flight are untouched.
    pub fn init(
        &mut self,
        models_dir: &str,
        listing: Option<Vec<String>>,
        current_exe: Option<String>,
        bundled_exists: bool,
        path_hit: Option<String>,
    ) -> (r: Result<(), Error>)
        requires
            old(self).wf(),
        ensures
            final(self).wf(),
            final(self).options == old(self).options,
            final(self).upscaling == old(self).upscaling,
            final(self).active == old(self).active,
            final(self).next_job_id == old(self).next_job_id,
            current_exe is None ==> (r matches Err(e)
                && e matches Error::FailedToGetCurrentExecutablePath(u) && u is None && *final(self)
                == *old(self)),
            current_exe is Some && !bundled_exists && path_hit is None ==> (r matches Err(e)
                && e matches Error::UpscaylNotInPath(u) && u is None && *final(self) == *old(self)),
            current_exe is Some && bundled_exists ==> (final(self).exe_path matches Some(p) && p@
                == bundled_path(current_exe->0@)),
            current_exe is Some && !bundled_exists && path_hit is Some ==> final(self).exe_path
                == path_hit,
            current_exe is Some && (bundled_exists || path_hit is Some) ==> match r {
                Ok(()) => {
                    &&& listing is Some
                    &&& recognized_models(models_dir@, listing->0.deep_view()).len() > 0
                    &&& final(self).models.deep_view() == sort_models(
                        recognized_models(models_dir@, listing->0.deep_view()),
                    )
                },
                Err(e) => {
                    &&& final(self).models == old(self).models
                    &&& match listing {
                        None => e matches Error::ModelsFolderNotFound(u, d) && u is None && d@
                            == models_dir@,
                        Some(l) => {
                            &&& recognized_models(models_dir@, l.deep_view()).len() == 0
                            &&& e matches Error::NoModels(u, d) && u is None && d@ == models_dir@
                        },
                    }
                },
            },
    {
        let exe_path = match locate(current_exe, bundled_exists, path_hit) {
            Ok(p) => p,
            Err(e) => {
                return Err(e);
            },
        };
        self.exe_path = Some(exe_path);
        match discover(models_dir, listing) {
            Ok(models) => {
                self.models = models;
                Ok(())
            },
            Err(e) => Err(e),
        }
    }

    /// Submits one job: snapshots the current options, builds the invocation
    /// and moves the engine to running. A submission while a job is in
    /// flight is a no-op that neither replaces nor queues anything; a
    /// missing model or an unsupported input extension is rejected with the
    /// builder's error and leaves the engine idle. On success the caller
    /// receives the command to spawn, and the job records the snapshot, the
    /// image and `now_ms` as its start time.
    pub fn upscale(&mut self, image: SourceImage, now_ms: u64) -> (r: SubmitOutcome)
        requires
            old(self).wf(),
            old(self).initialized(),
            old(self).next_job_id < u64::MAX,
        ensures
            final(self).wf(),
            final(self).options == old(self).options,
            final(self).models == old(self).models,
            final(self).exe_path == old(self).exe_path,
            old(self).upscaling ==> r is AlreadyRunning && *final(self) == *old(self),
            !old(self).upscaling && old(self).options.model is None ==> (r matches
                SubmitOutcome::Rejected(e) && e matches Error::FailedToUpscaleImage(u, m)
                && u is None && m@ == no_model_reason() && *final(self) == *old(self)),
            !old(self).upscaling && old(self).options.model is Some && !supported_input(
                path_extension(image.path@),
            ) ==> (r matches SubmitOutcome::Rejected(e) && e matches Error::ImageFormatNotSupported(
                u,
                x,
            ) && u is None && x@ == path_extension(image.path@) && *final(self) == *old(self)),
            !old(self).upscaling && old(self).options.model is Some && supported_input(
                path_extension(image.path@),
            ) ==> (r matches SubmitOutcome::Started(inv) && {
                &&& invocation_for(inv, image, old(self).options, old(self).exe_path->0@)
                &&& final(self).upscaling
                &&& final(self).active matches Some(j) && {
                    &&& j.command == inv
                    &&& j.id == old(self).next_job_id
                    &&& j.source_image == image
                    &&& j.options_snapshot == old(self).options
                    &&& j.started_at == now_ms
                    &&& j.state is Running
                }
                &&& final(self).next_job_id == old(self).next_job_id + 1
            }),
    {
        if self.upscaling {
            return SubmitOutcome::AlreadyRunning;
        }
        let exe_path = match &self.exe_path {
            Some(p) => p,
            None => {
                return unreached();
            },
        };
        let invocation = match build(&image, &self.options, exe_path.as_str()) {
            Ok(inv) => inv,
            Err(e) => {
                return SubmitOutcome::Rejected(e);
            },
        };
        let job = Job {
            id: self.next_job_id,
            command: invocation.clone(),
            source_image: image,
            options_snapshot: self.options.clone(),
            started_at: now_ms,
            state: JobState::Running,
        };
        self.active = Some(job);
        self.upscaling = true;
        self.next_job_id = self.next_job_id + 1;
        SubmitOutcome::Started(invocation)
    }

    /// Applies one poll of the subprocess, reported by the caller as an
    /// event. Non-blocking by construction: the wait happened outside. An
    /// idle engine ignores every event. A running job survives
    /// `StillRunning` untouched; any terminal event drops the job, clears
    /// the running flag and yields the single terminal notification —
    /// success with the destination path on exit status 0, otherwise a
    /// `FailedToUpscaleImage` whose reason carries the captured diagnostics.
    pub fn update(&mut self, event: PollEvent) -> (r: Option<Notification>)
        requires
            old(self).wf(),
        ensures
            final(self).wf(),
            final(self).same_settings(old(self)),
            r is Some <==> old(self).upscaling && is_terminal_event(event),
            final(self).upscaling <==> old(self).upscaling && !is_terminal_event(event),
            !(old(self).upscaling && is_terminal_event(event)) ==> *final(self) == *old(self),
            old(self).upscaling && is_terminal_event(event) ==> final(self).active is None,
            old(self).active matches Some(j) ==> match event {
                PollEvent::StillRunning => r is None,
                PollEvent::Exited(code, diag) => {
                    if code == 0 {
                        r == Some(Notification::Succeeded(j.command.output_path))
                    } else {
                        r matches Some(n) && n matches Notification::Failed(e)
                            && e matches Error::FailedToUpscaleImage(u, m) && u is None && m@
                            == nonzero_exit_reason(diag@)
                    }
                },
                PollEvent::SpawnFailed(diag) => r matches Some(n) && n matches Notification::Failed(
                    e,
                ) && e matches Error::FailedToUpscaleImage(u, m) && u is None && m@
                    == spawn_failure_reason(diag@),
            },
    {
        if !self.upscaling {
            return None;
        }
        match &event {
            PollEvent::StillRunning => None,
            _ => {
                let job = match self.active.take() {
                    Some(job) => job,
                    None => {
                        return None;
                    },
                };
                self.upscaling = false;
                match event {
                    PollEvent::StillRunning => None,
                    PollEvent::Exited(code, diag) => {
                        if code == 0 {
                            Some(Notification::Succeeded(job.command.output_path))
                        } else {
                            let mut reason = String::from_str(
                                "the upscaler exited with a non-zero status. ",
                            );
                            reason.append(diag.as_str());
                            Some(
                                Notification::Failed(Error::FailedToUpscaleImage(None, reason)),
                            )
                        }
                    },
                    PollEvent::SpawnFailed(diag) => {
                        let mut reason = String::from_str("the upscaler could not be started. ");
                        reason.append(diag.as_str());
                        Some(Notification::Failed(Error::FailedToUpscaleImage(None, reason)))
                    },
                }
            },
        }
    }

    /// Cancels the job in flight, if any: the job is dropped, the engine is
    /// idle afterwards, and the single terminal notification — a cancellation
    /// failure — is returned for the caller to deliver after it kills the
    /// subprocess. Idle engines are left untouched and yield nothing.
    pub fn cancel(&mut self) -> (r: Option<Notification>)
        requires
            old(self).wf(),
        ensures
            final(self).wf(),
            final(self).same_settings(old(self)),
            final(self).active is None,
            !final(self).upscaling,
            r is Some <==> old(self).upscaling,
            !old(self).upscaling ==> *final(self) == *old(self),
            old(self).upscaling ==> (r matches Some(n) && n matches Notification::Failed(e)
                && e matches Error::FailedToUpscaleImage(u, m) && u is None && m@
                == cancelled_reason()),
    {
        if !self.upscaling {
            return None;
        }
        let _job = self.active.take();
        self.upscaling = false;
        Some(
            Notification::Failed(
                Error::FailedToUpscaleImage(
                    None,
                    String::from_str("the job was cancelled before the upscaler finished."),
                ),
            ),
        )
    }

    /// Restores the options to their defaults. A job in flight is unaffected
    /// — it already holds its own snapshot — and the model list is kept.
    pub fn reset_options(&mut self)
        requires
            old(self).wf(),
        ensures
            final(self).wf(),
            options_defaulted(final(self).options),
            final(self).models == old(self).models,
            final(self).upscaling == old(self).upscaling,
            final(self).active == old(self).active,
            final(self).exe_path == old(self).exe_path,
            final(self).next_job_id == old(self).next_job_id,
    {
        self.options = UpscaleOptions::default();
    }
}

} // verus!
