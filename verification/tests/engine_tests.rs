use aeternum::builder::SourceImage;
use aeternum::catalog::Model;
use aeternum::error::Error;
use aeternum::job::Notification;
use aeternum::job::PollEvent;
use aeternum::upscale::resolve_models_dir;
use aeternum::upscale::SubmitOutcome;
use aeternum::upscale::Upscale;

fn engine_with_model() -> Upscale {
    let mut up = Upscale::new();
    let listing = vec![String::from("ultrasharp.bin")];
    up.init(
        "/opt/app/models",
        Some(listing),
        Some(String::from("/opt/app/aeternum")),
        true,
        None,
    )
    .unwrap();
    up.options.model = Some(Model {
        name: String::from("ultrasharp"),
        file_path: String::from("/opt/app/models/ultrasharp.bin"),
    });
    up
}

fn cat_png() -> SourceImage {
    SourceImage {
        path: String::from("a/cat.png"),
        pixel_width: 640,
        pixel_height: 480,
    }
}

#[test]
fn init_uses_bundled_binary_first() {
    let up = engine_with_model();
    assert_eq!(up.exe_path.as_deref(), Some("/opt/app/upscayl-bin"));
    assert!(!up.upscaling);
}

#[test]
fn init_falls_back_to_search_path() {
    let mut up = Upscale::new();
    up.init(
        "/m",
        Some(vec![String::from("a.bin")]),
        Some(String::from("/opt/app/aeternum")),
        false,
        Some(String::from("/usr/bin/upscayl-bin")),
    )
    .unwrap();
    assert_eq!(up.exe_path.as_deref(), Some("/usr/bin/upscayl-bin"));
}

#[test]
fn init_fails_without_current_exe() {
    let mut up = Upscale::new();
    let r = up.init("/m", None, None, true, Some(String::from("/usr/bin/upscayl-bin")));
    assert!(matches!(r, Err(Error::FailedToGetCurrentExecutablePath(None))));
    assert!(up.exe_path.is_none());
}

#[test]
fn init_fails_when_no_probe_hits() {
    let mut up = Upscale::new();
    let r = up.init("/m", None, Some(String::from("/opt/app/aeternum")), false, None);
    assert!(matches!(r, Err(Error::UpscaylNotInPath(None))));
    assert!(up.exe_path.is_none());
}

#[test]
fn fresh_engine_is_idle_with_defaults() {
    let up = Upscale::new();
    assert!(up.options.model.is_none());
    assert!(up.models.is_empty());
    assert!(!up.upscaling);
    assert!(up.active.is_none());
    assert!(up.exe_path.is_none());
    assert_eq!(up.next_job_id, 0);
}

#[test]
fn upscale_without_model_is_rejected_and_spawns_nothing() {
    let mut up = engine_with_model();
    up.options.model = None;
    let outcome = up.upscale(cat_png(), 7);
    match outcome {
        SubmitOutcome::Rejected(Error::FailedToUpscaleImage(None, reason)) => {
            assert_eq!(reason, "No upscaling model is selected.");
        }
        other => panic!("expected a precondition rejection, got {:?}", other),
    }
    assert!(!up.upscaling);
    assert!(up.active.is_none());
}

#[test]
fn upscale_with_unsupported_extension_is_rejected() {
    let mut up = engine_with_model();
    let bmp = SourceImage {
        path: String::from("a/cat.bmp"),
        pixel_width: 1,
        pixel_height: 1,
    };
    let outcome = up.upscale(bmp, 0);
    match outcome {
        SubmitOutcome::Rejected(Error::ImageFormatNotSupported(None, ext)) => {
            assert_eq!(ext, "bmp");
        }
        other => panic!("expected a format rejection, got {:?}", other),
    }
    assert!(!up.upscaling);
    assert!(up.active.is_none());
}

#[test]
fn submit_while_running_is_a_no_op() {
    let mut up = engine_with_model();
    let outcome = up.upscale(cat_png(), 1);
    assert!(matches!(outcome, SubmitOutcome::Started(_)));
    assert!(up.upscaling);
    let first_id = up.active.as_ref().unwrap().id;

    let second = up.upscale(cat_png(), 2);
    assert!(matches!(second, SubmitOutcome::AlreadyRunning));
    assert!(up.upscaling);
    assert_eq!(up.active.as_ref().unwrap().id, first_id);
    assert_eq!(up.next_job_id, first_id + 1);
}

#[test]
fn successful_job_notifies_exactly_once() {
    let mut up = engine_with_model();
    up.upscale(cat_png(), 1);

    assert!(up.update(PollEvent::StillRunning).is_none());
    assert!(up.upscaling);

    let n = up.update(PollEvent::Exited(0, String::new()));
    match n {
        Some(Notification::Succeeded(path)) => assert_eq!(path, "a/cat_upscaled.png"),
        other => panic!("expected a success notification, got {:?}", other),
    }
    assert!(!up.upscaling);
    assert!(up.active.is_none());

    assert!(up.update(PollEvent::Exited(0, String::new())).is_none());
    assert!(up.update(PollEvent::StillRunning).is_none());
}

#[test]
fn failed_job_notifies_with_diagnostics() {
    let mut up = engine_with_model();
    up.upscale(cat_png(), 1);
    let n = up.update(PollEvent::Exited(255, String::from("vulkan device lost")));
    match n {
        Some(Notification::Failed(Error::FailedToUpscaleImage(None, reason))) => {
            assert_eq!(
                reason,
                "the upscaler exited with a non-zero status. vulkan device lost"
            );
        }
        other => panic!("expected a failure notification, got {:?}", other),
    }
    assert!(!up.upscaling);
}

#[test]
fn spawn_failure_notifies() {
    let mut up = engine_with_model();
    up.upscale(cat_png(), 1);
    let n = up.update(PollEvent::SpawnFailed(String::from("permission denied")));
    match n {
        Some(Notification::Failed(Error::FailedToUpscaleImage(None, reason))) => {
            assert_eq!(reason, "the upscaler could not be started. permission denied");
        }
        other => panic!("expected a failure notification, got {:?}", other),
    }
    assert!(!up.upscaling);
}

#[test]
fn cancel_mid_flight_notifies_exactly_once() {
    let mut up = engine_with_model();
    up.upscale(cat_png(), 1);
    let n = up.cancel();
    match n {
        Some(Notification::Failed(Error::FailedToUpscaleImage(None, reason))) => {
            assert_eq!(reason, "the job was cancelled before the upscaler finished.");
        }
        other => panic!("expected a cancellation notification, got {:?}", other),
    }
    assert!(!up.upscaling);
    assert!(up.active.is_none());
    assert!(up.cancel().is_none());
    assert!(up.update(PollEvent::Exited(1, String::new())).is_none());
}

#[test]
fn update_on_idle_engine_does_nothing() {
    let mut up = engine_with_model();
    assert!(up.update(PollEvent::StillRunning).is_none());
    assert!(up.update(PollEvent::Exited(0, String::new())).is_none());
    assert!(up.cancel().is_none());
}

#[test]
fn reset_options_leaves_running_job_untouched() {
    let mut up = engine_with_model();
    up.options.scale = 9;
    up.options.compression = 33;
    up.upscale(cat_png(), 1);
    let job_scale = up.active.as_ref().unwrap().options_snapshot.scale;
    assert_eq!(job_scale, 9);

    up.reset_options();
    assert!(up.options.model.is_none());
    assert_eq!(up.options.scale, 4);
    assert_eq!(up.options.compression, 0);
    assert!(up.options.output.is_none());
    assert!(up.upscaling);
    assert_eq!(up.active.as_ref().unwrap().options_snapshot.scale, 9);
    assert_eq!(up.active.as_ref().unwrap().command.scale, 9);
}

#[test]
fn engine_is_usable_again_after_a_terminal_job() {
    let mut up = engine_with_model();

    assert!(matches!(up.upscale(cat_png(), 1), SubmitOutcome::Started(_)));
    assert_eq!(up.active.as_ref().unwrap().id, 0);
    up.update(PollEvent::Exited(1, String::from("boom"))).unwrap();

    assert!(matches!(up.upscale(cat_png(), 2), SubmitOutcome::Started(_)));
    assert_eq!(up.active.as_ref().unwrap().id, 1);
    let n = up.update(PollEvent::Exited(0, String::new())).unwrap();
    assert!(matches!(n, Notification::Succeeded(_)));

    assert!(matches!(up.upscale(cat_png(), 3), SubmitOutcome::Started(_)));
    assert_eq!(up.active.as_ref().unwrap().id, 2);
}

#[test]
fn custom_model_folder_is_used_only_when_asked_and_present() {
    let custom = || Some(String::from("/home/u/models"));
    let default_dir = || String::from("/opt/app/models");
    assert_eq!(resolve_models_dir(true, custom(), default_dir()), "/home/u/models");
    assert_eq!(resolve_models_dir(true, None, default_dir()), "/opt/app/models");
    assert_eq!(resolve_models_dir(false, custom(), default_dir()), "/opt/app/models");
}

#[test]
fn failed_discovery_leaves_the_engine_degraded_but_usable() {
    let mut up = engine_with_model();
    assert_eq!(up.models.len(), 1);
    let r = up.init("/gone", None, Some(String::from("/opt/app/aeternum")), true, None);
    assert!(matches!(r, Err(aeternum::error::Error::ModelsFolderNotFound(None, _))));
    assert_eq!(up.models.len(), 1);
    assert!(up.exe_path.is_some());
    let outcome = up.upscale(cat_png(), 3);
    assert!(matches!(outcome, SubmitOutcome::Started(_)));
}

#[test]
fn job_snapshot_is_immune_to_later_edits() {
    let mut up = engine_with_model();
    up.options.scale = 2;
    up.upscale(cat_png(), 1);
    up.options.scale = 16;
    let job = up.active.as_ref().unwrap();
    assert_eq!(job.options_snapshot.scale, 2);
    assert_eq!(job.command.scale, 2);
    assert_eq!(job.started_at, 1);
}
