use aeternum::config::about_box_default;
use aeternum::config::enable_default;
use aeternum::config::version_default;
use aeternum::config::Config;
use aeternum::config::KeyBinds;
use aeternum::config::Misc;
use aeternum::error::Error;
use aeternum::locator::bundled_exe_path;
use aeternum::locator::locate;

#[test]
fn file_not_found_message() {
    let e = Error::FileNotFound(
        None,
        String::from("/tmp/cat.png"),
        String::from("That file doesn't exist!"),
    );
    assert_eq!(
        e.human_message(),
        "The file path given '/tmp/cat.png' does not exist! That file doesn't exist!"
    );
    assert!(e.actual_error().is_none());
}

#[test]
fn no_file_selected_message() {
    let e = Error::NoFileSelected(None);
    assert_eq!(e.human_message(), "No file was selected in the file dialogue!");
}

#[test]
fn failed_to_upscale_message() {
    let e = Error::FailedToUpscaleImage(Some(String::from("exit 1")), String::from("it broke"));
    assert_eq!(
        e.human_message(),
        "Failed to upscale the image. \n\nReason: it broke"
    );
    assert_eq!(e.actual_error(), Some(String::from("exit 1")));
}

#[test]
fn upscayl_not_in_path_message() {
    let e = Error::UpscaylNotInPath(None);
    assert_eq!(
        e.human_message(),
        "upscayl-bin isn't in your path. Install it: https://github.com/upscayl/upscayl-ncnn"
    );
}

#[test]
fn models_folder_not_found_message() {
    let e = Error::ModelsFolderNotFound(None, String::from("/home/u/.config/aeternum/models"));
    assert_eq!(
        e.human_message(),
        "Models folder not found: /home/u/.config/aeternum/models"
    );
}

#[test]
fn no_models_message() {
    let e = Error::NoModels(None, String::from("/m"));
    assert_eq!(e.human_message(), "No models found in folder: '/m'");
}

#[test]
fn failed_to_init_image_message_names_the_file() {
    let e = Error::FailedToInitImage(
        None,
        String::from("/pics/cat.png"),
        String::from("bad header"),
    );
    assert_eq!(
        e.human_message(),
        "Failed to initialize the image (cat.png)! Reason: bad header"
    );
}

#[test]
fn image_format_not_supported_message() {
    let e = Error::ImageFormatNotSupported(None, String::from("bmp"));
    assert_eq!(e.human_message(), "The image format 'bmp' is not supported!");
}

#[test]
fn failed_to_get_current_executable_path_message() {
    let e = Error::FailedToGetCurrentExecutablePath(None);
    assert_eq!(
        e.human_message(),
        "Failed to get the current path where aeternum is located."
    );
}

#[test]
fn locate_prefers_the_bundled_binary() {
    let r = locate(
        Some(String::from("/opt/aeternum/aeternum")),
        true,
        Some(String::from("/usr/bin/upscayl-bin")),
    );
    assert_eq!(r.unwrap(), "/opt/aeternum/upscayl-bin");
}

#[test]
fn locate_falls_back_to_the_search_path() {
    let r = locate(
        Some(String::from("/opt/aeternum/aeternum")),
        false,
        Some(String::from("/usr/bin/upscayl-bin")),
    );
    assert_eq!(r.unwrap(), "/usr/bin/upscayl-bin");
}

#[test]
fn locate_requires_the_current_exe_path() {
    let r = locate(None, false, Some(String::from("/usr/bin/upscayl-bin")));
    assert!(matches!(r, Err(Error::FailedToGetCurrentExecutablePath(None))));
}

#[test]
fn locate_reports_a_missing_binary() {
    let r = locate(Some(String::from("/opt/aeternum/aeternum")), false, None);
    assert!(matches!(r, Err(Error::UpscaylNotInPath(None))));
}

#[test]
fn bundled_path_is_beside_the_application() {
    assert_eq!(bundled_exe_path("/opt/aeternum/aeternum"), "/opt/aeternum/upscayl-bin");
    assert_eq!(bundled_exe_path("aeternum"), "upscayl-bin");
}

#[test]
fn config_defaults() {
    assert_eq!(version_default(), 1);
    assert_eq!(about_box_default(), "A");
    assert!(enable_default());

    let c = Config::default();
    assert_eq!(c.version, 0);
    assert_eq!(c.keybinds.about_box, "A");
    assert!(c.misc.enable_custom_folder);

    let k = KeyBinds::default();
    assert_eq!(k.about_box, "A");
    let m = Misc::default();
    assert!(m.enable_custom_folder);
}
