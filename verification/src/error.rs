//! The engine's error taxonomy. Each error carries an optional underlying
//! diagnostic string for logging and renders a human-readable message.

use vstd::prelude::*;
use vstd::string::StrSliceExecFns;
use vstd::string::StringExecFns;

use crate::paths::dir_split_index;
use crate::paths::file_name;
use crate::paths::lemma_dir_prefix_len_bounds;

verus! {

/// Everything that can go wrong while initialising the engine or running one
/// upscale job. The first field of every variant is the optional underlying
/// diagnostic.
#[derive(Debug, Clone)]
pub enum Error {
    /// A path handed to the engine or picked by the user does not exist.
    FileNotFound(Option<String>, String, String),
    /// The file picker was dismissed without a choice.
    NoFileSelected(Option<String>),
    /// The upscaling subprocess failed to start or exited with a non-zero
    /// status; the second field is the reason shown to the user.
    FailedToUpscaleImage(Option<String>, String),
    /// The external upscaling binary was found neither beside the running
    /// application nor on the system search path.
    UpscaylNotInPath(Option<String>),
    /// The model directory does not exist.
    ModelsFolderNotFound(Option<String>, String),
    /// The model directory exists but holds no recognizable model file.
    NoModels(Option<String>, String),
    /// An image could not be loaded by the image module.
    FailedToInitImage(Option<String>, String, String),
    /// The source image's extension is not in the supported input set.
    ImageFormatNotSupported(Option<String>, String),
    /// The running application's own path could not be determined.
    FailedToGetCurrentExecutablePath(Option<String>),
}

/// The text `human_message` renders for an error.
pub open spec fn human_message_view(e: Error) -> Seq<char> {
    match e {
        Error::FileNotFound(_, path, detail) => "The file path given '"@ + path@
            + "' does not exist! "@ + detail@,
        Error::NoFileSelected(_) => "No file was selected in the file dialogue!"@,
        Error::FailedToUpscaleImage(_, reason) => "Failed to upscale the image. \n\nReason: "@
            + reason@,
        Error::UpscaylNotInPath(_) =>
            "upscayl-bin isn't in your path. Install it: https://github.com/upscayl/upscayl-ncnn"@,
        Error::ModelsFolderNotFound(_, path) => "Models folder not found: "@ + path@,
        Error::NoModels(_, path) => "No models found in folder: '"@ + path@ + "'"@,
        Error::FailedToInitImage(_, path, reason) => "Failed to initialize the image ("@
            + file_name(path@) + ")! Reason: "@ + reason@,
        Error::ImageFormatNotSupported(_, format) => "The image format '"@ + format@
            + "' is not supported!"@,
        Error::FailedToGetCurrentExecutablePath(_) =>
            "Failed to get the current path where aeternum is located."@,
    }
}

/// The underlying diagnostic an error carries.
pub open spec fn underlying_of(e: Error) -> Option<String> {
    match e {
        Error::FileNotFound(underlying, _, _) => underlying,
        Error::NoFileSelected(underlying) => underlying,
        Error::FailedToUpscaleImage(underlying, _) => underlying,
        Error::UpscaylNotInPath(underlying) => underlying,
        Error::ModelsFolderNotFound(underlying, _) => underlying,
        Error::NoModels(underlying, _) => underlying,
        Error::FailedToInitImage(underlying, _, _) => underlying,
        Error::ImageFormatNotSupported(underlying, _) => underlying,
        Error::FailedToGetCurrentExecutablePath(underlying) => underlying,
    }
}

impl Error {
    /// The human-readable message shown to the user for this error.
    pub fn human_message(&self) -> (r: String)
        ensures
            r@ == human_message_view(*self),
    {
        let mut s = String::new();
        match self {
            Error::FileNotFound(_, path, detail) => {
                s.append("The file path given '");
                s.append(path.as_str());
                s.append("' does not exist! ");
                s.append(detail.as_str());
            },
            Error::NoFileSelected(_) => {
                s.append("No file was selected in the file dialogue!");
            },
            Error::FailedToUpscaleImage(_, reason) => {
                s.append("Failed to upscale the image. \n\nReason: ");
                s.append(reason.as_str());
            },
            Error::UpscaylNotInPath(_) => {
                s.append(
                    "upscayl-bin isn't in your path. Install it: https://github.com/upscayl/upscayl-ncnn",
                );
            },
            Error::ModelsFolderNotFound(_, path) => {
                s.append("Models folder not found: ");
                s.append(path.as_str());
            },
            Error::NoModels(_, path) => {
                s.append("No models found in folder: '");
                s.append(path.as_str());
                s.append("'");
            },
            Error::FailedToInitImage(_, path, reason) => {
                s.append("Failed to initialize the image (");
                let k = dir_split_index(path.as_str());
                let len = path.as_str().unicode_len();
                proof {
                    lemma_dir_prefix_len_bounds(path@);
                }
                s.append(path.as_str().substring_char(k, len));
                proof {
                    assert(path@.subrange(k as int, len as int) =~= file_name(path@));
                }
                s.append(")! Reason: ");
                s.append(reason.as_str());
            },
            Error::ImageFormatNotSupported(_, format) => {
                s.append("The image format '");
                s.append(format.as_str());
                s.append("' is not supported!");
            },
            Error::FailedToGetCurrentExecutablePath(_) => {
                s.append("Failed to get the current path where aeternum is located.");
            },
        }
        proof {
            assert(s@ =~= human_message_view(*self));
        }
        s
    }

    /// The optional underlying diagnostic, for logging.
    pub fn actual_error(&self) -> (r: Option<String>)
        ensures
            r == underlying_of(*self),
    {
        match self {
            Error::FileNotFound(underlying, _, _) => match underlying {
                Some(u) => Some(u.clone()),
                None => None,
            },
            Error::NoFileSelected(underlying) => match underlying {
                Some(u) => Some(u.clone()),
                None => None,
            },
            Error::FailedToUpscaleImage(underlying, _) => match underlying {
                Some(u) => Some(u.clone()),
                None => None,
            },
            Error::UpscaylNotInPath(underlying) => match underlying {
                Some(u) => Some(u.clone()),
                None => None,
            },
            Error::ModelsFolderNotFound(underlying, _) => match underlying {
                Some(u) => Some(u.clone()),
                None => None,
            },
            Error::NoModels(underlying, _) => match underlying {
                Some(u) => Some(u.clone()),
                None => None,
            },
            Error::FailedToInitImage(underlying, _, _) => match underlying {
                Some(u) => Some(u.clone()),
                None => None,
            },
            Error::ImageFormatNotSupported(underlying, _) => match underlying {
                Some(u) => Some(u.clone()),
                None => None,
            },
            Error::FailedToGetCurrentExecutablePath(underlying) => match underlying {
                Some(u) => Some(u.clone()),
                None => None,
            },
        }
    }
}

} // verus!
