//! The invocation builder: translates a source image and a validated option
//! snapshot into the concrete command line and output path of one job. Pure
//! computation; nothing here spawns or touches the file system.

use vstd::prelude::*;
use vstd::string::StrSliceExecFns;
use vstd::string::StringExecFns;

use crate::catalog::Model;
use crate::error::Error;
use crate::format::token_view;
use crate::format::OutputExt;
use crate::paths::dir_prefix;
use crate::paths::dir_split_index;
use crate::paths::file_name;
use crate::paths::file_name_str;
use crate::paths::join_dir;
use crate::paths::join_dir_exec;
use crate::paths::lemma_dir_prefix_len_bounds;
use crate::paths::path_extension;
use crate::paths::path_extension_exec;
use crate::paths::stem;
use crate::paths::stem_exec;
use crate::text::dec_seq;
use crate::text::render_u8;
use crate::text::str_eq;

verus! {

/// The source image of a job: its path and its pixel dimensions, as loaded by
/// the caller's image module. The engine reads nothing else of the image.
#[derive(Debug)]
pub struct SourceImage {
    pub path: String,
    pub pixel_width: u32,
    pub pixel_height: u32,
}

impl Clone for SourceImage {
    fn clone(&self) -> (r: Self)
        ensures
            r == *self,
    {
        SourceImage {
            path: self.path.clone(),
            pixel_width: self.pixel_width,
            pixel_height: self.pixel_height,
        }
    }
}

impl SourceImage {
    /// The pixel dimensions the image will have after upscaling by `scale`.
    pub fn upscaled_dimensions(&self, scale: u8) -> (r: (u64, u64))
        ensures
            r.0 == self.pixel_width * scale,
            r.1 == self.pixel_height * scale,
    {
        let w: u64 = self.pixel_width as u64;
        let h: u64 = self.pixel_height as u64;
        let s: u64 = scale as u64;
        proof {
            assert(w * s < 0x10000000000 && h * s < 0x10000000000) by (nonlinear_arith)
                requires
                    w < 0x100000000,
                    h < 0x100000000,
                    s < 0x100,
            ;
        }
        (w * s, h * s)
    }
}

/// The option set read by the builder when a job is submitted. Owned by the
/// facade; a job keeps its own snapshot, so later edits cannot affect a job
/// already in flight.
#[derive(Debug)]
pub struct UpscaleOptions {
    pub model: Option<Model>,
    pub scale: u8,
    pub compression: u8,
    pub output: Option<String>,
    pub output_ext: OutputExt,
}

impl UpscaleOptions {
    /// The domains of the numeric options: scale in 1..=16, compression in
    /// 0..=100.
    pub open spec fn wf(&self) -> bool {
        &&& 1 <= self.scale <= 16
        &&& self.compression <= 100
    }
}

/// The default option set: no model picked yet, scale 4, no extra
/// compression, output beside the source image, PNG output.
pub open spec fn options_defaulted(o: UpscaleOptions) -> bool {
    &&& o.model is None
    &&& o.scale == 4
    &&& o.compression == 0
    &&& o.output is None
    &&& o.output_ext == OutputExt::PNG
}

impl Default for UpscaleOptions {
    fn default() -> (r: Self)
        ensures
            options_defaulted(r),
            r.wf(),
    {
        UpscaleOptions {
            model: None,
            scale: 4,
            compression: 0,
            output: None,
            output_ext: OutputExt::PNG,
        }
    }
}

impl Clone for UpscaleOptions {
    fn clone(&self) -> (r: Self)
        ensures
            r == *self,
    {
        let model = match &self.model {
            Some(m) => Some(m.clone()),
            None => None,
        };
        let output = match &self.output {
            Some(o) => Some(o.clone()),
            None => None,
        };
        UpscaleOptions {
            model,
            scale: self.scale,
            compression: self.compression,
            output,
            output_ext: self.output_ext,
        }
    }
}

/// Whether a source image's extension is in the supported input set.
pub open spec fn supported_input(ext: Seq<char>) -> bool {
    ext == "png"@ || ext == "jpeg"@ || ext == "jpg"@ || ext == "webp"@
}

fn supported_input_exec(ext: &str) -> (r: bool)
    ensures
        r == supported_input(ext@),
{
    str_eq(ext, "png") || str_eq(ext, "jpeg") || str_eq(ext, "jpg") || str_eq(ext, "webp")
}

/// The view of an optional output directory.
pub open spec fn dir_view(o: Option<String>) -> Option<Seq<char>> {
    match o {
        None => None,
        Some(d) => Some(d@),
    }
}

/// The destination path of a job: the chosen output directory, or the source
/// image's own directory, joined with `<source stem>_upscaled.<extension>`.
/// An existing file at this path is overwritten by the external tool; the
/// builder does not avoid it.
pub open spec fn output_path_view(
    image_path: Seq<char>,
    output_dir: Option<Seq<char>>,
    ext: OutputExt,
) -> Seq<char> {
    let out_name = stem(file_name(image_path)) + "_upscaled."@ + token_view(ext);
    match output_dir {
        None => dir_prefix(image_path) + out_name,
        Some(d) => join_dir(d, out_name),
    }
}

fn output_path_exec(image_path: &str, output: &Option<String>, ext: OutputExt) -> (r: String)
    ensures
        r@ == output_path_view(image_path@, dir_view(*output), ext),
{
    let name = file_name_str(image_path);
    let mut out_name = stem_exec(name);
    out_name.append("_upscaled.");
    out_name.append(ext.token());
    proof {
        assert(out_name@ =~= stem(file_name(image_path@)) + "_upscaled."@ + token_view(ext));
    }
    match output {
        None => {
            let k = dir_split_index(image_path);
            proof {
                lemma_dir_prefix_len_bounds(image_path@);
            }
            let dir = image_path.substring_char(0, k);
            let mut r = dir.to_owned();
            r.append(out_name.as_str());
            proof {
                assert(image_path@.subrange(0, k as int) =~= dir_prefix(image_path@));
                assert(r@ =~= output_path_view(image_path@, dir_view(*output), ext));
            }
            r
        },
        Some(d) => join_dir_exec(d.as_str(), out_name.as_str()),
    }
}

/// The concrete command line of one job, plus the destination path the tool
/// will write.
#[derive(Debug)]
pub struct Invocation {
    pub exe_path: String,
    pub input_path: String,
    pub output_path: String,
    pub model_path: String,
    pub scale: u8,
    pub compression: u8,
    pub format_token: String,
}

impl Clone for Invocation {
    fn clone(&self) -> (r: Self)
        ensures
            r == *self,
    {
        Invocation {
            exe_path: self.exe_path.clone(),
            input_path: self.input_path.clone(),
            output_path: self.output_path.clone(),
            model_path: self.model_path.clone(),
            scale: self.scale,
            compression: self.compression,
            format_token: self.format_token.clone(),
        }
    }
}

impl Invocation {
    /// The tool's argument list, in the fixed order it expects: input path,
    /// output path, model file path, scale, compression, format token. The
    /// numeric values appear exactly as decimal text, unclamped.
    pub fn args(&self) -> (r: Vec<String>)
        ensures
            r.deep_view() == seq![
                self.input_path@,
                self.output_path@,
                self.model_path@,
                dec_seq(self.scale as nat),
                dec_seq(self.compression as nat),
                self.format_token@,
            ],
    {
        let mut v: Vec<String> = Vec::new();
        v.push(self.input_path.clone());
        v.push(self.output_path.clone());
        v.push(self.model_path.clone());
        v.push(render_u8(self.scale));
        v.push(render_u8(self.compression));
        v.push(self.format_token.clone());
        proof {
            assert(v.deep_view() =~= seq![
                self.input_path@,
                self.output_path@,
                self.model_path@,
                dec_seq(self.scale as nat),
                dec_seq(self.compression as nat),
                self.format_token@,
            ]);
        }
        v
    }
}

/// What it means for an invocation to encode one job: every field is pinned
/// by the image, the option snapshot and the resolved executable.
pub open spec fn invocation_for(
    inv: Invocation,
    image: SourceImage,
    options: UpscaleOptions,
    exe_path: Seq<char>,
) -> bool {
    &&& inv.exe_path@ == exe_path
    &&& inv.input_path@ == image.path@
    &&& options.model matches Some(m) && inv.model_path@ == m.file_path@
    &&& inv.scale == options.scale
    &&& inv.compression == options.compression
    &&& inv.format_token@ == token_view(options.output_ext)
    &&& inv.output_path@ == output_path_view(image.path@, dir_view(options.output), options.output_ext)
}

/// The reason reported when a job is submitted with no model picked.
pub open spec fn no_model_reason() -> Seq<char> {
    "No upscaling model is selected."@
}

/// Builds the invocation of one job from a source image, an option snapshot
/// and the resolved executable path. The submission preconditions are
/// checked here, not assumed: a missing model and an unsupported input
/// extension each fail, in that order, and nothing is spawned in any case.
pub fn build(image: &SourceImage, options: &UpscaleOptions, exe_path: &str) -> (r: Result<
    Invocation,
    Error,
>)
    requires
        options.wf(),
    ensures
        options.model is None ==> (r matches Err(e) && e matches Error::FailedToUpscaleImage(
            u,
            m,
        ) && u is None && m@ == no_model_reason()),
        options.model is Some && !supported_input(path_extension(image.path@)) ==> (r matches Err(
            e,
        ) && e matches Error::ImageFormatNotSupported(u, x) && u is None && x@ == path_extension(
            image.path@,
        )),
        options.model is Some && supported_input(path_extension(image.path@)) ==> (r matches Ok(
            inv,
        ) && invocation_for(inv, *image, *options, exe_path@)),
{
    let model = match &options.model {
        None => {
            return Err(
                Error::FailedToUpscaleImage(None, String::from_str("No upscaling model is selected.")),
            );
        },
        Some(m) => m,
    };
    let ext = path_extension_exec(image.path.as_str());
    if !supported_input_exec(ext.as_str()) {
        return Err(Error::ImageFormatNotSupported(None, ext));
    }
    let output_path = output_path_exec(image.path.as_str(), &options.output, options.output_ext);
    Ok(
        Invocation {
            exe_path: exe_path.to_owned(),
            input_path: image.path.clone(),
            output_path,
            model_path: model.file_path.clone(),
            scale: options.scale,
            compression: options.compression,
            format_token: options.output_ext.token().to_owned(),
        },
    )
}

} // verus!
