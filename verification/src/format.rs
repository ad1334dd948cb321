//! The closed set of output formats the engine can ask the external tool to
//! write. Each format has a canonical file extension, which doubles as the
//! format token on the tool's command line, and a display name for the
//! presentation layer's picker.

use vstd::prelude::*;

verus! {

/// An output image format.
#[derive(Debug, Clone, Copy, PartialEq, Eq, Structural)]
pub enum OutputExt {
    PNG,
    JPEG,
    WEBP,
}

/// The canonical file extension of a format, also used as the format token on
/// the external tool's command line.
pub open spec fn token_view(e: OutputExt) -> Seq<char> {
    match e {
        OutputExt::PNG => "png"@,
        OutputExt::JPEG => "jpg"@,
        OutputExt::WEBP => "webp"@,
    }
}

/// The display name of a format.
pub open spec fn name_view(e: OutputExt) -> Seq<char> {
    match e {
        OutputExt::PNG => "PNG"@,
        OutputExt::JPEG => "JPEG"@,
        OutputExt::WEBP => "WEBP"@,
    }
}

impl OutputExt {
    /// The canonical file extension and command-line token of this format.
    pub fn token(&self) -> (r: &'static str)
        ensures
            r@ == token_view(*self),
    {
        match self {
            OutputExt::PNG => "png",
            OutputExt::JPEG => "jpg",
            OutputExt::WEBP => "webp",
        }
    }

    /// The display name of this format, for the format picker.
    pub fn name(&self) -> (r: &'static str)
        ensures
            r@ == name_view(*self),
    {
        match self {
            OutputExt::PNG => "PNG",
            OutputExt::JPEG => "JPEG",
            OutputExt::WEBP => "WEBP",
        }
    }

    /// Every output format, in the order the picker lists them.
    pub fn all() -> (r: Vec<OutputExt>)
        ensures
            r@ == seq![OutputExt::PNG, OutputExt::JPEG, OutputExt::WEBP],
    {
        let mut v: Vec<OutputExt> = Vec::new();
        v.push(OutputExt::PNG);
        v.push(OutputExt::JPEG);
        v.push(OutputExt::WEBP);
        proof {
            assert(v@ =~= seq![OutputExt::PNG, OutputExt::JPEG, OutputExt::WEBP]);
        }
        v
    }
}

} // verus!
