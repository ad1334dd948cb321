//! The configuration values the engine consumes. Persistence — reading and
//! writing the configuration file — belongs to the caller; the engine only
//! reads the in-memory values.

use vstd::prelude::*;
use vstd::string::StringExecFns;

verus! {

/// The default configuration version.
pub fn version_default() -> (r: i8)
    ensures
        r == 1,
{
    1
}

/// The default key bound to the about box.
pub fn about_box_default() -> (r: String)
    ensures
        r@ == "A"@,
{
    String::from_str("A")
}

/// By default the user's custom model folder is enabled.
pub fn enable_default() -> (r: bool)
    ensures
        r,
{
    true
}

/// Key bindings of the presentation layer.
#[derive(Debug, Hash)]
pub struct KeyBinds {
    pub about_box: String,
}

impl Clone for KeyBinds {
    fn clone(&self) -> (r: Self)
        ensures
            r == *self,
    {
        KeyBinds { about_box: self.about_box.clone() }
    }
}

impl Default for KeyBinds {
    fn default() -> (r: Self)
        ensures
            r.about_box@ == "A"@,
    {
        KeyBinds { about_box: about_box_default() }
    }
}

/// Miscellaneous switches; `enable_custom_folder` is the one the engine
/// reads, to pick the model directory at initialisation.
#[derive(Debug, Clone, Copy, Hash)]
pub struct Misc {
    pub enable_custom_folder: bool,
}

impl Default for Misc {
    fn default() -> (r: Self)
        ensures
            r.enable_custom_folder,
    {
        Misc { enable_custom_folder: enable_default() }
    }
}

/// The whole configuration consumed by the application.
#[derive(Debug)]
pub struct Config {
    pub version: i8,
    pub keybinds: KeyBinds,
    pub misc: Misc,
}

impl Clone for Config {
    fn clone(&self) -> (r: Self)
        ensures
            r == *self,
    {
        Config { version: self.version, keybinds: self.keybinds.clone(), misc: self.misc }
    }
}

impl Default for Config {
    fn default() -> (r: Self)
        ensures
            r.version == 0,
            r.keybinds.about_box@ == "A"@,
            r.misc.enable_custom_folder,
    {
        Config { version: 0, keybinds: KeyBinds::default(), misc: Misc::default() }
    }
}

} // verus!
