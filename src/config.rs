//! The configuration: the device to back up to and the folders to save.

use vstd::prelude::*;

verus! {

/// Why a configuration could not be written or read.
#[derive(Clone, Copy, Debug, PartialEq, Eq, Structural)]
pub enum ConfigError {
    ConfigCreationError,
    ConfigCorrupted,
}

/// What a `Config` holds.
pub struct ConfigView {
    pub device_name: Seq<char>,
    pub path_names: Seq<Seq<char>>,
}

/// The texts of a list of strings.
pub open spec fn texts(v: Seq<String>) -> Seq<Seq<char>> {
    v.map_values(|s: String| s@)
}

/// The device to back up to, by name, and the folders to save, by path, in
/// the order they were chosen.
#[derive(Debug, PartialEq, Eq, PartialOrd, Ord, Clone)]
pub struct Config {
    device_name: String,
    path_names: Vec<String>,
}

impl View for Config {
    type V = ConfigView;

    closed spec fn view(&self) -> ConfigView {
        ConfigView { device_name: self.device_name@, path_names: texts(self.path_names@) }
    }
}

impl Config {
    pub fn new(device_name: String, path_names: Vec<String>) -> (r: Config)
        ensures
            r@ == (ConfigView { device_name: device_name@, path_names: texts(path_names@) }),
    {
        Config { device_name, path_names }
    }

    pub fn get_device_name(&self) -> (r: String)
        ensures
            r@ == self@.device_name,
    {
        self.device_name.clone()
    }

    pub fn get_path_names(&self) -> (r: Vec<String>)
        ensures
            texts(r@) == self@.path_names,
    {
        let r = self.path_names.clone();
        assert(texts(r@) =~= texts(self.path_names@));
        r
    }
}

} // verus!
