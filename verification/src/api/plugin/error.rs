use vstd::prelude::*;

use crate::ffi::{NulError, Utf8Error};

verus! {

/// What can go wrong in the plugin interface.
#[derive(Clone, Copy, Debug, PartialEq, Eq, Structural)]
pub enum PluginError {
    /// The host answered with an id that stands for no plugin.
    InvalidId(i32),
    /// A plugin path holds a NUL byte.
    InvalidPluginPath(NulError),
    /// A plugin signature holds a NUL byte.
    InvalidPluginSignature(NulError),
    /// The name the host gave for a plugin is not UTF-8.
    InvalidInfoName(Utf8Error),
    /// The file path the host gave for a plugin is not UTF-8.
    InvalidInfoFilePath(Utf8Error),
    /// The signature the host gave for a plugin is not UTF-8.
    InvalidInfoSignature(Utf8Error),
    /// The description the host gave for a plugin is not UTF-8.
    InvalidInfoDescription(Utf8Error),
}

} // verus!
