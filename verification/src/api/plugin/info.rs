use vstd::prelude::*;

verus! {

/// What the host tells about a plugin.
#[derive(Clone, Debug)]
pub struct PluginInfo {
    /// The plugin's name.
    pub name: String,
    /// The absolute path of the plugin's file.
    pub file_path: String,
    /// The plugin's signature.
    pub signature: String,
    /// The plugin's description.
    pub description: String,
}

} // verus!
