pub mod error;
pub mod feature;
pub mod id;
pub mod info;
pub mod message;

use vstd::prelude::*;
use vstd::utf8::{encode_utf8, valid_utf8};

pub use self::error::PluginError;
pub use self::feature::Feature;
pub use self::id::PluginId;
pub use self::info::PluginInfo;
pub use self::message::{AsMessageParam, Message, NoMessageParam};

use crate::ffi::{c_str, c_string, nul_free, FromCStringBytes, NulError, Utf8Error};
use vstd::string::StringSliceAdditionalSpecFns;

verus! {

/// What the functions of this interface give back.
pub type Result<T> = std::result::Result<T, PluginError>;

/// A call into the host's plugin interface: which function, and what is
/// handed to it. Text stands as C strings.
#[derive(Clone, Debug, PartialEq, Eq)]
#[allow(inconsistent_fields)]
pub enum PluginCall {
    /// Asks for the id of the calling plugin.
    GetMyID,
    /// Counts the plugins that are loaded.
    CountPlugins,
    /// Asks for the id of the plugin at an index.
    GetNthPlugin { index: i32 },
    /// Looks a plugin up by the path of its file.
    FindPluginByPath { path: Vec<u8> },
    /// Looks a plugin up by its signature.
    FindPluginBySignature { signature: Vec<u8> },
    /// Asks for the four descriptive strings of a plugin.
    GetPluginInfo { plugin: i32 },
    /// Asks whether a plugin is enabled.
    IsPluginEnabled { plugin: i32 },
    /// Enables a plugin.
    EnablePlugin { plugin: i32 },
    /// Disables a plugin.
    DisablePlugin { plugin: i32 },
    /// Reloads all plugins.
    ReloadPlugins,
    /// Sends a message to a plugin, or to all of them.
    SendMessageToPlugin { plugin: i32, message: i32, param: usize },
    /// Asks whether the host knows a feature.
    HasFeature { feature: Vec<u8> },
    /// Asks whether a feature is enabled.
    IsFeatureEnabled { feature: Vec<u8> },
    /// Enables or disables a feature.
    EnableFeature { feature: Vec<u8>, enable: i32 },
}

/// The plugin id that stands for "no plugin"; a message sent to it goes to all
/// plugins.
pub const NO_PLUGIN_ID: i32 = -1;

/// The call that asks for the id of the calling plugin.
/// [`PluginId::try_from`] reads the answer.
pub fn get_my_id() -> (call: PluginCall)
    ensures
        call == PluginCall::GetMyID,
{
    PluginCall::GetMyID
}

/// The call that counts the plugins that are loaded, enabled or not.
pub fn count_plugins() -> (call: PluginCall)
    ensures
        call == PluginCall::CountPlugins,
{
    PluginCall::CountPlugins
}

/// The call that asks for the id of the plugin at an index.
/// [`PluginId::try_from`] reads the answer.
pub fn get_nth_plugin(index: usize) -> (call: PluginCall)
    ensures
        call == (PluginCall::GetNthPlugin { index: index as i32 }),
{
    PluginCall::GetNthPlugin { index: #[verifier::truncate]
    (index as i32) }
}

/// The call that asks for the four descriptive strings of a plugin.
/// [`plugin_info`] reads the answer.
pub fn get_plugin_info(id: &PluginId) -> (call: PluginCall)
    ensures
        call == (PluginCall::GetPluginInfo { plugin: id@ }),
{
    PluginCall::GetPluginInfo { plugin: **id }
}

/// The call that asks whether a plugin is enabled.
pub fn is_plugin_enabled(id: &PluginId) -> (call: PluginCall)
    ensures
        call == (PluginCall::IsPluginEnabled { plugin: id@ }),
{
    PluginCall::IsPluginEnabled { plugin: **id }
}

/// The call that enables a plugin.
pub fn enable_plugin(id: &PluginId) -> (call: PluginCall)
    ensures
        call == (PluginCall::EnablePlugin { plugin: id@ }),
{
    PluginCall::EnablePlugin { plugin: **id }
}

/// The call that disables a plugin.
pub fn disable_plugin(id: &PluginId) -> (call: PluginCall)
    ensures
        call == (PluginCall::DisablePlugin { plugin: id@ }),
{
    PluginCall::DisablePlugin { plugin: **id }
}

/// The call that reloads all plugins.
pub fn reload_plugins() -> (call: PluginCall)
    ensures
        call == PluginCall::ReloadPlugins,
{
    PluginCall::ReloadPlugins
}

/// The call that sends a message to a plugin.
pub fn send_message_to_plugin<P: AsMessageParam>(id: &PluginId, message: i32, param: P) -> (call:
    PluginCall)
    ensures
        call == (PluginCall::SendMessageToPlugin {
            plugin: id@,
            message,
            param: param.message_param(),
        }),
{
    PluginCall::SendMessageToPlugin {
        plugin: **id,
        message,
        param: param.as_message_param(),
    }
}

/// The call that sends a message to all plugins: it goes to the id that
/// stands for no plugin.
pub fn send_message_to_all_plugins<P: AsMessageParam>(message: i32, param: P) -> (call:
    PluginCall)
    ensures
        call == (PluginCall::SendMessageToPlugin {
            plugin: NO_PLUGIN_ID,
            message,
            param: param.message_param(),
        }),
{
    PluginCall::SendMessageToPlugin {
        plugin: NO_PLUGIN_ID,
        message,
        param: param.as_message_param(),
    }
}

/// The name of a feature as the host takes it: a C string.
fn feature_name(feature: Feature) -> (name: Vec<u8>)
    ensures
        name@ == encode_utf8(feature.name_text()).push(0),
{
    proof {
        feature.lemma_name_is_plain();
        vstd::utf8::is_ascii_chars_encode_utf8(feature.name_text());
        assert forall|i: int| 0 <= i < encode_utf8(feature.name_text()).len() implies encode_utf8(
            feature.name_text(),
        )[i] != 0 by {
            let c = feature.name_text()[i];
            assert(c != '\0');
            assert(c as u8 == encode_utf8(feature.name_text())[i]);
        }
    }
    match c_string(feature.name()) {
        Ok(name) => name,
        Err(_) => vstd::pervasive::unreached(),
    }
}

/// The call that asks whether the host knows a feature.
pub fn has_feature(feature: Feature) -> (call: PluginCall)
    ensures
        call matches PluginCall::HasFeature { feature: name } && name@ == encode_utf8(
            feature.name_text(),
        ).push(0),
{
    PluginCall::HasFeature { feature: feature_name(feature) }
}

/// The call that asks whether a feature is enabled.
pub fn is_feature_enabled(feature: Feature) -> (call: PluginCall)
    ensures
        call matches PluginCall::IsFeatureEnabled { feature: name } && name@ == encode_utf8(
            feature.name_text(),
        ).push(0),
{
    PluginCall::IsFeatureEnabled { feature: feature_name(feature) }
}

/// The call that enables a feature.
pub fn enable_feature(feature: Feature) -> (call: PluginCall)
    ensures
        call matches PluginCall::EnableFeature { feature: name, enable } && name@ == encode_utf8(
            feature.name_text(),
        ).push(0) && enable == 1,
{
    PluginCall::EnableFeature { feature: feature_name(feature), enable: 1 }
}

/// The call that disables a feature.
pub fn disable_feature(feature: Feature) -> (call: PluginCall)
    ensures
        call matches PluginCall::EnableFeature { feature: name, enable } && name@ == encode_utf8(
            feature.name_text(),
        ).push(0) && enable == 0,
{
    PluginCall::EnableFeature { feature: feature_name(feature), enable: 0 }
}

/// The call that looks a plugin up by the absolute path of its file.
/// [`PluginId::try_from`] reads the answer.
pub fn find_plugin_by_path(path: &str) -> (r: Result<PluginCall>)
    ensures
        r is Ok <==> nul_free(path.spec_bytes()),
        r matches Ok(call) ==> call matches PluginCall::FindPluginByPath { path: c_path }
            && c_path@ == path.spec_bytes().push(0),
        r matches Err(e) ==> e == PluginError::InvalidPluginPath(
            NulError { position: crate::ffi::c_str_len(path.spec_bytes()) as usize },
        ),
{
    match c_string(path) {
        Ok(c_path) => Ok(PluginCall::FindPluginByPath { path: c_path }),
        Err(e) => Err(PluginError::InvalidPluginPath(e)),
    }
}

/// The call that looks a plugin up by its signature.
/// [`PluginId::try_from`] reads the answer.
pub fn find_plugin_by_signature(signature: &str) -> (r: Result<PluginCall>)
    ensures
        r is Ok <==> nul_free(signature.spec_bytes()),
        r matches Ok(call) ==> call matches PluginCall::FindPluginBySignature {
            signature: c_signature,
        } && c_signature@ == signature.spec_bytes().push(0),
        r matches Err(e) ==> e == PluginError::InvalidPluginSignature(
            NulError { position: crate::ffi::c_str_len(signature.spec_bytes()) as usize },
        ),
{
    match c_string(signature) {
        Ok(c_signature) => Ok(PluginCall::FindPluginBySignature { signature: c_signature }),
        Err(e) => Err(PluginError::InvalidPluginSignature(e)),
    }
}

/// The error that reading a plugin's four descriptive strings ends in: that of
/// the first of them, in the order name, file path, signature, description,
/// that is not UTF-8.
pub open spec fn plugin_info_error(
    name: Seq<u8>,
    file_path: Seq<u8>,
    signature: Seq<u8>,
    description: Seq<u8>,
) -> Option<PluginError> {
    if !valid_utf8(c_str(name)) {
        Some(PluginError::InvalidInfoName(Utf8Error))
    } else if !valid_utf8(c_str(file_path)) {
        Some(PluginError::InvalidInfoFilePath(Utf8Error))
    } else if !valid_utf8(c_str(signature)) {
        Some(PluginError::InvalidInfoSignature(Utf8Error))
    } else if !valid_utf8(c_str(description)) {
        Some(PluginError::InvalidInfoDescription(Utf8Error))
    } else {
        None
    }
}

/// Reads the four buffers that the host filled for a plugin. Each holds a C
/// string.
pub fn plugin_info(name: &[u8], file_path: &[u8], signature: &[u8], description: &[u8]) -> (r:
    Result<PluginInfo>)
    ensures
        match r {
            Ok(info) => {
                &&& plugin_info_error(name@, file_path@, signature@, description@) is None
                &&& encode_utf8(info.name@) == c_str(name@)
                &&& encode_utf8(info.file_path@) == c_str(file_path@)
                &&& encode_utf8(info.signature@) == c_str(signature@)
                &&& encode_utf8(info.description@) == c_str(description@)
            },
            Err(e) => plugin_info_error(name@, file_path@, signature@, description@) == Some(e),
        },
{
    let name = match String::from_cstring_buffer(name) {
        Ok(text) => text,
        Err(e) => {
            return Err(PluginError::InvalidInfoName(e));
        },
    };
    let file_path = match String::from_cstring_buffer(file_path) {
        Ok(text) => text,
        Err(e) => {
            return Err(PluginError::InvalidInfoFilePath(e));
        },
    };
    let signature = match String::from_cstring_buffer(signature) {
        Ok(text) => text,
        Err(e) => {
            return Err(PluginError::InvalidInfoSignature(e));
        },
    };
    let description = match String::from_cstring_buffer(description) {
        Ok(text) => text,
        Err(e) => {
            return Err(PluginError::InvalidInfoDescription(e));
        },
    };
    Ok(PluginInfo { name, file_path, signature, description })
}

} // verus!
