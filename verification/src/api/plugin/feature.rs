use vstd::prelude::*;

verus! {

/// An advanced feature that a plugin can ask the host for.
#[derive(Clone, Copy, Debug, PartialEq, Eq, Structural)]
pub enum Feature {
    /// Drawing callbacks also run while the host renders reflections and
    /// shadows off screen.
    WantsReflections,
    /// Paths are those of the operating system.
    UseNativePaths,
    /// Widget trees are anchored in modern windows.
    UseNativeWidgetsWindows,
    /// The host tells the plugin when data refs are added.
    WantsDatarefNotifications,
}

impl Feature {
    /// The name under which the host knows the feature.
    pub open spec fn name_text(self) -> Seq<char> {
        match self {
            Feature::WantsReflections => "XPLM_WANTS_REFLECTIONS"@,
            Feature::UseNativePaths => "XPLM_USE_NATIVE_PATHS"@,
            Feature::UseNativeWidgetsWindows => "XPLM_USE_NATIVE_WIDGET_WINDOWS"@,
            Feature::WantsDatarefNotifications => "XPLM_WANTS_DATAREF_NOTIFICATIONS"@,
        }
    }

    /// The name of a feature is plain ASCII without a NUL character, so it
    /// can be handed to the host as it is.
    pub proof fn lemma_name_is_plain(self)
        ensures
            vstd::utf8::is_ascii_chars(self.name_text()),
            forall|i: int| 0 <= i < self.name_text().len() ==> self.name_text()[i] != '\0',
    {
        reveal_strlit("XPLM_WANTS_REFLECTIONS");
        reveal_strlit("XPLM_USE_NATIVE_PATHS");
        reveal_strlit("XPLM_USE_NATIVE_WIDGET_WINDOWS");
        reveal_strlit("XPLM_WANTS_DATAREF_NOTIFICATIONS");
    }

    /// The name under which the host knows the feature.
    pub fn name(&self) -> (r: &'static str)
        ensures
            r@ == self.name_text(),
    {
        match self {
            Feature::WantsReflections => "XPLM_WANTS_REFLECTIONS",
            Feature::UseNativePaths => "XPLM_USE_NATIVE_PATHS",
            Feature::UseNativeWidgetsWindows => "XPLM_USE_NATIVE_WIDGET_WINDOWS",
            Feature::WantsDatarefNotifications => "XPLM_WANTS_DATAREF_NOTIFICATIONS",
        }
    }
}

} // verus!
