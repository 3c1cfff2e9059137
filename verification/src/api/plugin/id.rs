use vstd::prelude::*;

use super::error::PluginError;

verus! {

/// A plugin identifier.
#[derive(Clone, Copy, Debug, PartialEq, Eq, Structural)]
pub struct PluginId(i32);

impl View for PluginId {
    type V = i32;

    /// The id as the host knows it.
    closed spec fn view(&self) -> i32 {
        self.0
    }
}

impl TryFrom<i32> for PluginId {
    type Error = PluginError;

    /// Wraps an id that the host handed out. A negative id stands for no
    /// plugin.
    fn try_from(value: i32) -> (r: Result<Self, PluginError>)
        ensures
            r is Err <==> value < 0,
            r matches Ok(id) ==> id@ == value,
            r matches Err(e) ==> e == PluginError::InvalidId(value),
    {
        if value < 0 {
            Err(PluginError::InvalidId(value))
        } else {
            Ok(PluginId(value))
        }
    }
}

impl vstd::std_specs::convert::TryFromSpecImpl<i32> for PluginId {
    open spec fn obeys_try_from_spec() -> bool {
        true
    }

    closed spec fn try_from_spec(value: i32) -> Result<Self, PluginError> {
        if value < 0 {
            Err(PluginError::InvalidId(value))
        } else {
            Ok(PluginId(value))
        }
    }
}

impl PluginId {

    /// Two ids of the same raw value are the same id.
    pub proof fn lemma_identity(self, other: Self)
        ensures
            self@ == other@ <==> self == other,
    {
    }
}

impl core::ops::Deref for PluginId {
    type Target = i32;

    fn deref(&self) -> (raw: &i32)
        ensures
            *raw == self@,
            *raw >= 0,
    {
        proof {
            use_type_invariant(self);
        }
        &self.0
    }
}

impl PluginId {
    #[verifier::type_invariant]
    spec fn valid(self) -> bool {
        self.0 >= 0
    }
}

} // verus!
