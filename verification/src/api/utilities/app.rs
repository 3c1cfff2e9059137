use vstd::prelude::*;

use super::error::UtilitiesError;

verus! {

/// The application that runs the plugin.
#[derive(Clone, Copy, Debug, PartialEq, Eq, Structural)]
pub enum HostApplicationId {
    /// An application that is not known.
    Unknown,
    /// The simulator.
    XPlane,
}

impl HostApplicationId {
    /// The code by which the host names the application.
    pub open spec fn code(self) -> i32 {
        match self {
            HostApplicationId::Unknown => 0,
            HostApplicationId::XPlane => 1,
        }
    }
}

impl TryFrom<i32> for HostApplicationId {
    type Error = UtilitiesError;

    /// The application that a code of the host names.
    fn try_from(value: i32) -> (r: Result<Self, UtilitiesError>)
        ensures
            r is Ok <==> value == 0 || value == 1,
            r matches Ok(id) ==> id.code() == value,
            r matches Err(e) ==> e == UtilitiesError::UnknownHostApplicationId(value),
    {
        match value {
            0 => Ok(HostApplicationId::Unknown),
            1 => Ok(HostApplicationId::XPlane),
            _ => Err(UtilitiesError::UnknownHostApplicationId(value)),
        }
    }
}

impl vstd::std_specs::convert::TryFromSpecImpl<i32> for HostApplicationId {
    open spec fn obeys_try_from_spec() -> bool {
        true
    }

    open spec fn try_from_spec(value: i32) -> Result<Self, UtilitiesError> {
        if value == 0 {
            Ok(HostApplicationId::Unknown)
        } else if value == 1 {
            Ok(HostApplicationId::XPlane)
        } else {
            Err(UtilitiesError::UnknownHostApplicationId(value))
        }
    }
}

/// The versions of the host and of its plugin interface.
#[derive(Clone, Copy, Debug, PartialEq, Eq, Structural)]
pub struct Versions {
    /// The application that runs the plugin.
    pub app_id: HostApplicationId,
    /// The version of the simulator.
    pub xplane: i32,
    /// The version of the plugin interface.
    pub xplm: i32,
}

impl Versions {
    /// Reads the three numbers that the host filled in.
    pub fn new(xplane: i32, xplm: i32, host_id: i32) -> (r: Result<Self, UtilitiesError>)
        ensures
            r is Ok <==> host_id == 0 || host_id == 1,
            r matches Ok(v) ==> v.app_id.code() == host_id && v.xplane == xplane && v.xplm == xplm,
            r matches Err(e) ==> e == UtilitiesError::UnknownHostApplicationId(host_id),
    {
        Ok(Versions { app_id: HostApplicationId::try_from(host_id)?, xplane, xplm })
    }
}

} // verus!
