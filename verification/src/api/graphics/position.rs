use vstd::prelude::*;

use crate::ffi::Double;

verus! {

/// A place in the world.
#[derive(Clone, Copy, Debug, PartialEq, Eq, Structural)]
pub struct WorldPosition {
    /// The latitude, in degrees.
    pub latitude: Double,
    /// The longitude, in degrees.
    pub longitude: Double,
    /// The altitude above mean sea level, in meters.
    pub altitude: Double,
}

impl Default for WorldPosition {
    fn default() -> (r: Self)
        ensures
            r == (WorldPosition {
                latitude: Double(0),
                longitude: Double(0),
                altitude: Double(0),
            }),
    {
        WorldPosition { latitude: Double(0), longitude: Double(0), altitude: Double(0) }
    }
}

impl WorldPosition {
    /// The place at another latitude.
    pub fn latitude(self, value: Double) -> (r: Self)
        ensures
            r == (WorldPosition { latitude: value, ..self }),
    {
        let mut position = self;
        position.latitude = value;
        position
    }

    /// The place at another longitude.
    pub fn longitude(self, value: Double) -> (r: Self)
        ensures
            r == (WorldPosition { longitude: value, ..self }),
    {
        let mut position = self;
        position.longitude = value;
        position
    }

    /// The place at another altitude.
    pub fn altitude(self, value: Double) -> (r: Self)
        ensures
            r == (WorldPosition { altitude: value, ..self }),
    {
        let mut position = self;
        position.altitude = value;
        position
    }
}

/// A place in the scene, in meters along the three axes of the drawing.
#[derive(Clone, Copy, Debug, PartialEq, Eq, Structural)]
pub struct LocalPosition {
    /// The X coordinate.
    pub x: Double,
    /// The Y coordinate.
    pub y: Double,
    /// The Z coordinate.
    pub z: Double,
}

impl Default for LocalPosition {
    fn default() -> (r: Self)
        ensures
            r == (LocalPosition { x: Double(0), y: Double(0), z: Double(0) }),
    {
        LocalPosition { x: Double(0), y: Double(0), z: Double(0) }
    }
}

impl LocalPosition {
    /// The place at another X coordinate.
    pub fn x(self, value: Double) -> (r: Self)
        ensures
            r == (LocalPosition { x: value, ..self }),
    {
        let mut position = self;
        position.x = value;
        position
    }

    /// The place at another Y coordinate.
    pub fn y(self, value: Double) -> (r: Self)
        ensures
            r == (LocalPosition { y: value, ..self }),
    {
        let mut position = self;
        position.y = value;
        position
    }

    /// The place at another Z coordinate.
    pub fn z(self, value: Double) -> (r: Self)
        ensures
            r == (LocalPosition { z: value, ..self }),
    {
        let mut position = self;
        position.z = value;
        position
    }
}

} // verus!
