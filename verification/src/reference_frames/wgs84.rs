//! Geodetic coordinates on the reference ellipsoid.

use vstd::prelude::*;

verus! {

/// Latitude and longitude in radians and height above the ellipsoid in
/// metres.
#[derive(Debug)]
pub struct WGS84Coord<T> {
    lat: T,
    lon: T,
    alt: T,
}

impl<T: Copy> Clone for WGS84Coord<T> {
    fn clone(&self) -> (r: Self)
        ensures
            r == *self,
    {
        *self
    }
}

impl<T: Copy> Copy for WGS84Coord<T> {

}

impl<T: Copy> WGS84Coord<T> {
    /// The latitude in radians.
    pub closed spec fn latitude(self) -> T {
        self.lat
    }

    /// The longitude in radians.
    pub closed spec fn longitude(self) -> T {
        self.lon
    }

    /// The height above the ellipsoid in metres.
    pub closed spec fn altitude(self) -> T {
        self.alt
    }

    pub fn new_from_radians(latitude: T, longitude: T, altitude: T) -> (r: WGS84Coord<T>)
        ensures
            r.latitude() == latitude,
            r.longitude() == longitude,
            r.altitude() == altitude,
    {
        WGS84Coord { lat: latitude, lon: longitude, alt: altitude }
    }

    pub fn get_lat_radians(&self) -> (r: T)
        ensures
            r == self.latitude(),
    {
        self.lat
    }

    pub fn get_lon_radians(&self) -> (r: T)
        ensures
            r == self.longitude(),
    {
        self.lon
    }

    pub fn get_altitude(&self) -> (r: T)
        ensures
            r == self.altitude(),
    {
        self.alt
    }

    pub fn set_altitude(&mut self, alt: T)
        ensures
            final(self).altitude() == alt,
            final(self).latitude() == old(self).latitude(),
            final(self).longitude() == old(self).longitude(),
    {
        self.alt = alt
    }
}

} // verus!
