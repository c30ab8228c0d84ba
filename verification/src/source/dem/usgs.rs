//! USGS 1/3 arc-second seamless DEM.
use crate::source::dem::traits::DemSourceError;
use crate::source::traits::Location;
use vstd::prelude::*;

verus! {

/// The USGS 3DEP 1/3 arc-second seamless DEM, served as one virtual raster.
#[derive(Debug, Clone, Copy)]
pub struct UsgsSource;

/// The virtual raster that indexes every tile of the USGS seamless DEM.
pub const USGS_13_VRT_URL: &'static str =
    "https://prd-tnm.s3.amazonaws.com/StagedProducts/Elevation/13/TIFF/USGS_Seamless_DEM_13.vrt";

impl UsgsSource {
    /// The dataset for a point, given whether the point lies in the area the
    /// USGS DEM covers: the seamless virtual raster when it does,
    /// `OutOfCoverage` when it does not.
    pub fn dem_for_point(&self, in_coverage: bool) -> (r: Result<Location, DemSourceError>)
        ensures
            in_coverage ==> (r matches Ok(Location::RemoteUrl(u)) && u@ == USGS_13_VRT_URL@),
            !in_coverage ==> r matches Err(DemSourceError::OutOfCoverage),
    {
        if !in_coverage {
            return Err(DemSourceError::OutOfCoverage);
        }
        Ok(Location::RemoteUrl(String::from_str(USGS_13_VRT_URL)))
    }
}

} // verus!
