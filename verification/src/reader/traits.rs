use vstd::prelude::*;

verus! {

/// Why a DEM reader could not open a dataset or read an elevation from it.
#[derive(Debug, Clone)]
pub enum DemReaderError {
    /// GDAL failed; the text says how.
    Gdal(String),
    /// The GeoTIFF reader failed; the text says how.
    GeoTiff(String),
    /// The requested point or region lies outside the data; the text says where.
    OutOfBounds(String),
}

} // verus!
