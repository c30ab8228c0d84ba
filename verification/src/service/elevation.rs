use crate::reader::traits::DemReaderError;
use crate::source::dem::traits::DemSourceError;
use vstd::prelude::*;

verus! {

/// Why the elevation service could not provide elevations for a region.
#[derive(Debug)]
pub enum ElevationServiceError {
    /// No dataset could be found for the region.
    Source(DemSourceError),
    /// The dataset could not be read.
    Reader(DemReaderError),
}

impl From<DemSourceError> for ElevationServiceError {
    fn from(e: DemSourceError) -> (r: ElevationServiceError) {
        ElevationServiceError::Source(e)
    }
}

impl vstd::std_specs::convert::FromSpecImpl<DemSourceError> for ElevationServiceError {
    open spec fn obeys_from_spec() -> bool {
        true
    }

    open spec fn from_spec(e: DemSourceError) -> ElevationServiceError {
        ElevationServiceError::Source(e)
    }
}

impl From<DemReaderError> for ElevationServiceError {
    fn from(e: DemReaderError) -> (r: ElevationServiceError) {
        ElevationServiceError::Reader(e)
    }
}

impl vstd::std_specs::convert::FromSpecImpl<DemReaderError> for ElevationServiceError {
    open spec fn obeys_from_spec() -> bool {
        true
    }

    open spec fn from_spec(e: DemReaderError) -> ElevationServiceError {
        ElevationServiceError::Reader(e)
    }
}

} // verus!
