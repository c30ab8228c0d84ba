use crate::source::traits::SourceError;
use vstd::prelude::*;

verus! {

/// Why a DEM source could not name a dataset for a region.
#[derive(Debug)]
pub enum DemSourceError {
    /// The underlying data source failed.
    Source(SourceError),
    /// The region lies outside the area the source covers.
    OutOfCoverage,
}

impl From<SourceError> for DemSourceError {
    fn from(e: SourceError) -> (r: DemSourceError) {
        DemSourceError::Source(e)
    }
}

impl vstd::std_specs::convert::FromSpecImpl<SourceError> for DemSourceError {
    open spec fn obeys_from_spec() -> bool {
        true
    }

    open spec fn from_spec(e: SourceError) -> DemSourceError {
        DemSourceError::Source(e)
    }
}

} // verus!
