use crate::reader::traits::DemReaderError;
use crate::source::traits::Location;
use vstd::prelude::*;

verus! {

/// Reader for local GeoTIFF files.
#[derive(Debug, Clone, Copy)]
pub struct GeoTiffReader;

impl GeoTiffReader {
    /// The file to open for a dataset location: the path itself for a local
    /// path; a URL is refused, since this reader only reads local files.
    pub fn local_path_or_error(loc: &Location) -> (r: Result<&String, DemReaderError>)
        ensures
            loc matches Location::LocalPath(p) ==> (r matches Ok(q) && q@ == p@),
            loc matches Location::RemoteUrl(u) ==> (r matches Err(DemReaderError::GeoTiff(m))
                && m@ == "GeoTiffReader does not support URLs, but got "@ + u@),
    {
        match loc {
            Location::LocalPath(path) => Ok(path),
            Location::RemoteUrl(url) => {
                let mut m = String::from_str("GeoTiffReader does not support URLs, but got ");
                m.append(url.as_str());
                Err(DemReaderError::GeoTiff(m))
            },
        }
    }
}

} // verus!
